//! The interactive ban workflow: the decisions of the state machine
//! `INIT -> COLLECTING_TARGETS -> [EDITING_DETAILS]* -> {CONFIRMED |
//! CANCELLED | TIMED_OUT}`.
//!
//! Sessions start with an empty draft and a registered route; component
//! interactions are classified by their custom id; a confirm action is
//! validated against the invoker and the targets' permissions; and all
//! three terminal paths converge on one idempotent teardown.

use vstd::prelude::*;

use crate::errors::SelfTargetError;
use crate::router::{spec_register, spec_unregister, EventRouter};
use crate::session::{BanData, BanField, BanSession};
use crate::strutil::{
    lemma_parse_dec_of, parse_u64, push_dec, spec_dec_of, spec_parse_u64, spec_starts_with,
    starts_with, str_eq,
};

verus! {

/// The routing key every ban-workflow session registers under.
pub fn moderate_routing_key() -> (r: &'static str)
    ensures
        r@ == "moderate:event"@,
{
    "moderate:event"
}

/// The custom id of the user-select control of `owner`'s menu.
pub fn select_menu_custom_id(owner: u64) -> (r: String)
    ensures
        r@ == "banuser:"@ + spec_dec_of(owner as nat),
{
    let mut s = "banuser:".to_owned();
    push_dec(&mut s, owner);
    s
}

/// The custom id of the confirm control of `owner`'s menu.
pub fn confirm_custom_id(owner: u64) -> (r: String)
    ensures
        r@ == "confirmbanbtn:"@ + spec_dec_of(owner as nat),
{
    let mut s = "confirmbanbtn:".to_owned();
    push_dec(&mut s, owner);
    s
}

/// The custom id of the reason-editing control of `owner`'s menu.
pub fn reason_custom_id(owner: u64) -> (r: String)
    ensures
        r@ == "reasonbanbtn:"@ + spec_dec_of(owner as nat),
{
    let mut s = "reasonbanbtn:".to_owned();
    push_dec(&mut s, owner);
    s
}

/// The custom id of the duration-editing control of `owner`'s menu.
pub fn duration_custom_id(owner: u64) -> (r: String)
    ensures
        r@ == "durationbanbtn:"@ + spec_dec_of(owner as nat),
{
    let mut s = "durationbanbtn:".to_owned();
    push_dec(&mut s, owner);
    s
}

/// The custom id of the attachment-editing control of `owner`'s menu.
pub fn attachment_custom_id(owner: u64) -> (r: String)
    ensures
        r@ == "attachmentbanbtn:"@ + spec_dec_of(owner as nat),
{
    let mut s = "attachmentbanbtn:".to_owned();
    push_dec(&mut s, owner);
    s
}

/// The custom id of the cancel control of `owner`'s menu.
pub fn cancel_custom_id(owner: u64) -> (r: String)
    ensures
        r@ == "cancelbanbtn:"@ + spec_dec_of(owner as nat),
{
    let mut s = "cancelbanbtn:".to_owned();
    push_dec(&mut s, owner);
    s
}

/// What a component interaction inside the workflow asks for.
#[derive(Clone, Copy, PartialEq, Eq, Structural, Debug)]
pub enum ComponentAction {
    OpenReasonModal,
    OpenDurationModal,
    OpenAttachmentModal,
    /// A well-formed confirm control, naming the menu owner it belongs
    /// to.  The action is honored only when the actor is that owner.
    Confirm { owner: u64 },
    /// A well-formed cancel control; honored only for its owner, and
    /// then it runs the same teardown with a cancelled terminal view.
    Cancel { owner: u64 },
    /// The actor's own user-select control reported a new selection.
    SelectUsers,
    /// Anything else, including a confirm control with a malformed owner.
    Ignored,
}

pub open spec fn spec_classify_component(id: Seq<char>, actor: u64) -> ComponentAction {
    if spec_starts_with(id, "reasonbanbtn:"@) {
        ComponentAction::OpenReasonModal
    } else if spec_starts_with(id, "durationbanbtn:"@) {
        ComponentAction::OpenDurationModal
    } else if spec_starts_with(id, "attachmentbanbtn:"@) {
        ComponentAction::OpenAttachmentModal
    } else if spec_starts_with(id, "confirmbanbtn:"@) {
        match spec_parse_u64(id.skip("confirmbanbtn:"@.len() as int)) {
            Some(owner) => ComponentAction::Confirm { owner },
            None => ComponentAction::Ignored,
        }
    } else if spec_starts_with(id, "cancelbanbtn:"@) {
        match spec_parse_u64(id.skip("cancelbanbtn:"@.len() as int)) {
            Some(owner) => ComponentAction::Cancel { owner },
            None => ComponentAction::Ignored,
        }
    } else if id == "banuser:"@ + spec_dec_of(actor as nat) {
        ComponentAction::SelectUsers
    } else {
        ComponentAction::Ignored
    }
}

/// Classify a component interaction by its custom id, as seen by `actor`.
pub fn classify_component(custom_id: &str, actor: u64) -> (r: ComponentAction)
    ensures
        r == spec_classify_component(custom_id@, actor),
{
    if starts_with(custom_id, "reasonbanbtn:") {
        return ComponentAction::OpenReasonModal;
    }
    if starts_with(custom_id, "durationbanbtn:") {
        return ComponentAction::OpenDurationModal;
    }
    if starts_with(custom_id, "attachmentbanbtn:") {
        return ComponentAction::OpenAttachmentModal;
    }
    if starts_with(custom_id, "confirmbanbtn:") {
        let prefix_len = "confirmbanbtn:".unicode_len();
        let id_len = custom_id.unicode_len();
        let rest = custom_id.substring_char(prefix_len, id_len);
        proof {
            assert(rest@ =~= custom_id@.skip("confirmbanbtn:"@.len() as int));
        }
        return match parse_u64(rest) {
            Some(owner) => ComponentAction::Confirm { owner },
            None => ComponentAction::Ignored,
        };
    }
    if starts_with(custom_id, "cancelbanbtn:") {
        let prefix_len = "cancelbanbtn:".unicode_len();
        let id_len = custom_id.unicode_len();
        let rest = custom_id.substring_char(prefix_len, id_len);
        proof {
            assert(rest@ =~= custom_id@.skip("cancelbanbtn:"@.len() as int));
        }
        return match parse_u64(rest) {
            Some(owner) => ComponentAction::Cancel { owner },
            None => ComponentAction::Ignored,
        };
    }
    let expected = select_menu_custom_id(actor);
    if str_eq(custom_id, expected.as_str()) {
        return ComponentAction::SelectUsers;
    }
    ComponentAction::Ignored
}

/// A well-formed confirm id classifies back to exactly its owner,
/// whoever looks at it.
pub proof fn lemma_confirm_roundtrip(owner: u64, actor: u64)
    ensures
        spec_classify_component("confirmbanbtn:"@ + spec_dec_of(owner as nat), actor)
            == (ComponentAction::Confirm { owner }),
{
    let id = "confirmbanbtn:"@ + spec_dec_of(owner as nat);
    reveal_strlit("confirmbanbtn:");
    reveal_strlit("reasonbanbtn:");
    reveal_strlit("durationbanbtn:");
    reveal_strlit("attachmentbanbtn:");
    crate::strutil::lemma_dec_of_val(owner as nat);
    assert(id.subrange(0, "confirmbanbtn:"@.len() as int) =~= "confirmbanbtn:"@);
    if spec_starts_with(id, "reasonbanbtn:"@) {
        assert(id.subrange(0, "reasonbanbtn:"@.len() as int)[0] == 'r');
        assert(false);
    }
    if spec_starts_with(id, "durationbanbtn:"@) {
        assert(id.subrange(0, "durationbanbtn:"@.len() as int)[0] == 'd');
        assert(false);
    }
    if spec_starts_with(id, "attachmentbanbtn:"@) {
        assert(id.subrange(0, "attachmentbanbtn:"@.len() as int)[0] == 'a');
        assert(false);
    }
    assert(id.skip("confirmbanbtn:"@.len() as int) =~= spec_dec_of(owner as nat));
    lemma_parse_dec_of(owner);
}

/// The owner's own select-menu id classifies as a selection change for
/// the owner.
pub proof fn lemma_select_roundtrip(owner: u64)
    ensures
        spec_classify_component("banuser:"@ + spec_dec_of(owner as nat), owner)
            == ComponentAction::SelectUsers,
{
    let id = "banuser:"@ + spec_dec_of(owner as nat);
    reveal_strlit("banuser:");
    reveal_strlit("confirmbanbtn:");
    reveal_strlit("cancelbanbtn:");
    reveal_strlit("reasonbanbtn:");
    reveal_strlit("durationbanbtn:");
    reveal_strlit("attachmentbanbtn:");
    crate::strutil::lemma_dec_of_val(owner as nat);
    if spec_starts_with(id, "reasonbanbtn:"@) {
        assert(id.subrange(0, "reasonbanbtn:"@.len() as int)[0] == 'r');
        assert(false);
    }
    if spec_starts_with(id, "durationbanbtn:"@) {
        assert(id.subrange(0, "durationbanbtn:"@.len() as int)[0] == 'd');
        assert(false);
    }
    if spec_starts_with(id, "attachmentbanbtn:"@) {
        assert(id.subrange(0, "attachmentbanbtn:"@.len() as int)[0] == 'a');
        assert(false);
    }
    if spec_starts_with(id, "confirmbanbtn:"@) {
        assert(id.subrange(0, "confirmbanbtn:"@.len() as int)[0] == 'c');
        assert(false);
    }
    if spec_starts_with(id, "cancelbanbtn:"@) {
        assert(id.subrange(0, "cancelbanbtn:"@.len() as int)[0] == 'c');
        assert(false);
    }
}

/// A confirm action is honored only when the actor who pressed the
/// control is the session owner the control names.
pub fn confirm_honored(action: &ComponentAction, actor: u64) -> (r: bool)
    ensures
        r == (action matches ComponentAction::Confirm { owner } && owner == actor),
{
    match action {
        ComponentAction::Confirm { owner } => *owner == actor,
        _ => false,
    }
}

/// A cancel action too is honored only for the session owner.
pub fn cancel_honored(action: &ComponentAction, actor: u64) -> (r: bool)
    ensures
        r == (action matches ComponentAction::Cancel { owner } && owner == actor),
{
    match action {
        ComponentAction::Cancel { owner } => *owner == actor,
        _ => false,
    }
}

/// A well-formed cancel id classifies back to exactly its owner.
pub proof fn lemma_cancel_roundtrip(owner: u64, actor: u64)
    ensures
        spec_classify_component("cancelbanbtn:"@ + spec_dec_of(owner as nat), actor)
            == (ComponentAction::Cancel { owner }),
{
    let id = "cancelbanbtn:"@ + spec_dec_of(owner as nat);
    reveal_strlit("cancelbanbtn:");
    reveal_strlit("confirmbanbtn:");
    reveal_strlit("reasonbanbtn:");
    reveal_strlit("durationbanbtn:");
    reveal_strlit("attachmentbanbtn:");
    crate::strutil::lemma_dec_of_val(owner as nat);
    assert(id.subrange(0, "cancelbanbtn:"@.len() as int) =~= "cancelbanbtn:"@);
    if spec_starts_with(id, "reasonbanbtn:"@) {
        assert(id.subrange(0, "reasonbanbtn:"@.len() as int)[0] == 'r');
        assert(false);
    }
    if spec_starts_with(id, "durationbanbtn:"@) {
        assert(id.subrange(0, "durationbanbtn:"@.len() as int)[0] == 'd');
        assert(false);
    }
    if spec_starts_with(id, "attachmentbanbtn:"@) {
        assert(id.subrange(0, "attachmentbanbtn:"@.len() as int)[0] == 'a');
        assert(false);
    }
    if spec_starts_with(id, "confirmbanbtn:"@) {
        assert(id.subrange(0, "confirmbanbtn:"@.len() as int)[1] == 'o');
        assert(false);
    }
    assert(id.skip("cancelbanbtn:"@.len() as int) =~= spec_dec_of(owner as nat));
    lemma_parse_dec_of(owner);
}

/// What a validated confirm action applies: the targets to ban, in
/// selection order, and the targets skipped for holding an elevated
/// permission the invoker cannot override, reported as partial failures.
pub struct ConfirmOutcome {
    pub banned: Vec<u64>,
    pub skipped: Vec<u64>,
}

/// Validate a confirm action.  If any target is the invoker, the whole
/// action is rejected and nothing is applied.  Otherwise every elevated
/// target is skipped — the action continues for the rest — and every
/// other target is banned.
pub fn confirm_ban(invoker: u64, targets: &Vec<u64>, elevated: &Vec<u64>) -> (r: Result<
    ConfirmOutcome,
    SelfTargetError,
>)
    ensures
        r is Err <==> targets@.contains(invoker),
        r matches Ok(o) ==> {
            &&& o.banned@ == targets@.filter(|t: u64| !elevated@.contains(t))
            &&& o.skipped@ == targets@.filter(|t: u64| elevated@.contains(t))
        },
{
    if contains_u64(targets, invoker) {
        return Err(SelfTargetError);
    }
    let ghost banned_pred = |t: u64| !elevated@.contains(t);
    let ghost skipped_pred = |t: u64| elevated@.contains(t);
    let mut banned: Vec<u64> = Vec::new();
    let mut skipped: Vec<u64> = Vec::new();
    let mut i: usize = 0;
    proof {
        reveal(Seq::filter);
        assert(targets@.take(0) =~= Seq::<u64>::empty());
    }
    while i < targets.len()
        invariant
            i <= targets@.len(),
            banned@ == targets@.take(i as int).filter(banned_pred),
            skipped@ == targets@.take(i as int).filter(skipped_pred),
            banned_pred == (|t: u64| !elevated@.contains(t)),
            skipped_pred == (|t: u64| elevated@.contains(t)),
        decreases targets@.len() - i,
    {
        let t = targets[i];
        proof {
            reveal(Seq::filter);
            assert(targets@.take(i + 1).drop_last() =~= targets@.take(i as int));
            assert(targets@.take(i + 1).last() == t);
        }
        if contains_u64(elevated, t) {
            skipped.push(t);
        } else {
            banned.push(t);
        }
        i += 1;
    }
    proof {
        assert(targets@.take(targets@.len() as int) =~= targets@);
    }
    Ok(ConfirmOutcome { banned, skipped })
}

/// Membership test on a plain list of user ids.
pub fn contains_u64(v: &Vec<u64>, x: u64) -> (r: bool)
    ensures
        r == v@.contains(x),
{
    let mut i: usize = 0;
    while i < v.len()
        invariant
            i <= v@.len(),
            forall|j: int| 0 <= j < i ==> v@[j] != x,
        decreases v@.len() - i,
    {
        if v[i] == x {
            return true;
        }
        i += 1;
    }
    false
}

/// Start a ban workflow for `user`: supersede any session the user
/// already had (its waiter's generation comes back first, so the caller
/// cancels it before anything can race on the slot), create the fresh
/// empty draft with its waiter armed for `now + window_ms`, and register
/// the workflow's route for the user.
pub fn start_ban_session(
    sessions: &mut BanSession,
    router: &mut EventRouter,
    routing_key: &str,
    user: u64,
    now: u64,
    window_ms: u64,
) -> (r: (Option<u64>, u64))
    requires
        now + window_ms <= u64::MAX,
    ensures
        r.0 == if old(sessions)@.contains_key(user) {
            Some(old(sessions)@[user].generation)
        } else {
            None::<u64>
        },
        final(sessions)@.contains_key(user),
        final(sessions)@[user].targets@ == Seq::<u64>::empty(),
        final(sessions)@[user].info.reason is None,
        final(sessions)@[user].info.duration_days is None,
        final(sessions)@[user].info.attachment is None,
        final(sessions)@[user].generation == r.1,
        final(sessions)@[user].deadline == now + window_ms,
        final(sessions)@ == old(sessions)@.insert(user, final(sessions)@[user]),
        final(router)@ == spec_register(old(router)@, routing_key@, user),
{
    let r = sessions.create_user_session(user, now, window_ms);
    router.register(routing_key, user);
    r
}

/// The one teardown routine all terminal paths share: drop the session
/// and unregister its route.  The removed session's generation comes
/// back so the caller can signal its waiter.  Tearing down an
/// already-torn-down session is a no-op.
pub fn teardown(
    sessions: &mut BanSession,
    router: &mut EventRouter,
    routing_key: &str,
    user: u64,
) -> (r: Option<u64>)
    ensures
        r == if old(sessions)@.contains_key(user) {
            Some(old(sessions)@[user].generation)
        } else {
            None::<u64>
        },
        final(sessions)@ == old(sessions)@.remove(user),
        final(router)@ == spec_unregister(old(router)@, routing_key@, user),
{
    let r = sessions.remove(user);
    router.unregister(routing_key, user);
    r
}

/// Has this session's waiter window elapsed?
pub open spec fn spec_timed_out(d: BanData, now: u64) -> bool {
    now >= d.deadline
}

/// The background waiter's timer fired: if the session is still live and
/// its window has elapsed, run the teardown; in every other case —
/// already torn down by a confirm or cancel, or a timer that fired
/// early — change nothing.
pub fn on_timeout(
    sessions: &mut BanSession,
    router: &mut EventRouter,
    routing_key: &str,
    user: u64,
    now: u64,
) -> (r: bool)
    ensures
        r == (old(sessions)@.contains_key(user) && spec_timed_out(old(sessions)@[user], now)),
        r ==> final(sessions)@ == old(sessions)@.remove(user) && final(router)@ == spec_unregister(
            old(router)@,
            routing_key@,
            user,
        ),
        !r ==> final(sessions)@ == old(sessions)@ && final(router)@ == old(router)@,
{
    let fire = match sessions.get(user) {
        Some(d) => now >= d.deadline,
        None => false,
    };
    if fire {
        teardown(sessions, router, routing_key, user);
        true
    } else {
        false
    }
}

/// The detail field a submitted form edits, named by the form's custom
/// id.
pub open spec fn spec_classify_modal(custom_id: Seq<char>) -> Option<BanField> {
    if custom_id == "BAN REASON"@ {
        Some(BanField::Reason)
    } else if custom_id == "BAN DURATION"@ {
        Some(BanField::Duration)
    } else if custom_id == "BAN ATTACHMENT"@ {
        Some(BanField::Attachment)
    } else {
        None
    }
}

pub fn classify_modal(custom_id: &str) -> (r: Option<BanField>)
    ensures
        r == spec_classify_modal(custom_id@),
{
    if str_eq(custom_id, "BAN REASON") {
        Some(BanField::Reason)
    } else if str_eq(custom_id, "BAN DURATION") {
        Some(BanField::Duration)
    } else if str_eq(custom_id, "BAN ATTACHMENT") {
        Some(BanField::Attachment)
    } else {
        None
    }
}

/// The input key a detail field's form submits its value under.
pub fn modal_field_key(field: BanField) -> (r: &'static str)
    ensures
        r@ == match field {
            BanField::Reason => "ban_reason"@,
            BanField::Duration => "ban_duration"@,
            BanField::Attachment => "ban_attachment"@,
        },
{
    match field {
        BanField::Reason => "ban_reason",
        BanField::Duration => "ban_duration",
        BanField::Attachment => "ban_attachment",
    }
}

/// The first value submitted under `key`; missing inputs count as empty,
/// as the form extractor defaults them.
pub open spec fn spec_field_value(fields: Seq<(String, String)>, key: Seq<char>) -> Seq<char>
    decreases fields.len(),
{
    if fields.len() == 0 {
        Seq::<char>::empty()
    } else if fields[0].0@ == key {
        fields[0].1@
    } else {
        spec_field_value(fields.drop_first(), key)
    }
}

pub fn field_value(fields: &Vec<(String, String)>, key: &str) -> (r: String)
    ensures
        r@ == spec_field_value(fields@, key@),
{
    let mut i: usize = 0;
    proof {
        assert(fields@.skip(0) =~= fields@);
    }
    while i < fields.len()
        invariant
            i <= fields@.len(),
            spec_field_value(fields@, key@) == spec_field_value(fields@.skip(i as int), key@),
        decreases fields@.len() - i,
    {
        proof {
            assert(fields@.skip(i as int)[0] == fields@[i as int]);
            assert(fields@.skip(i as int).drop_first() =~= fields@.skip(i + 1));
        }
        if str_eq(fields[i].0.as_str(), key) {
            return fields[i].1.clone();
        }
        i += 1;
    }
    String::new()
}

/// A submitted detail form, end to end: name the edited field from the
/// form's custom id, extract the submitted value, and update exactly
/// that field of the actor's draft.  An unknown form, a bad duration, or
/// a missing session changes nothing.
pub fn apply_modal_submission(
    sessions: &mut BanSession,
    user: u64,
    custom_id: &str,
    fields: &Vec<(String, String)>,
) -> (r: bool)
    ensures
        spec_classify_modal(custom_id@) is None ==> !r && final(sessions)@ == old(sessions)@,
        spec_classify_modal(custom_id@) matches Some(f) ==> {
            let value = spec_field_value(
                fields@,
                match f {
                    BanField::Reason => "ban_reason"@,
                    BanField::Duration => "ban_duration"@,
                    BanField::Attachment => "ban_attachment"@,
                },
            );
            &&& (!old(sessions)@.contains_key(user) ==> !r && final(sessions)@ == old(sessions)@)
            &&& (old(sessions)@.contains_key(user) ==> match f {
                BanField::Reason => r && (
                final(sessions)@[user].info.reason matches Some(s) && s@ == value),
                BanField::Duration => match spec_parse_u64(value) {
                    Some(n) => if n <= 255 {
                        r && final(sessions)@[user].info.duration_days == Some(n as u8)
                    } else {
                        !r && final(sessions)@ == old(sessions)@
                    },
                    None => !r && final(sessions)@ == old(sessions)@,
                },
                BanField::Attachment => r && (
                final(sessions)@[user].info.attachment matches Some(s) && s@ == value),
            })
            &&& (r ==> crate::session::spec_same_except(
                final(sessions)@[user],
                old(sessions)@[user],
                f,
            ) && final(sessions)@ == old(sessions)@.insert(user, final(sessions)@[user]))
        },
{
    match classify_modal(custom_id) {
        Some(field) => {
            let value = field_value(fields, modal_field_key(field));
            sessions.update_detail(user, field, value.as_str())
        },
        None => false,
    }
}

/// Tearing a session down twice leaves exactly the state one teardown
/// leaves: the racing CONFIRMED and TIMED_OUT paths converge.
pub proof fn lemma_teardown_idempotent(
    sessions: Map<u64, BanData>,
    routes: Map<u64, Seq<char>>,
    key: Seq<char>,
    user: u64,
)
    ensures
        sessions.remove(user).remove(user) == sessions.remove(user),
        spec_unregister(spec_unregister(routes, key, user), key, user) == spec_unregister(
            routes,
            key,
            user,
        ),
{
    assert(sessions.remove(user).remove(user) =~= sessions.remove(user));
    if spec_unregister(routes, key, user).contains_key(user) {
    } else {
        assert(spec_unregister(spec_unregister(routes, key, user), key, user) == spec_unregister(
            routes,
            key,
            user,
        ));
    }
}

/// A user registered under a key and then unregistered under the same
/// key is absent from the router: after a timeout teardown the session
/// is gone from the router immediately.
pub proof fn lemma_timeout_unroutes(routes: Map<u64, Seq<char>>, key: Seq<char>, user: u64)
    ensures
        !spec_unregister(spec_register(routes, key, user), key, user).contains_key(user),
{
}

} // verus!
