//! The membership-service data model: the documents the REST API and the
//! webhook bridge deliver, the records the persistence layer stores, and
//! the pure decisions made over them.  Network and database access stay
//! outside; these functions take the fetched values as arguments.
//!
//! Timestamps travel as milliseconds since the epoch.

use vstd::prelude::*;

use crate::strutil::str_eq;

verus! {

/// A member's standing with the campaign.
#[derive(Clone, Copy, PartialEq, Eq, Structural, Debug)]
pub enum PatronStatus {
    ActivePatron,
    DeclinedPatron,
    FormerPatron,
    Null,
}

/// The outcome of a member's last charge.
#[derive(Clone, Copy, PartialEq, Eq, Structural, Debug)]
pub enum LastChrgeStatus {
    Paid,
    Declined,
    Deleted,
    Pending,
    Refunded,
    Fraud,
    Other,
}

/// One document of the membership API: its type tag, its id, and the
/// attribute payload.
pub struct ApiDocument<A> {
    pub document_type: String,
    pub id: String,
    pub attributes: A,
}

/// The attributes of a campaign member.
pub struct MemberAttributes {
    pub email: Option<String>,
    pub full_name: String,
    pub patron_status: Option<PatronStatus>,
    pub last_charge_date_ms: Option<i64>,
    pub last_charge_status: Option<LastChrgeStatus>,
    pub next_charge_date_ms: Option<i64>,
    pub lifetime_support_cents: i64,
}

/// The attributes of a pledge.
pub struct PledgeAttributes {
    pub amount_cents: i64,
    pub created_at_ms: i64,
    pub currency: String,
    pub declined_since_ms: Option<i64>,
    pub patron_pays_fees: bool,
    pub pledge_cap_cents: i64,
}

/// The pagination link a list response carries.
pub struct Link<L> {
    pub next: Option<L>,
}

/// One stored member record, as the persistence layer keeps it.
pub struct PatreonUserData {
    pub patreon_email: Option<String>,
    pub patreon_username: String,
    pub patreon_status: Option<PatronStatus>,
    pub last_charge_date_ms: Option<i64>,
    pub last_charge_status: Option<LastChrgeStatus>,
    pub next_charge_date_ms: Option<i64>,
    pub lifetime_support_cents: i64,
}

/// The stored record is exactly the member's attributes, field for field.
pub open spec fn spec_user_of_member(m: MemberAttributes, u: PatreonUserData) -> bool {
    &&& match (m.email, u.patreon_email) {
        (Some(a), Some(b)) => a@ == b@,
        (None, None) => true,
        _ => false,
    }
    &&& u.patreon_username@ == m.full_name@
    &&& u.patreon_status == m.patron_status
    &&& u.last_charge_date_ms == m.last_charge_date_ms
    &&& u.last_charge_status == m.last_charge_status
    &&& u.next_charge_date_ms == m.next_charge_date_ms
    &&& u.lifetime_support_cents == m.lifetime_support_cents
}

/// The messages the collection schedule exchanges with its logger.
pub enum ScheduleMessage {
    Info(String),
    Error(String),
    ForceUpdate,
}

/// The per-guild settings the persistence layer stores.
pub struct DiscordServerData {
    pub verify_role_id: u64,
    pub log_channel_id: u64,
    pub webhook_create_member_channel_id: u64,
    pub webhook_update_member_channel_id: u64,
    pub webhook_delete_member_channel_id: u64,
}

/// Which member fact a webhook delivery announces.
#[derive(Clone, Copy, PartialEq, Eq, Structural, Debug)]
pub enum DatabaseWebHookEvent {
    CreateMember,
    UpdateMember,
    DeleteMember,
}

/// The refresh step of the collection schedule: turn the fetched member
/// list into the records to store, one for one, in order.
pub struct DatabaseManager;

impl DatabaseManager {
    pub fn map_members(members: &Vec<ApiDocument<MemberAttributes>>) -> (r: Vec<PatreonUserData>)
        ensures
            r@.len() == members@.len(),
            forall|i: int|
                0 <= i < r@.len() ==> spec_user_of_member(
                    (#[trigger] members@[i]).attributes,
                    r@[i],
                ),
    {
        let mut out: Vec<PatreonUserData> = Vec::new();
        let mut i: usize = 0;
        while i < members.len()
            invariant
                i <= members@.len(),
                out@.len() == i,
                forall|j: int|
                    0 <= j < i ==> spec_user_of_member(
                        (#[trigger] members@[j]).attributes,
                        out@[j],
                    ),
            decreases members@.len() - i,
        {
            let a = &members[i].attributes;
            out.push(
                PatreonUserData {
                    patreon_email: clone_opt_string(&a.email),
                    patreon_username: a.full_name.clone(),
                    patreon_status: a.patron_status,
                    last_charge_date_ms: a.last_charge_date_ms,
                    last_charge_status: a.last_charge_status,
                    next_charge_date_ms: a.next_charge_date_ms,
                    lifetime_support_cents: a.lifetime_support_cents,
                },
            );
            i += 1;
        }
        out
    }
}

/// The key under which each webhook fact's announcement channel is
/// stored.
pub fn webhook_channel_key(event: DatabaseWebHookEvent) -> (r: &'static str)
    ensures
        r@ == match event {
            DatabaseWebHookEvent::CreateMember => "webhook_create_member_channel_id"@,
            DatabaseWebHookEvent::UpdateMember => "webhook_update_member_channel_id"@,
            DatabaseWebHookEvent::DeleteMember => "webhook_delete_member_channel_id"@,
        },
{
    match event {
        DatabaseWebHookEvent::CreateMember => "webhook_create_member_channel_id",
        DatabaseWebHookEvent::UpdateMember => "webhook_update_member_channel_id",
        DatabaseWebHookEvent::DeleteMember => "webhook_delete_member_channel_id",
    }
}

impl DiscordServerData {
    /// The channel that announces the given webhook fact.
    pub fn webhook_channel_for(&self, event: DatabaseWebHookEvent) -> (r: u64)
        ensures
            r == match event {
                DatabaseWebHookEvent::CreateMember => self.webhook_create_member_channel_id,
                DatabaseWebHookEvent::UpdateMember => self.webhook_update_member_channel_id,
                DatabaseWebHookEvent::DeleteMember => self.webhook_delete_member_channel_id,
            },
    {
        match event {
            DatabaseWebHookEvent::CreateMember => self.webhook_create_member_channel_id,
            DatabaseWebHookEvent::UpdateMember => self.webhook_update_member_channel_id,
            DatabaseWebHookEvent::DeleteMember => self.webhook_delete_member_channel_id,
        }
    }
}

/// The stored member record under the given email, if any: first match
/// in storage order.
pub open spec fn spec_find_user(users: Seq<PatreonUserData>, email: Seq<char>) -> Option<
    PatreonUserData,
>
    decreases users.len(),
{
    if users.len() == 0 {
        None
    } else if users[0].patreon_email matches Some(e) && e@ == email {
        Some(users[0])
    } else {
        spec_find_user(users.drop_first(), email)
    }
}

/// The member claimed an email that belongs to a patron who is already
/// active: the verification must not hand the role out twice.
#[derive(Clone, Copy, PartialEq, Eq, Structural, Debug)]
pub struct AlreadyActiveError;

/// A pending email verification.
pub struct PatreonVerification {
    pub patreon_email: String,
}

impl PatreonVerification {
    pub fn new(patreon_email: String) -> (r: Self)
        ensures
            r.patreon_email == patreon_email,
    {
        PatreonVerification { patreon_email }
    }

    /// The verification outcome over the stored records: an error if the
    /// claimed email belongs to an already-active patron, otherwise
    /// whether a record with a known, non-active status was found.
    pub fn verify(&self, users: &Vec<PatreonUserData>) -> (r: Result<bool, AlreadyActiveError>)
        ensures
            ({
                let found = spec_find_user(users@, self.patreon_email@);
                match r {
                    Err(_) => found matches Some(u) && u.patreon_status == Some(
                        PatronStatus::ActivePatron,
                    ),
                    Ok(b) => !(found matches Some(u) && u.patreon_status == Some(
                        PatronStatus::ActivePatron,
                    )) && b == (found matches Some(u) && u.patreon_status is Some),
                }
            }),
    {
        let record = find_user(users, self.patreon_email.as_str());
        match record {
            Some(u) => {
                match u.patreon_status {
                    Some(PatronStatus::ActivePatron) => Err(AlreadyActiveError),
                    Some(_) => Ok(true),
                    None => Ok(false),
                }
            },
            None => Ok(false),
        }
    }
}

/// Find the stored record for an email, first match in storage order.
pub fn find_user<'a>(users: &'a Vec<PatreonUserData>, email: &str) -> (r: Option<
    &'a PatreonUserData,
>)
    ensures
        match r {
            Some(u) => spec_find_user(users@, email@) == Some(*u),
            None => spec_find_user(users@, email@) is None,
        },
{
    let mut i: usize = 0;
    proof {
        assert(users@.skip(0) =~= users@);
    }
    while i < users.len()
        invariant
            i <= users@.len(),
            spec_find_user(users@, email@) == spec_find_user(users@.skip(i as int), email@),
        decreases users@.len() - i,
    {
        proof {
            assert(users@.skip(i as int)[0] == users@[i as int]);
            assert(users@.skip(i as int).drop_first() =~= users@.skip(i + 1));
        }
        let matches = match &users[i].patreon_email {
            Some(e) => str_eq(e.as_str(), email),
            None => false,
        };
        if matches {
            return Some(&users[i]);
        }
        i += 1;
    }
    None
}

fn clone_opt_string(s: &Option<String>) -> (r: Option<String>)
    ensures
        r is Some == s is Some,
        r matches Some(x) ==> (s matches Some(y) && x@ == y@),
    {
    match s {
        Some(x) => Some(x.clone()),
        None => None,
    }
}

} // verus!
