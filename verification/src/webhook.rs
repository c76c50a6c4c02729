//! The webhook bridge's checks: signature verification for incoming
//! deliveries and the mapping from a trigger header to the typed event it
//! announces.  The HTTP plumbing and the JSON body live outside; these
//! functions see the secret, the raw body bytes, and the header values.

use hmac::Mac;
use vstd::prelude::*;

use crate::strutil::str_eq;

verus! {

/// What HMAC-MD5 returns for the given key and message.  The tag is a
/// pure function of both inputs alone.
pub uninterp spec fn hmac_md5_of(key: Seq<u8>, message: Seq<u8>) -> Seq<u8>;

/// Relies on hmac::Hmac over md5::Md5 — the new_from_slice / update /
/// finalize sequence that computes one MAC: the HMAC-MD5 tag of the
/// message under the key, 16 bytes as MD5's output size.  new_from_slice
/// accepts keys of any length for an HMAC.
#[verifier::external_body]
fn hmac_md5(key: &[u8], message: &[u8]) -> (r: Vec<u8>)
    ensures
        r@ == hmac_md5_of(key@, message@),
        r@.len() == 16,
{
    let mut mac = <hmac::Hmac<md5::Md5>>::new_from_slice(key).expect(
        "an HMAC accepts keys of any length",
    );
    mac.update(message);
    mac.finalize().into_bytes().to_vec()
}

/// The lowercase hex digit for a value below sixteen.
pub open spec fn spec_hex_digit(d: int) -> char {
    if d < 10 {
        crate::strutil::spec_digit_char(d)
    } else if d == 10 {
        'a'
    } else if d == 11 {
        'b'
    } else if d == 12 {
        'c'
    } else if d == 13 {
        'd'
    } else if d == 14 {
        'e'
    } else {
        'f'
    }
}

/// The lowercase hex text of a byte sequence: two digits per byte, high
/// digit first.
pub open spec fn spec_hex_of(bytes: Seq<u8>) -> Seq<char>
    decreases bytes.len(),
{
    if bytes.len() == 0 {
        Seq::<char>::empty()
    } else {
        spec_hex_of(bytes.drop_last()) + seq![
            spec_hex_digit(bytes.last() as int / 16),
            spec_hex_digit(bytes.last() as int % 16),
        ]
    }
}

fn push_hex_digit(s: &mut String, d: u8)
    requires
        d < 16,
    ensures
        final(s)@ == old(s)@ + seq![spec_hex_digit(d as int)],
{
    if d < 10 {
        crate::strutil::push_digit(s, d as u64);
    } else if d == 10 {
        s.append("a");
        proof {
            reveal_strlit("a");
            assert("a"@ =~= seq![spec_hex_digit(10)]);
        }
    } else if d == 11 {
        s.append("b");
        proof {
            reveal_strlit("b");
            assert("b"@ =~= seq![spec_hex_digit(11)]);
        }
    } else if d == 12 {
        s.append("c");
        proof {
            reveal_strlit("c");
            assert("c"@ =~= seq![spec_hex_digit(12)]);
        }
    } else if d == 13 {
        s.append("d");
        proof {
            reveal_strlit("d");
            assert("d"@ =~= seq![spec_hex_digit(13)]);
        }
    } else if d == 14 {
        s.append("e");
        proof {
            reveal_strlit("e");
            assert("e"@ =~= seq![spec_hex_digit(14)]);
        }
    } else {
        s.append("f");
        proof {
            reveal_strlit("f");
            assert("f"@ =~= seq![spec_hex_digit(15)]);
        }
    }
}

/// The lowercase hex text of the given bytes.
pub fn hex_encode(bytes: &Vec<u8>) -> (r: String)
    ensures
        r@ == spec_hex_of(bytes@),
{
    let mut out = String::new();
    let mut i: usize = 0;
    proof {
        assert(out@ =~= spec_hex_of(bytes@.take(0)));
    }
    while i < bytes.len()
        invariant
            i <= bytes@.len(),
            out@ == spec_hex_of(bytes@.take(i as int)),
        decreases bytes@.len() - i,
    {
        let b = bytes[i];
        proof {
            assert(bytes@.take(i + 1).drop_last() =~= bytes@.take(i as int));
            assert(bytes@.take(i + 1).last() == b);
        }
        push_hex_digit(&mut out, b / 16);
        push_hex_digit(&mut out, b % 16);
        proof {
            assert(out@ =~= spec_hex_of(bytes@.take(i + 1)));
        }
        i += 1;
    }
    proof {
        assert(bytes@.take(bytes@.len() as int) =~= bytes@);
    }
    out
}

/// Which fact a webhook delivery announces, named by its trigger header.
#[derive(Clone, Copy, PartialEq, Eq, Structural, Debug)]
pub enum EventKind {
    CreatePledge,
    UpdatePledge,
    DeletePledge,
    CreateMember,
    UpdateMember,
    DeleteMember,
    CreateMemberPledge,
    UpdateMemberPledge,
    DeleteMemberPledge,
}

/// A trigger header naming no known event.
#[derive(Debug, Clone, PartialEq, Eq)]
pub struct UnknownTriggerError {
    pub trigger: String,
}

pub open spec fn spec_event_kind(trigger: Seq<char>) -> Option<EventKind> {
    if trigger == "pledges:create"@ {
        Some(EventKind::CreatePledge)
    } else if trigger == "pledges:update"@ {
        Some(EventKind::UpdatePledge)
    } else if trigger == "pledges:delete"@ {
        Some(EventKind::DeletePledge)
    } else if trigger == "members:create"@ {
        Some(EventKind::CreateMember)
    } else if trigger == "members:update"@ {
        Some(EventKind::UpdateMember)
    } else if trigger == "members:delete"@ {
        Some(EventKind::DeleteMember)
    } else if trigger == "members:pledge:create"@ {
        Some(EventKind::CreateMemberPledge)
    } else if trigger == "members:pledge:update"@ {
        Some(EventKind::UpdateMemberPledge)
    } else if trigger == "members:pledge:delete"@ {
        Some(EventKind::DeleteMemberPledge)
    } else {
        None
    }
}

/// The webhook endpoint's secret.
pub struct Webhook {
    pub webhook_secret: String,
}

impl Webhook {
    /// Is `signature` the lowercase hex HMAC-MD5 tag of `body` under the
    /// configured secret?  The comparison is exact, case included.
    pub fn check_signature(&self, body: &[u8], signature: &str) -> (r: bool)
        ensures
            r == (spec_hex_of(
                hmac_md5_of(vstd::utf8::encode_utf8(self.webhook_secret@), body@),
            ) == signature@),
    {
        let tag = hmac_md5(self.webhook_secret.as_str().as_bytes(), body);
        let local = hex_encode(&tag);
        str_eq(local.as_str(), signature)
    }

    /// The event a trigger header announces; an unknown trigger is
    /// reported back as an error.
    pub fn parse_event(&self, trigger: &str) -> (r: Result<EventKind, UnknownTriggerError>)
        ensures
            match r {
                Ok(k) => spec_event_kind(trigger@) == Some(k),
                Err(e) => spec_event_kind(trigger@) is None && e.trigger@ == trigger@,
            },
    {
        if str_eq(trigger, "pledges:create") {
            Ok(EventKind::CreatePledge)
        } else if str_eq(trigger, "pledges:update") {
            Ok(EventKind::UpdatePledge)
        } else if str_eq(trigger, "pledges:delete") {
            Ok(EventKind::DeletePledge)
        } else if str_eq(trigger, "members:create") {
            Ok(EventKind::CreateMember)
        } else if str_eq(trigger, "members:update") {
            Ok(EventKind::UpdateMember)
        } else if str_eq(trigger, "members:delete") {
            Ok(EventKind::DeleteMember)
        } else if str_eq(trigger, "members:pledge:create") {
            Ok(EventKind::CreateMemberPledge)
        } else if str_eq(trigger, "members:pledge:update") {
            Ok(EventKind::UpdateMemberPledge)
        } else if str_eq(trigger, "members:pledge:delete") {
            Ok(EventKind::DeleteMemberPledge)
        } else {
            Err(UnknownTriggerError { trigger: trigger.to_owned() })
        }
    }
}

} // verus!
