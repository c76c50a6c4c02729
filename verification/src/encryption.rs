//! The key-encoding helper: wraps a value in a marker prefix over its
//! base64 text, and strips every occurrence of the marker again.

use vstd::prelude::*;

use crate::strutil::starts_with;

verus! {

/// What `rbase64::encode` returns for the given bytes.  The encoding is
/// a pure function of the input alone.
pub uninterp spec fn b64_of(data: Seq<u8>) -> Seq<char>;

/// The characters base64 text draws on: the 64 characters of the
/// standard alphabet, and the padding sign.
pub open spec fn spec_is_base64_char(c: char) -> bool {
    ||| 'A' <= c <= 'Z'
    ||| 'a' <= c <= 'z'
    ||| '0' <= c <= '9'
    ||| c == '+'
    ||| c == '/'
    ||| c == '='
}

/// Relies on rbase64::encode: standard base64 with padding — four text
/// characters for every three input bytes begun, empty text for empty
/// input, and every character drawn from the standard alphabet
/// (`A`-`Z`, `a`-`z`, `0`-`9`, `+`, `/`) or the padding sign `=`.
#[verifier::external_body]
fn base64_encode(data: &[u8]) -> (r: String)
    ensures
        r@ == b64_of(data@),
        r@.len() == 4 * ((data@.len() + 2) / 3),
        forall|i: int| 0 <= i < r@.len() ==> spec_is_base64_char(#[trigger] r@[i]),
{
    rbase64::encode(data)
}

/// Every occurrence of `pat` removed from `s`, scanning left to right
/// without overlap — the effect of replacing `pat` with nothing.
pub open spec fn spec_remove_all(s: Seq<char>, pat: Seq<char>) -> Seq<char>
    decreases s.len(),
{
    if pat.len() == 0 || s.len() < pat.len() {
        s
    } else if s.take(pat.len() as int) == pat {
        spec_remove_all(s.skip(pat.len() as int), pat)
    } else {
        seq![s[0]] + spec_remove_all(s.skip(1), pat)
    }
}

/// Remove every occurrence of `pat` from `s`.
pub fn remove_all(s: &str, pat: &str) -> (r: String)
    requires
        pat@.len() > 0,
    ensures
        r@ == spec_remove_all(s@, pat@),
{
    let len = s.unicode_len();
    let pat_len = pat.unicode_len();
    let mut out = String::new();
    let mut seg_start: usize = 0;
    let mut i: usize = 0;
    proof {
        assert(s@.skip(0) =~= s@);
        assert(out@ + s@.subrange(0, 0) =~= Seq::<char>::empty());
    }
    while pat_len <= len - i
        invariant
            pat_len == pat@.len(),
            0 < pat_len,
            len == s@.len(),
            seg_start <= i <= len,
            spec_remove_all(s@, pat@) == out@ + s@.subrange(seg_start as int, i as int)
                + spec_remove_all(s@.skip(i as int), pat@),
        decreases len - i,
    {
        let tail = s.substring_char(i, len);
        proof {
            assert(tail@ =~= s@.skip(i as int));
            assert(tail@.subrange(0, pat_len as int) =~= s@.skip(i as int).take(pat_len as int));
        }
        if starts_with(tail, pat) {
            let segment = s.substring_char(seg_start, i);
            out.append(segment);
            proof {
                assert(s@.skip(i as int).skip(pat_len as int) =~= s@.skip(i + pat_len));
            }
            i += pat_len;
            seg_start = i;
            proof {
                assert(out@ + s@.subrange(seg_start as int, i as int) =~= out@);
            }
        } else {
            proof {
                assert(s@.skip(i as int)[0] == s@[i as int]);
                assert(s@.skip(i as int).skip(1) =~= s@.skip(i + 1));
                assert(s@.subrange(seg_start as int, i + 1) =~= s@.subrange(
                    seg_start as int,
                    i as int,
                ) + seq![s@[i as int]]);
            }
            i += 1;
        }
    }
    let segment = s.substring_char(seg_start, len);
    out.append(segment);
    proof {
        assert(spec_remove_all(s@.skip(len as int), pat@) =~= Seq::<char>::empty());
        if i < len {
            assert(spec_remove_all(s@.skip(i as int), pat@) =~= s@.skip(i as int));
        }
        assert(out@ =~= spec_remove_all(s@, pat@));
    }
    out
}

/// A sequence in which no occurrence of `pat` can start leaves
/// `spec_remove_all` unchanged; it is enough that no character of `s`
/// equals the last character of `pat`.
proof fn lemma_remove_all_absent(s: Seq<char>, pat: Seq<char>)
    requires
        pat.len() > 0,
        forall|i: int| 0 <= i < s.len() ==> s[i] != pat.last(),
    ensures
        spec_remove_all(s, pat) == s,
    decreases s.len(),
{
    if s.len() >= pat.len() {
        if s.take(pat.len() as int) == pat {
            assert(s[pat.len() - 1] == pat.last());
        }
        lemma_remove_all_absent(s.skip(1), pat);
        assert(seq![s[0]] + s.skip(1) =~= s);
    }
}

/// Stripping the marker from a marker-prefixed base64 payload returns
/// the payload unchanged: with every payload character drawn from the
/// base64 alphabet, the marker — which ends in an underscore — cannot
/// occur inside it, so decrypting an encrypted value recovers exactly
/// the base64 text of the original input.
pub proof fn lemma_decrypt_inverts_encrypt(payload: Seq<char>)
    requires
        forall|i: int| 0 <= i < payload.len() ==> spec_is_base64_char(#[trigger] payload[i]),
    ensures
        spec_remove_all("encrypted_"@ + payload, "encrypted_"@) == payload,
{
    let pat = "encrypted_"@;
    reveal_strlit("encrypted_");
    assert(pat.last() == '_');
    assert forall|i: int| 0 <= i < payload.len() implies payload[i] != pat.last() by {
        assert(spec_is_base64_char(payload[i]));
    }
    let whole = pat + payload;
    assert(whole.take(pat.len() as int) =~= pat);
    assert(whole.skip(pat.len() as int) =~= payload);
    lemma_remove_all_absent(payload, pat);
}

pub struct EncrytionHelper;

impl EncrytionHelper {
    /// The marker prefix followed by the base64 text of the input.
    /// Stripping the marker again recovers exactly that base64 text, so
    /// `decrypt` inverts `encrypt` up to the encoding.
    pub fn encrypt(data: &str) -> (r: String)
        ensures
            r@ == "encrypted_"@ + b64_of(vstd::utf8::encode_utf8(data@)),
            spec_remove_all(r@, "encrypted_"@) == b64_of(vstd::utf8::encode_utf8(data@)),
    {
        let encoded = base64_encode(data.as_bytes());
        let mut out = "encrypted_".to_owned();
        out.append(encoded.as_str());
        proof {
            lemma_decrypt_inverts_encrypt(encoded@);
        }
        out
    }

    /// Strip every occurrence of the marker prefix.
    pub fn decrypt(data: &str) -> (r: String)
        ensures
            r@ == spec_remove_all(data@, "encrypted_"@),
    {
        proof {
            reveal_strlit("encrypted_");
        }
        remove_all(data, "encrypted_")
    }
}

} // verus!
