//! Small verified string helpers shared by the routing and workflow code.

use vstd::prelude::*;

verus! {

/// Character-by-character equality test for string slices.
pub fn str_eq(a: &str, b: &str) -> (r: bool)
    ensures
        r == (a@ == b@),
{
    let a_len = a.unicode_len();
    let b_len = b.unicode_len();
    if a_len != b_len {
        assert(a@ != b@);
        return false;
    }
    let mut i: usize = 0;
    while i < a_len
        invariant
            i <= a_len,
            a_len == a@.len(),
            a_len == b@.len(),
            forall|j: int| 0 <= j < i ==> a@[j] == b@[j],
        decreases a_len - i,
    {
        if a.get_char(i) != b.get_char(i) {
            return false;
        }
        i += 1;
    }
    proof {
        assert(a@ =~= b@);
    }
    true
}

/// Does `s` start with `prefix`, character for character?
pub open spec fn spec_starts_with(s: Seq<char>, prefix: Seq<char>) -> bool {
    prefix.len() <= s.len() && s.subrange(0, prefix.len() as int) == prefix
}

/// The numeric value of a decimal digit character; 10 marks a non-digit.
pub open spec fn spec_digit_val(c: char) -> int {
    if c == '0' {
        0
    } else if c == '1' {
        1
    } else if c == '2' {
        2
    } else if c == '3' {
        3
    } else if c == '4' {
        4
    } else if c == '5' {
        5
    } else if c == '6' {
        6
    } else if c == '7' {
        7
    } else if c == '8' {
        8
    } else if c == '9' {
        9
    } else {
        10
    }
}

pub open spec fn spec_is_digit(c: char) -> bool {
    spec_digit_val(c) < 10
}

pub open spec fn spec_is_digit_seq(s: Seq<char>) -> bool {
    forall|i: int| 0 <= i < s.len() ==> spec_is_digit(#[trigger] s[i])
}

/// The number a digit sequence denotes, most significant digit first.
pub open spec fn spec_dec_val(s: Seq<char>) -> nat
    decreases s.len(),
{
    if s.len() == 0 {
        0
    } else {
        (spec_dec_val(s.drop_last()) * 10 + spec_digit_val(s.last())) as nat
    }
}

/// The canonical decimal rendering of a number.
pub open spec fn spec_dec_of(n: nat) -> Seq<char>
    decreases n,
{
    if n < 10 {
        seq![spec_digit_char(n as int)]
    } else {
        spec_dec_of(n / 10).push(spec_digit_char((n % 10) as int))
    }
}

pub open spec fn spec_digit_char(d: int) -> char {
    if d == 0 {
        '0'
    } else if d == 1 {
        '1'
    } else if d == 2 {
        '2'
    } else if d == 3 {
        '3'
    } else if d == 4 {
        '4'
    } else if d == 5 {
        '5'
    } else if d == 6 {
        '6'
    } else if d == 7 {
        '7'
    } else if d == 8 {
        '8'
    } else {
        '9'
    }
}

/// What `str::parse::<u64>` accepts: an optional leading plus sign,
/// then at least one digit, digits only, value within range.  (Leading
/// zeroes are accepted, as the standard parser accepts them.)
pub open spec fn spec_parse_u64(s: Seq<char>) -> Option<u64> {
    let digits = if s.len() > 0 && s[0] == '+' {
        s.skip(1)
    } else {
        s
    };
    if digits.len() > 0 && spec_is_digit_seq(digits) && spec_dec_val(digits) <= u64::MAX {
        Some(spec_dec_val(digits) as u64)
    } else {
        None
    }
}

proof fn lemma_digit_char_val(d: int)
    requires
        0 <= d <= 9,
    ensures
        spec_digit_val(spec_digit_char(d)) == d,
{
}

/// A longer digit prefix never denotes a smaller number.
proof fn lemma_dec_val_prefix_le(s: Seq<char>, i: int, j: int)
    requires
        0 <= i <= j <= s.len(),
    ensures
        spec_dec_val(s.take(i)) <= spec_dec_val(s.take(j)),
    decreases j - i,
{
    if i < j {
        lemma_dec_val_prefix_le(s, i, j - 1);
        assert(s.take(j).drop_last() =~= s.take(j - 1));
        assert(spec_dec_val(s.take(j)) == spec_dec_val(s.take(j - 1)) * 10 + spec_digit_val(
            s.take(j).last(),
        ));
    }
}

/// The canonical rendering is made of digits and denotes its number.
pub proof fn lemma_dec_of_val(n: nat)
    ensures
        spec_is_digit_seq(spec_dec_of(n)),
        spec_dec_val(spec_dec_of(n)) == n,
        spec_dec_of(n).len() >= 1,
    decreases n,
{
    if n < 10 {
        lemma_digit_char_val(n as int);
        assert(spec_dec_of(n).drop_last() =~= Seq::<char>::empty());
        assert(spec_dec_val(spec_dec_of(n)) == spec_dec_val(Seq::<char>::empty()) * 10
            + spec_digit_val(spec_digit_char(n as int)));
    } else {
        lemma_dec_of_val(n / 10);
        lemma_digit_char_val((n % 10) as int);
        assert(spec_dec_of(n).drop_last() =~= spec_dec_of(n / 10));
        assert(spec_dec_val(spec_dec_of(n)) == (n / 10) * 10 + n % 10);
        vstd::arithmetic::div_mod::lemma_fundamental_div_mod(n as int, 10);
    }
}

/// Parsing inverts rendering.
pub proof fn lemma_parse_dec_of(n: u64)
    ensures
        spec_parse_u64(spec_dec_of(n as nat)) == Some(n),
{
    lemma_dec_of_val(n as nat);
    assert(spec_is_digit(spec_dec_of(n as nat)[0]));
}

/// Append one decimal digit to a string under construction.
pub fn push_digit(s: &mut String, d: u64)
    requires
        d < 10,
    ensures
        final(s)@ == old(s)@ + seq![spec_digit_char(d as int)],
{
    if d == 0 {
        s.append("0");
        proof {
            reveal_strlit("0");
            assert("0"@ =~= seq![spec_digit_char(0)]);
        }
    } else if d == 1 {
        s.append("1");
        proof {
            reveal_strlit("1");
            assert("1"@ =~= seq![spec_digit_char(1)]);
        }
    } else if d == 2 {
        s.append("2");
        proof {
            reveal_strlit("2");
            assert("2"@ =~= seq![spec_digit_char(2)]);
        }
    } else if d == 3 {
        s.append("3");
        proof {
            reveal_strlit("3");
            assert("3"@ =~= seq![spec_digit_char(3)]);
        }
    } else if d == 4 {
        s.append("4");
        proof {
            reveal_strlit("4");
            assert("4"@ =~= seq![spec_digit_char(4)]);
        }
    } else if d == 5 {
        s.append("5");
        proof {
            reveal_strlit("5");
            assert("5"@ =~= seq![spec_digit_char(5)]);
        }
    } else if d == 6 {
        s.append("6");
        proof {
            reveal_strlit("6");
            assert("6"@ =~= seq![spec_digit_char(6)]);
        }
    } else if d == 7 {
        s.append("7");
        proof {
            reveal_strlit("7");
            assert("7"@ =~= seq![spec_digit_char(7)]);
        }
    } else if d == 8 {
        s.append("8");
        proof {
            reveal_strlit("8");
            assert("8"@ =~= seq![spec_digit_char(8)]);
        }
    } else {
        s.append("9");
        proof {
            reveal_strlit("9");
            assert("9"@ =~= seq![spec_digit_char(9)]);
        }
    }
}

/// Append the canonical decimal rendering of `n`.
pub fn push_dec(s: &mut String, n: u64)
    ensures
        final(s)@ == old(s)@ + spec_dec_of(n as nat),
    decreases n,
{
    if n < 10 {
        push_digit(s, n);
    } else {
        push_dec(s, n / 10);
        push_digit(s, n % 10);
        proof {
            assert(old(s)@ + spec_dec_of(n as nat) =~= old(s)@ + spec_dec_of((n / 10) as nat)
                + seq![spec_digit_char((n % 10) as int)]);
        }
    }
}

/// The canonical decimal rendering of `n` as a fresh string.
pub fn u64_to_dec(n: u64) -> (r: String)
    ensures
        r@ == spec_dec_of(n as nat),
{
    let mut s = String::new();
    push_dec(&mut s, n);
    proof {
        assert(s@ =~= spec_dec_of(n as nat));
    }
    s
}

/// The digit value of a character; 10 for a non-digit.
fn digit_val(c: char) -> (r: u64)
    ensures
        r as int == spec_digit_val(c),
{
    if c == '0' {
        0
    } else if c == '1' {
        1
    } else if c == '2' {
        2
    } else if c == '3' {
        3
    } else if c == '4' {
        4
    } else if c == '5' {
        5
    } else if c == '6' {
        6
    } else if c == '7' {
        7
    } else if c == '8' {
        8
    } else if c == '9' {
        9
    } else {
        10
    }
}

/// Parse a plain decimal number, as `str::parse::<u64>` would.
pub fn parse_u64(s: &str) -> (r: Option<u64>)
    ensures
        r == spec_parse_u64(s@),
{
    let len = s.unicode_len();
    if len == 0 {
        return None;
    }
    let start: usize = if s.get_char(0) == '+' {
        1
    } else {
        0
    };
    let ghost digits = if s@[0] == '+' {
        s@.skip(1)
    } else {
        s@
    };
    proof {
        assert(digits.len() == len - start);
        assert forall|j: int| start <= j < len implies s@[j] == digits[j - start] by {}
    }
    if start == len {
        return None;
    }
    let mut acc: u64 = 0;
    let mut i: usize = start;
    while i < len
        invariant
            start <= i <= len,
            start < len == s@.len(),
            start <= 1,
            digits == (if s@[0] == '+' {
                s@.skip(1)
            } else {
                s@
            }),
            digits.len() == len - start,
            forall|j: int| start <= j < len ==> s@[j] == digits[j - start],
            spec_is_digit_seq(digits.take(i - start)),
            acc == spec_dec_val(digits.take(i - start)),
        decreases len - i,
    {
        let c = s.get_char(i);
        let d = digit_val(c);
        if d >= 10 {
            assert(!spec_is_digit(digits[i - start]));
            return None;
        }
        proof {
            assert(digits.take(i + 1 - start).drop_last() =~= digits.take(i - start));
            assert(digits.take(i + 1 - start).last() == digits[i - start]);
        }
        if acc > (u64::MAX - d) / 10 {
            proof {
                assert(spec_dec_val(digits.take(i + 1 - start)) > u64::MAX) by (nonlinear_arith)
                    requires
                        acc > (u64::MAX - d) / 10,
                        d < 10,
                        spec_dec_val(digits.take(i + 1 - start)) == acc * 10 + d,
                ;
                lemma_dec_val_prefix_le(digits, i + 1 - start, digits.len() as int);
                assert(digits.take(digits.len() as int) =~= digits);
            }
            return None;
        }
        proof {
            assert(acc * 10 + d <= u64::MAX) by (nonlinear_arith)
                requires
                    acc <= (u64::MAX - d) / 10,
                    d < 10,
            ;
        }
        acc = acc * 10 + d;
        i += 1;
    }
    proof {
        assert(digits.take(digits.len() as int) =~= digits);
    }
    Some(acc)
}

pub fn starts_with(s: &str, prefix: &str) -> (r: bool)
    ensures
        r == spec_starts_with(s@, prefix@),
{
    let p_len = prefix.unicode_len();
    let s_len = s.unicode_len();
    if p_len > s_len {
        assert(!spec_starts_with(s@, prefix@));
        return false;
    }
    let mut i: usize = 0;
    while i < p_len
        invariant
            i <= p_len,
            p_len == prefix@.len(),
            s_len == s@.len(),
            p_len <= s_len,
            forall|j: int| 0 <= j < i ==> s@[j] == prefix@[j],
        decreases p_len - i,
    {
        if s.get_char(i) != prefix.get_char(i) {
            assert(s@.subrange(0, p_len as int)[i as int] != prefix@[i as int]);
            return false;
        }
        i += 1;
    }
    proof {
        assert(s@.subrange(0, p_len as int) =~= prefix@);
    }
    true
}

} // verus!
