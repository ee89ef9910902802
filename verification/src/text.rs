//! Decimal text for `i32`: rendering and parsing, as `Display` and `FromStr`
//! of the standard library define them.

use vstd::prelude::*;

verus! {

/// `String::push`: appends one character to the end of the string.
#[verifier::external_body]
pub(crate) fn push_char(s: &mut String, c: char)
    ensures
        final(s)@ == old(s)@.push(c),
{
    s.push(c);
}

/// The character of a decimal digit `0..=9`.
pub open spec fn digit_char(d: nat) -> char {
    (d + 48) as char
}

/// Is `c` one of the ASCII digits `'0'..='9'`?
pub open spec fn is_digit(c: char) -> bool {
    '0' <= c && c <= '9'
}

/// The value of an ASCII digit.
pub open spec fn digit_value(c: char) -> int {
    c as int - 48
}

/// The decimal digits of a natural number, most significant first, without
/// leading zeros (`0` is the single digit `'0'`).
pub open spec fn nat_decimal(n: nat) -> Seq<char>
    decreases n,
{
    if n < 10 {
        seq![digit_char(n)]
    } else {
        nat_decimal(n / 10).push(digit_char(n % 10))
    }
}

/// How `i32` displays: a `'-'` before the digits of a negative number.
pub open spec fn decimal_i32(n: i32) -> Seq<char> {
    if n < 0 {
        seq!['-'] + nat_decimal((-n) as nat)
    } else {
        nat_decimal(n as nat)
    }
}

fn push_digits(s: &mut String, n: u32)
    ensures
        final(s)@ == old(s)@ + nat_decimal(n as nat),
    decreases n,
{
    if n >= 10 {
        push_digits(s, n / 10);
    }
    let d: u32 = n % 10;
    let c: char = ((d as u8) + 48u8) as char;
    push_char(s, c);
    assert(final(s)@ =~= old(s)@ + nat_decimal(n as nat));
}

/// Appends the decimal text of `n` to `s`, as `write!(s, "{}", n)` does.
pub fn push_i32(s: &mut String, n: i32)
    ensures
        final(s)@ == old(s)@ + decimal_i32(n),
{
    if n < 0 {
        push_char(s, '-');
        let magnitude: u32 = (0i64 - (n as i64)) as u32;
        push_digits(s, magnitude);
        assert(final(s)@ =~= old(s)@ + decimal_i32(n));
    } else {
        push_digits(s, n as u32);
    }
}

/// Every character of `s` is an ASCII digit.
pub open spec fn all_digits(s: Seq<char>) -> bool {
    forall|i: int| 0 <= i < s.len() ==> is_digit(#[trigger] s[i])
}

/// The number that a sequence of ASCII digits writes in base ten.
pub open spec fn digits_value(s: Seq<char>) -> int
    decreases s.len(),
{
    if s.len() == 0 {
        0
    } else {
        digits_value(s.drop_last()) * 10 + digit_value(s.last())
    }
}

/// The text after a leading `'+'` or `'-'`, if there is one.
pub open spec fn unsigned_part(s: Seq<char>) -> Seq<char> {
    if s.len() > 0 && (s[0] == '+' || s[0] == '-') {
        s.drop_first()
    } else {
        s
    }
}

/// The value that `s` writes, negated when it starts with `'-'`.
pub open spec fn signed_value(s: Seq<char>) -> int {
    if s.len() > 0 && s[0] == '-' {
        -digits_value(unsigned_part(s))
    } else {
        digits_value(unsigned_part(s))
    }
}

/// What `s.parse::<i32>()` gives: an optional sign, then at least one ASCII
/// digit and nothing else, with a value in the range of `i32`; `None` where
/// the standard library returns an error.
pub open spec fn spec_parse_i32(s: Seq<char>) -> Option<i32> {
    let digits = unsigned_part(s);
    if digits.len() > 0 && all_digits(digits) && i32::MIN <= signed_value(s) <= i32::MAX {
        Some(signed_value(s) as i32)
    } else {
        None
    }
}

proof fn lemma_digits_value_nonneg(s: Seq<char>)
    requires
        all_digits(s),
    ensures
        digits_value(s) >= 0,
    decreases s.len(),
{
    if s.len() > 0 {
        lemma_digits_value_nonneg(s.drop_last());
    }
}

proof fn lemma_prefix_value_le(s: Seq<char>, k: int)
    requires
        all_digits(s),
        0 <= k <= s.len(),
    ensures
        digits_value(s.take(k)) <= digits_value(s),
    decreases s.len(),
{
    if k < s.len() {
        lemma_prefix_value_le(s.drop_last(), k);
        assert(s.drop_last().take(k) =~= s.take(k));
        lemma_digits_value_nonneg(s.drop_last());
    } else {
        assert(s.take(k) =~= s);
    }
}

/// Parses decimal text as `str::parse::<i32>` does; `None` where it fails.
pub fn parse_i32(s: &str) -> (res: Option<i32>)
    ensures
        res == spec_parse_i32(s@),
{
    let len: usize = s.unicode_len();
    let mut start: usize = 0;
    let mut negative: bool = false;
    if len > 0 {
        let c: char = s.get_char(0);
        if c == '+' || c == '-' {
            start = 1;
            negative = c == '-';
        }
    }
    let ghost digits = unsigned_part(s@);
    assert(digits =~= s@.subrange(start as int, len as int));
    if start == len {
        return None;
    }
    let mut magnitude: u64 = 0;
    let mut i: usize = start;
    while i < len
        invariant
            start <= i <= len,
            len == s@.len(),
            digits == s@.subrange(start as int, len as int),
            digits == unsigned_part(s@),
            negative == (s@.len() > 0 && s@[0] == '-'),
            all_digits(digits.take(i - start)),
            magnitude == digits_value(digits.take(i - start)),
            magnitude <= 2147483648u64,
        decreases len - i,
    {
        let c: char = s.get_char(i);
        assert(digits[i - start] == c);
        if !('0' <= c && c <= '9') {
            assert(!all_digits(digits));
            return None;
        }
        let d: u64 = ((c as u32) - 48u32) as u64;
        assert(digits.take(i + 1 - start).drop_last() =~= digits.take(i - start));
        magnitude = magnitude * 10 + d;
        i = i + 1;
        assert(all_digits(digits.take(i - start)));
        if magnitude > 2147483648u64 {
            proof {
                if all_digits(digits) {
                    lemma_prefix_value_le(digits, i - start);
                }
            }
            return None;
        }
    }
    assert(digits.take(len - start) =~= digits);
    if negative {
        Some((0i64 - (magnitude as i64)) as i32)
    } else if magnitude <= 2147483647u64 {
        Some(magnitude as i32)
    } else {
        None
    }
}

proof fn lemma_nat_decimal(m: nat)
    ensures
        nat_decimal(m).len() > 0,
        all_digits(nat_decimal(m)),
        digits_value(nat_decimal(m)) == m,
    decreases m,
{
    if m >= 10 {
        lemma_nat_decimal(m / 10);
        let s = nat_decimal(m);
        assert(s.drop_last() =~= nat_decimal(m / 10));
        assert(m == (m / 10) * 10 + m % 10);
    } else {
        let s = nat_decimal(m);
        assert(s.drop_last() =~= Seq::<char>::empty());
        assert(digits_value(s.drop_last()) == 0);
    }
}

/// Parsing the displayed text of a number gives the number back: for every
/// `i32` value `n`, `n.to_string().parse::<i32>()` is `Ok(n)`.
pub proof fn lemma_parse_display_roundtrip(n: i32)
    ensures
        spec_parse_i32(decimal_i32(n)) == Some(n),
{
    let s = decimal_i32(n);
    if n < 0 {
        let m = (-n) as nat;
        lemma_nat_decimal(m);
        assert(s.drop_first() =~= nat_decimal(m));
    } else {
        lemma_nat_decimal(n as nat);
        assert(is_digit(s[0]));
    }
}

} // verus!
