use vstd::prelude::*;
use vstd::arithmetic::div_mod::*;

verus! {

/// The character that writes the digit `d`.
pub open spec fn spec_digit_char(d: int) -> char {
    if d == 0 {
        '0'
    } else if d == 1 {
        '1'
    } else if d == 2 {
        '2'
    } else if d == 3 {
        '3'
    } else if d == 4 {
        '4'
    } else if d == 5 {
        '5'
    } else if d == 6 {
        '6'
    } else if d == 7 {
        '7'
    } else if d == 8 {
        '8'
    } else {
        '9'
    }
}

/// Whether `c` is one of the ten decimal digits.
pub open spec fn spec_is_digit(c: char) -> bool {
    '0' <= c <= '9'
}

/// The value of the decimal digit `c`.
pub open spec fn spec_digit_value(c: char) -> int {
    c as int - '0' as int
}

/// `n` written in decimal, without sign and without leading zeros.
pub open spec fn spec_decimal(n: nat) -> Seq<char>
    decreases n,
{
    if n < 10 {
        seq![spec_digit_char(n as int)]
    } else {
        spec_decimal(n / 10).push(spec_digit_char((n % 10) as int))
    }
}

/// The number that a run of decimal digits writes; leading zeros count for
/// nothing and the empty run writes zero.
pub open spec fn spec_digits_value(s: Seq<char>) -> nat
    decreases s.len(),
{
    if s.len() == 0 {
        0
    } else {
        (spec_digits_value(s.drop_last()) * 10 + spec_digit_value(s.last())) as nat
    }
}

/// Whether every character of `s` is a decimal digit.
pub open spec fn spec_all_digits(s: Seq<char>) -> bool {
    forall|i: int| 0 <= i < s.len() ==> spec_is_digit(#[trigger] s[i])
}

/// What parsing `s` as an unsigned number below `limit` gives: an optional
/// `+`, then at least one digit, nothing else, and a value that fits.
pub open spec fn spec_parse_bounded(s: Seq<char>, limit: nat) -> Option<nat> {
    if s.len() > 0 && s[0] == '+' {
        spec_parse_digits(s.skip(1), limit)
    } else {
        spec_parse_digits(s, limit)
    }
}

/// What parsing `s` as a `u32` gives.
pub open spec fn spec_parse_u32(s: Seq<char>) -> Option<u32> {
    match spec_parse_bounded(s, u32::MAX as nat) {
        Some(n) => Some(n as u32),
        None => None,
    }
}

/// What parsing `s` as a `u64` gives.
pub open spec fn spec_parse_u64(s: Seq<char>) -> Option<u64> {
    match spec_parse_bounded(s, u64::MAX as nat) {
        Some(n) => Some(n as u64),
        None => None,
    }
}

/// The character that writes the digit `d`.
pub fn digit_char(d: u8) -> (c: char)
    requires
        d < 10,
    ensures
        c == spec_digit_char(d as int),
        spec_is_digit(c),
        spec_digit_value(c) == d,
{
    match d {
        0 => '0',
        1 => '1',
        2 => '2',
        3 => '3',
        4 => '4',
        5 => '5',
        6 => '6',
        7 => '7',
        8 => '8',
        _ => '9',
    }
}

/// `n` written in decimal.
pub fn decimal(n: u64) -> (res: Vec<char>)
    ensures
        res@ == spec_decimal(n as nat),
    decreases n,
{
    if n < 10 {
        let mut v: Vec<char> = Vec::new();
        v.push(digit_char(n as u8));
        v
    } else {
        let mut v = decimal(n / 10);
        v.push(digit_char((n % 10) as u8));
        v
    }
}

/// Appends `n`, written in decimal, to `out`.
pub fn push_decimal(out: &mut String, n: u64)
    ensures
        final(out)@ == old(out)@ + spec_decimal(n as nat),
{
    let d = decimal(n);
    crate::text::push_chars(out, &d);
}

/// A whole number in decimal, with a minus sign before a negative one.
pub open spec fn spec_signed_decimal(n: int) -> Seq<char> {
    if n < 0 {
        seq!['-'] + spec_decimal((-n) as nat)
    } else {
        spec_decimal(n as nat)
    }
}

/// Appends a whole number in decimal.
pub fn push_signed(out: &mut String, n: i32)
    ensures
        final(out)@ == old(out)@ + spec_signed_decimal(n as int),
{
    if n < 0 {
        out.push('-');
        let m: u64 = (0 - (n as i64)) as u64;
        push_decimal(out, m);
        assert(out@ =~= old(out)@ + spec_signed_decimal(n as int));
    } else {
        push_decimal(out, n as u64);
    }
}

/// The value of a digit run never shrinks when the run grows to the right.
pub proof fn lemma_digits_value_grows(s: Seq<char>, k: int)
    requires
        0 <= k <= s.len(),
        spec_all_digits(s),
    ensures
        spec_digits_value(s.take(k)) <= spec_digits_value(s),
    decreases s.len() - k,
{
    if k < s.len() {
        let t = s.take(k + 1);
        assert(t.drop_last() == s.take(k));
        assert(t.last() == s[k]);
        assert(spec_is_digit(s[k]));
        assert(spec_digits_value(t) == spec_digits_value(s.take(k)) * 10 + spec_digit_value(s[k]));
        lemma_digits_value_grows(s, k + 1);
    } else {
        assert(s.take(k) == s);
    }
}

/// What a run of digits gives when its value must not exceed `limit`.
pub open spec fn spec_parse_digits(body: Seq<char>, limit: nat) -> Option<nat> {
    if body.len() == 0 || !spec_all_digits(body) || spec_digits_value(body) > limit {
        None
    } else {
        Some(spec_digits_value(body))
    }
}

/// Parses a run of decimal digits whose value must not exceed `limit`.
pub fn parse_digits(body: &Vec<char>, limit: u64) -> (res: Option<u64>)
    ensures
        res is Some <==> spec_parse_digits(body@, limit as nat) is Some,
        res matches Some(n) ==> spec_parse_digits(body@, limit as nat) == Some(n as nat),
{
    if body.len() == 0 {
        return None;
    }
    let mut acc: u64 = 0;
    let mut i: usize = 0;
    while i < body.len()
        invariant
            i <= body.len(),
            spec_all_digits(body@.take(i as int)),
            acc == spec_digits_value(body@.take(i as int)),
            acc <= limit,
        decreases body.len() - i,
    {
        let c = body[i];
        let ghost t = body@.take(i + 1);
        assert(t.drop_last() == body@.take(i as int));
        assert(t.last() == c);
        if !('0' <= c && c <= '9') {
            assert(!spec_is_digit(body@[i as int]));
            return None;
        }
        let d: u64 = (c as u32 - '0' as u32) as u64;
        assert(spec_all_digits(t)) by {
            assert forall|j: int| 0 <= j < t.len() implies spec_is_digit(#[trigger] t[j]) by {
                if j < t.len() - 1 {
                    assert(t[j] == body@.take(i as int)[j]);
                }
            }
        }
        assert(acc * 10 + d == spec_digits_value(t));
        if d > limit || acc > (limit - d) / 10 {
            proof {
                assert(acc * 10 + d > limit);
                if spec_all_digits(body@) {
                    lemma_digits_value_grows(body@, i + 1);
                }
            }
            return None;
        }
        acc = acc * 10 + d;
        i += 1;
    }
    assert(body@.take(body.len() as int) == body@);
    Some(acc)
}

/// Parses an unsigned decimal number that must not exceed `limit`.
pub fn parse_bounded(s: &Vec<char>, limit: u64) -> (res: Option<u64>)
    ensures
        res is Some <==> spec_parse_bounded(s@, limit as nat) is Some,
        res matches Some(n) ==> spec_parse_bounded(s@, limit as nat) == Some(n as nat),
{
    if s.len() > 0 && s[0] == '+' {
        let mut body: Vec<char> = Vec::new();
        let mut i: usize = 1;
        while i < s.len()
            invariant
                1 <= i <= s.len(),
                body@ == s@.subrange(1, i as int),
            decreases s.len() - i,
        {
            body.push(s[i]);
            i += 1;
        }
        assert(s@.subrange(1, s.len() as int) == s@.skip(1));
        parse_digits(&body, limit)
    } else {
        parse_digits(s, limit)
    }
}

/// Parses `s` as a `u32`, as `str::parse::<u32>` does.
pub fn parse_u32(s: &Vec<char>) -> (res: Option<u32>)
    ensures
        res == spec_parse_u32(s@),
{
    match parse_bounded(s, 0xffff_ffff) {
        Some(n) => Some(n as u32),
        None => None,
    }
}

/// Parses `s` as a `u64`, as `str::parse::<u64>` does.
pub fn parse_u64(s: &Vec<char>) -> (res: Option<u64>)
    ensures
        res == spec_parse_u64(s@),
{
    parse_bounded(s, 0xffff_ffff_ffff_ffff)
}

} // verus!
