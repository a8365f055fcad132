//! Unsigned decimal numbers as text.

use vstd::prelude::*;
use crate::error::Error;
use crate::words::is_whitespace;
use crate::words::is_word;

verus! {

/// Whether `c` is one of the ten ASCII digits.
pub open spec fn is_digit(c: char) -> bool {
    '0' <= c && c <= '9'
}

/// The number that the digit `c` stands for.
pub open spec fn digit_value(c: char) -> nat
    recommends
        is_digit(c),
{
    (c as u32 - 48) as nat
}

/// The digit that stands for `d`.
pub open spec fn digit_char(d: nat) -> char
    recommends
        d < 10,
{
    (d + 48) as char
}

/// The decimal notation of `n`: most significant digit first, no sign, no
/// leading zero but for zero itself.
pub open spec fn decimal(n: nat) -> Seq<char>
    decreases n,
{
    if n < 10 {
        seq![digit_char(n)]
    } else {
        decimal(n / 10).push(digit_char(n % 10))
    }
}

/// Whether `s` is a non-empty run of digits.
pub open spec fn is_decimal(s: Seq<char>) -> bool {
    s.len() > 0 && forall|i: int| 0 <= i < s.len() ==> is_digit(#[trigger] s[i])
}

/// The number that the digits of `s` denote, leading zeros allowed.
pub open spec fn decimal_value(s: Seq<char>) -> nat
    decreases s.len(),
{
    if s.len() == 0 {
        0
    } else {
        decimal_value(s.drop_last()) * 10 + digit_value(s.last())
    }
}

/// The digits of a number token: the token without its optional leading `+`.
pub open spec fn unsigned_digits(token: Seq<char>) -> Seq<char> {
    if token.len() > 0 && token[0] == '+' {
        token.skip(1)
    } else {
        token
    }
}

/// What reading `token` as an unsigned number of at most `max` gives.
///
/// A token is a number when it is a run of digits, optionally behind one `+`.
/// Anything else is malformed; a number above `max` is out of range.
pub open spec fn parse_unsigned_spec(token: Seq<char>, max: nat) -> Result<nat, Error> {
    let digits = unsigned_digits(token);
    if !is_decimal(digits) {
        Err(Error::UnmarshalMalformed)
    } else if decimal_value(digits) > max {
        Err(Error::UnmarshalOutOfRange)
    } else {
        Ok(decimal_value(digits))
    }
}

/// The notation of a number is a non-empty run of digits.
pub proof fn lemma_decimal_is_decimal(n: nat)
    ensures
        is_decimal(decimal(n)),
    decreases n,
{
    if n >= 10 {
        lemma_decimal_is_decimal(n / 10);
        let init = decimal(n / 10);
        let s = decimal(n);
        assert forall|i: int| 0 <= i < s.len() implies is_digit(#[trigger] s[i]) by {
            if i < init.len() {
                assert(s[i] == init[i]);
            }
        }
    }
}

/// Reading the notation of a number gives the number back.
pub proof fn lemma_decimal_value_of_decimal(n: nat)
    ensures
        decimal_value(decimal(n)) == n,
    decreases n,
{
    if n < 10 {
        let s = decimal(n);
        assert(s.drop_last() =~= Seq::<char>::empty());
        assert(decimal_value(s.drop_last()) == 0);
    } else {
        lemma_decimal_value_of_decimal(n / 10);
        let s = decimal(n);
        assert(s.drop_last() =~= decimal(n / 10));
    }
}

/// The notation of a number, read as a number token, is that number, as long
/// as the number is within the bound.
pub proof fn lemma_parse_decimal(n: nat, max: nat)
    requires
        n <= max,
    ensures
        parse_unsigned_spec(decimal(n), max) == Ok::<nat, Error>(n),
{
    lemma_decimal_is_decimal(n);
    lemma_decimal_value_of_decimal(n);
    let s = decimal(n);
    assert(is_digit(s[0]));
    assert(unsigned_digits(s) == s);
}

/// The notation of a number is one word.
pub proof fn lemma_decimal_is_word(n: nat)
    ensures
        is_word(decimal(n)),
{
    lemma_decimal_is_decimal(n);
    let s = decimal(n);
    assert forall|i: int| 0 <= i < s.len() implies !is_whitespace(#[trigger] s[i]) by {
        assert(is_digit(s[i]));
    }
}

/// Appending a digit never lowers the value.
proof fn lemma_decimal_value_push(s: Seq<char>, c: char)
    requires
        is_digit(c),
    ensures
        decimal_value(s.push(c)) == decimal_value(s) * 10 + digit_value(c),
        decimal_value(s.push(c)) >= decimal_value(s),
{
    assert(s.push(c).drop_last() =~= s);
}

pub(crate) fn digit_str(d: u64) -> (s: &'static str)
    requires
        d < 10,
    ensures
        s@ == seq![digit_char(d as nat)],
{
    proof {
        reveal_strlit("0");
        reveal_strlit("1");
        reveal_strlit("2");
        reveal_strlit("3");
        reveal_strlit("4");
        reveal_strlit("5");
        reveal_strlit("6");
        reveal_strlit("7");
        reveal_strlit("8");
        reveal_strlit("9");
    }
    let s = if d == 0 {
        "0"
    } else if d == 1 {
        "1"
    } else if d == 2 {
        "2"
    } else if d == 3 {
        "3"
    } else if d == 4 {
        "4"
    } else if d == 5 {
        "5"
    } else if d == 6 {
        "6"
    } else if d == 7 {
        "7"
    } else if d == 8 {
        "8"
    } else {
        "9"
    };
    assert(s@ =~= seq![digit_char(d as nat)]);
    s
}

/// Writes `n` in decimal notation.
pub fn decimal_string(n: u64) -> (s: String)
    ensures
        s@ == decimal(n as nat),
    decreases n,
{
    if n < 10 {
        String::from_str(digit_str(n))
    } else {
        let mut s = decimal_string(n / 10);
        s.append(digit_str(n % 10));
        assert(s@ =~= decimal((n / 10) as nat).push(digit_char((n % 10) as nat)));
        s
    }
}

fn digit_of(c: char) -> (d: Option<u64>)
    ensures
        d is Some <==> is_digit(c),
        d matches Some(v) ==> v == digit_value(c),
{
    if '0' <= c && c <= '9' {
        let u: u32 = c as u32;
        let v: u64 = (u - 48) as u64;
        Some(v)
    } else {
        None
    }
}

/// The largest bound that `parse_unsigned` reads numbers up to: ten times the
/// bound and nine more still fit in 64 bits.
pub const PARSE_MAX: u64 = 1844674407370955160;

/// Reads the characters `chars[start..end]` as an unsigned number of at most
/// `max`.
pub fn parse_unsigned(chars: &Vec<char>, start: usize, end: usize, max: u64) -> (r: Result<
    u64,
    Error,
>)
    requires
        start <= end <= chars.len(),
        max <= PARSE_MAX,
    ensures
        match r {
            Ok(v) => parse_unsigned_spec(chars@.subrange(start as int, end as int), max as nat)
                == Ok::<nat, Error>(v as nat),
            Err(e) => parse_unsigned_spec(chars@.subrange(start as int, end as int), max as nat)
                == Err::<nat, Error>(e),
        },
{
    let ghost token = chars@.subrange(start as int, end as int);
    let first: usize = if start < end && chars[start] == '+' {
        start + 1
    } else {
        start
    };
    let ghost digits = chars@.subrange(first as int, end as int);
    assert(digits =~= unsigned_digits(token));
    if first == end {
        return Err(Error::UnmarshalMalformed);
    }
    let mut value: u64 = 0;
    let mut too_large = false;
    let mut i: usize = first;
    while i < end
        invariant
            start <= first <= i <= end <= chars.len(),
            max <= PARSE_MAX,
            digits == chars@.subrange(first as int, end as int),
            digits == unsigned_digits(chars@.subrange(start as int, end as int)),
            forall|k: int| 0 <= k < i - first ==> is_digit(#[trigger] digits[k]),
            !too_large ==> value == decimal_value(digits.take(i - first)) && value <= max,
            too_large ==> decimal_value(digits.take(i - first)) > max,
        decreases end - i,
    {
        let c = chars[i];
        assert(c == digits[i - first]);
        match digit_of(c) {
            None => {
                assert(!is_digit(digits[i - first]));
                return Err(Error::UnmarshalMalformed);
            },
            Some(d) => {
                proof {
                    assert(digits.take(i - first + 1) =~= digits.take(i - first).push(c));
                    lemma_decimal_value_push(digits.take(i - first), c);
                }
                if !too_large {
                    let next: u64 = value * 10 + d;
                    if next > max {
                        too_large = true;
                    } else {
                        value = next;
                    }
                }
            },
        }
        i += 1;
    }
    assert(digits.take(end - first) =~= digits);
    if too_large {
        Err(Error::UnmarshalOutOfRange)
    } else {
        Ok(value)
    }
}

} // verus!
