//! Unsigned decimal numbers written as text.
//!
//! A number is written as an optional `+` followed by at least one decimal
//! digit; leading zeros are allowed. Nothing may come before or after it.

use crate::text::chars_of;
use vstd::prelude::*;

verus! {

/// Why a text is not a number within the limit.
#[derive(Clone, Copy, Debug, PartialEq, Eq, Structural)]
pub enum NumberError {
    /// The text is empty.
    Empty,
    /// A character that is no digit stands where a digit is expected, or no
    /// digit follows the sign.
    InvalidDigit,
    /// The digits denote a number above the limit.
    TooLarge,
}

/// The decimal digits `0` to `9`.
pub open spec fn is_digit(c: char) -> bool {
    '0' <= c <= '9'
}

/// The number that the digit `c` stands for.
pub open spec fn digit_value(c: char) -> nat {
    (c as nat - '0' as nat) as nat
}

/// The number that a run of digits denotes in base ten.
pub open spec fn decimal_value(digits: Seq<char>) -> nat
    decreases digits.len(),
{
    if digits.len() == 0 {
        0
    } else {
        10 * decimal_value(digits.drop_last()) + digit_value(digits.last())
    }
}

/// The number of digits at the start of `s`.
pub open spec fn digit_run_len(s: Seq<char>) -> nat
    decreases s.len(),
{
    if s.len() == 0 || !is_digit(s[0]) {
        0
    } else {
        1 + digit_run_len(s.drop_first())
    }
}

/// `s` without the `+` that it may start with.
pub open spec fn unsigned_part(s: Seq<char>) -> Seq<char> {
    if s.len() > 0 && s[0] == '+' {
        s.drop_first()
    } else {
        s
    }
}

/// What `s` denotes as a number of at most `max`.
///
/// The digits at the start of the unsigned part are read as a number. A
/// number above `max` is `TooLarge`, whatever follows it; otherwise anything
/// that follows the digits is an `InvalidDigit`.
pub open spec fn parse_decimal(s: Seq<char>, max: nat) -> Result<nat, NumberError> {
    let body = unsigned_part(s);
    let run = body.take(digit_run_len(body) as int);
    if s.len() == 0 {
        Err(NumberError::Empty)
    } else if body.len() == 0 {
        Err(NumberError::InvalidDigit)
    } else if decimal_value(run) > max {
        Err(NumberError::TooLarge)
    } else if run.len() < body.len() {
        Err(NumberError::InvalidDigit)
    } else {
        Ok(decimal_value(body))
    }
}

/// Tells whether `s` is written as a number: an optional `+`, then at least
/// one digit and nothing but digits.
pub open spec fn is_number_text(s: Seq<char>) -> bool {
    &&& unsigned_part(s).len() > 0
    &&& forall|i: int| 0 <= i < unsigned_part(s).len() ==> is_digit(#[trigger] unsigned_part(s)[i])
}

/// The digits at the start of `s` are digits, and what follows them is not.
pub proof fn lemma_digit_run(s: Seq<char>)
    ensures
        digit_run_len(s) <= s.len(),
        forall|i: int| 0 <= i < digit_run_len(s) ==> is_digit(#[trigger] s[i]),
        digit_run_len(s) < s.len() ==> !is_digit(s[digit_run_len(s) as int]),
    decreases s.len(),
{
    if s.len() > 0 && is_digit(s[0]) {
        let rest = s.drop_first();
        lemma_digit_run(rest);
        assert forall|i: int| 0 <= i < digit_run_len(s) implies is_digit(#[trigger] s[i]) by {
            if i > 0 {
                assert(s[i] == rest[i - 1]);
            }
        }
        if digit_run_len(s) < s.len() {
            assert(s[digit_run_len(s) as int] == rest[digit_run_len(rest) as int]);
        }
    }
}

/// A text denotes a number of at most `max` exactly where it is written as
/// a number and its digits denote no more than `max`; it then denotes what
/// its digits denote.
pub proof fn lemma_parse_decimal_ok(s: Seq<char>, max: nat)
    ensures
        parse_decimal(s, max) is Ok <==> is_number_text(s) && decimal_value(unsigned_part(s))
            <= max,
        parse_decimal(s, max) is Ok ==> parse_decimal(s, max) == Ok::<nat, NumberError>(
            decimal_value(unsigned_part(s)),
        ),
{
    let body = unsigned_part(s);
    lemma_digit_run(body);
    if is_number_text(s) {
        lemma_digit_run_len_is(body, body.len() as int);
        assert(body.take(body.len() as int) == body);
    }
    if parse_decimal(s, max) is Ok {
        assert(body.take(body.len() as int) == body);
    }
}

/// `k` digits at the start of `s` that end at another character, or at the
/// end of `s`, are its whole run of digits.
pub proof fn lemma_digit_run_len_is(s: Seq<char>, k: int)
    requires
        0 <= k <= s.len(),
        forall|i: int| 0 <= i < k ==> is_digit(#[trigger] s[i]),
        k < s.len() ==> !is_digit(s[k]),
    ensures
        digit_run_len(s) == k,
    decreases k,
{
    if k > 0 {
        let rest = s.drop_first();
        assert forall|i: int| 0 <= i < k - 1 implies is_digit(#[trigger] rest[i]) by {
            assert(rest[i] == s[i + 1]);
        }
        lemma_digit_run_len_is(rest, k - 1);
    }
}

/// `k` digits at the start of `s` belong to its run of digits.
pub proof fn lemma_digit_run_len_at_least(s: Seq<char>, k: int)
    requires
        0 <= k <= s.len(),
        forall|i: int| 0 <= i < k ==> is_digit(#[trigger] s[i]),
    ensures
        k <= digit_run_len(s) <= s.len(),
    decreases s.len(),
{
    if s.len() > 0 && is_digit(s[0]) {
        let rest = s.drop_first();
        assert forall|i: int| 0 <= i < k - 1 implies is_digit(#[trigger] rest[i]) by {
            assert(rest[i] == s[i + 1]);
        }
        lemma_digit_run_len_at_least(rest, if k > 0 { k - 1 } else { 0 });
    }
}

/// More digits never denote a smaller number.
pub proof fn lemma_decimal_value_grows(digits: Seq<char>, k: int)
    requires
        0 <= k <= digits.len(),
    ensures
        decimal_value(digits.take(k)) <= decimal_value(digits),
    decreases digits.len(),
{
    if k < digits.len() {
        let shorter = digits.drop_last();
        lemma_decimal_value_grows(shorter, k);
        assert(shorter.take(k) == digits.take(k));
    } else {
        assert(digits.take(k) == digits);
    }
}

/// Tells whether `c` is a decimal digit.
pub fn is_decimal_digit(c: char) -> (yes: bool)
    ensures
        yes == is_digit(c),
{
    '0' <= c && c <= '9'
}

/// Reads `s` as a decimal number of at most `max`.
pub fn parse_unsigned(s: &str, max: u64) -> (parsed: Result<u64, NumberError>)
    ensures
        match parsed {
            Ok(value) => parse_decimal(s@, max as nat) == Ok::<nat, NumberError>(value as nat),
            Err(error) => parse_decimal(s@, max as nat) == Err::<nat, NumberError>(error),
        },
{
    let chars = chars_of(s);
    let n = chars.len();
    if n == 0 {
        return Err(NumberError::Empty);
    }
    let start: usize = if chars[0] == '+' { 1 } else { 0 };
    if start == n {
        return Err(NumberError::InvalidDigit);
    }
    let ghost body = unsigned_part(s@);
    assert(body == s@.skip(start as int));
    let mut value: u64 = 0;
    let mut i: usize = start;
    assert(body.take(0).len() == 0);
    while i < n
        invariant
            chars@ == s@,
            n == chars.len(),
            start <= i <= n,
            start < n,
            body == unsigned_part(s@),
            body == s@.skip(start as int),
            forall|k: int| 0 <= k < i - start ==> is_digit(#[trigger] body[k]),
            value == decimal_value(body.take(i - start)),
            value <= max,
        decreases n - i,
    {
        let c = chars[i];
        let ghost seen = i - start;
        assert(body[seen] == c);
        if !is_decimal_digit(c) {
            proof {
                lemma_digit_run_len_is(body, seen);
            }
            return Err(NumberError::InvalidDigit);
        }
        let digit: u128 = (c as u32 - '0' as u32) as u128;
        let next: u128 = (value as u128) * 10 + digit;
        proof {
            let longer = body.take(seen + 1);
            assert(longer.drop_last() == body.take(seen));
            assert(longer.last() == c);
            assert(next == decimal_value(longer));
            if next > max {
                lemma_digit_run_len_at_least(body, seen + 1);
                let run = body.take(digit_run_len(body) as int);
                lemma_decimal_value_grows(run, seen + 1);
                assert(run.take(seen + 1) == longer);
            }
        }
        if next > max as u128 {
            return Err(NumberError::TooLarge);
        }
        value = next as u64;
        i += 1;
    }
    proof {
        lemma_digit_run_len_is(body, body.len() as int);
        assert(body.take(body.len() as int) == body);
    }
    Ok(value)
}

/// What `s` denotes as a TCP port: a number of at most 65535.
pub open spec fn port_of(s: Seq<char>) -> Result<u16, NumberError> {
    match parse_decimal(s, 65535) {
        Ok(value) => Ok(value as u16),
        Err(error) => Err(error),
    }
}

/// Reads `s` as a TCP port.
pub fn parse_port(s: &str) -> (parsed: Result<u16, NumberError>)
    ensures
        parsed == port_of(s@),
{
    match parse_unsigned(s, 65535) {
        Ok(value) => Ok(value as u16),
        Err(error) => Err(error),
    }
}

impl NumberError {
    /// What is wrong, in words.
    pub open spec fn reason(self) -> Seq<char> {
        match self {
            NumberError::Empty => "cannot parse integer from empty string"@,
            NumberError::InvalidDigit => "invalid digit found in string"@,
            NumberError::TooLarge => "number too large to fit in target type"@,
        }
    }

    /// What is wrong, in words.
    pub fn message(&self) -> (text: &'static str)
        ensures
            text@ == self.reason(),
    {
        match self {
            NumberError::Empty => "cannot parse integer from empty string",
            NumberError::InvalidDigit => "invalid digit found in string",
            NumberError::TooLarge => "number too large to fit in target type",
        }
    }
}

} // verus!
