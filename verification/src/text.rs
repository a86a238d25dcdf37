//! Reading decimal numbers out of text.

use vstd::prelude::*;

verus! {

/// Why a stretch of text is not the number asked for.
#[derive(Debug, Clone, Copy, PartialEq, Eq, Structural)]
pub enum NumberError {
    /// Not an optional `+` followed by one or more decimal digits.
    Malformed,
    /// A number, but above the limit given.
    TooLarge,
}

pub open spec fn is_digit(c: char) -> bool {
    '0' <= c && c <= '9'
}

/// The value of a decimal digit.
pub open spec fn digit_value(c: char) -> nat {
    (c as u32 - '0' as u32) as nat
}

pub open spec fn all_digits(s: Seq<char>) -> bool {
    forall|i: int| 0 <= i < s.len() ==> is_digit(#[trigger] s[i])
}

/// The number that a run of decimal digits writes, most significant first.
pub open spec fn decimal_value(s: Seq<char>) -> nat
    decreases s.len(),
{
    if s.len() == 0 {
        0
    } else {
        10 * decimal_value(s.drop_last()) + digit_value(s.last())
    }
}

/// The digits of an unsigned number: the text without a leading `+`.
pub open spec fn unsigned_digits(s: Seq<char>) -> Seq<char> {
    if s.len() > 0 && s[0] == '+' {
        s.skip(1)
    } else {
        s
    }
}

/// An optional `+` followed by one or more decimal digits.
pub open spec fn is_unsigned(s: Seq<char>) -> bool {
    unsigned_digits(s).len() > 0 && all_digits(unsigned_digits(s))
}

pub open spec fn unsigned_value(s: Seq<char>) -> nat {
    decimal_value(unsigned_digits(s))
}

/// What reading `s` as an unsigned number of at most `limit` comes to.
pub open spec fn unsigned_within(s: Seq<char>, limit: u32) -> Result<u32, NumberError> {
    if !is_unsigned(s) {
        Err(NumberError::Malformed)
    } else if unsigned_value(s) > limit {
        Err(NumberError::TooLarge)
    } else {
        Ok(unsigned_value(s) as u32)
    }
}

/// The characters of `text`, in order.
pub fn chars_of(text: &str) -> (chars: Vec<char>)
    ensures
        chars@ == text@,
{
    let mut chars: Vec<char> = Vec::new();
    for c in it: text.chars()
        invariant
            it.seq() == text@,
            chars@ == it.seq().take(it.index()),
    {
        chars.push(c);
    }
    chars
}

/// Appending a digit multiplies the value by ten and adds the digit.
pub proof fn lemma_decimal_value_push(s: Seq<char>, c: char)
    ensures
        decimal_value(s.push(c)) == 10 * decimal_value(s) + digit_value(c),
{
    assert(s.push(c).drop_last() == s);
}

/// Reads `chars[from..to]` as an unsigned decimal number of at most `limit`.
pub fn read_unsigned(chars: &Vec<char>, from: usize, to: usize, limit: u32) -> (result: Result<
    u32,
    NumberError,
>)
    requires
        from <= to <= chars.len(),
    ensures
        result == unsigned_within(chars@.subrange(from as int, to as int), limit),
{
    let ghost s = chars@.subrange(from as int, to as int);
    let mut at: usize = from;
    if at < to && chars[at] == '+' {
        at += 1;
    }
    let start: usize = at;
    assert(unsigned_digits(s) == chars@.subrange(start as int, to as int));
    if start == to {
        return Err(NumberError::Malformed);
    }
    // `value` follows the digits read so far, held at `limit + 1` once past the limit.
    let mut value: u64 = 0;
    while at < to
        invariant
            from <= start <= at <= to <= chars.len(),
            unsigned_digits(chars@.subrange(from as int, to as int)) == chars@.subrange(
                start as int,
                to as int,
            ),
            all_digits(chars@.subrange(start as int, at as int)),
            value <= limit + 1,
            decimal_value(chars@.subrange(start as int, at as int)) <= limit ==> value
                == decimal_value(chars@.subrange(start as int, at as int)),
            decimal_value(chars@.subrange(start as int, at as int)) > limit ==> value == limit
                + 1,
        decreases to - at,
    {
        let c: char = chars[at];
        let ghost before = chars@.subrange(start as int, at as int);
        let ghost after = chars@.subrange(start as int, at + 1);
        assert(after == before.push(c));
        if !(c >= '0' && c <= '9') {
            proof {
                let digits = chars@.subrange(start as int, to as int);
                assert(digits[at - start] == c);
            }
            return Err(NumberError::Malformed);
        }
        proof {
            lemma_decimal_value_push(before, c);
        }
        let digit: u64 = (c as u32 - '0' as u32) as u64;
        if value <= limit as u64 {
            value = value * 10 + digit;
            if value > limit as u64 {
                value = limit as u64 + 1;
            }
        }
        at += 1;
    }
    assert(chars@.subrange(start as int, at as int) == unsigned_digits(s));
    if value > limit as u64 {
        Err(NumberError::TooLarge)
    } else {
        Ok(value as u32)
    }
}

} // verus!
