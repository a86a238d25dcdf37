//! Reading the numbers that the display service answers with. An answer
//! wraps its number in brackets and a comma, as in `(6500,)`.

use vstd::prelude::*;
use crate::display::DisplaySettings;
use crate::text::{all_digits, chars_of, decimal_value, digit_value, is_digit, lemma_decimal_value_push};

verus! {

/// What to take off both ends of a text.
#[derive(Debug, Clone, Copy, PartialEq, Eq, Structural)]
pub enum Trim {
    /// White space.
    Blank,
    /// The brackets and the comma that wrap an answer.
    Wrapper,
}

/// White space, as Unicode lists it.
pub open spec fn is_blank(c: char) -> bool {
    ||| '\u{9}' <= c && c <= '\u{d}'
    ||| c == ' '
    ||| c == '\u{85}'
    ||| c == '\u{a0}'
    ||| c == '\u{1680}'
    ||| '\u{2000}' <= c && c <= '\u{200a}'
    ||| c == '\u{2028}'
    ||| c == '\u{2029}'
    ||| c == '\u{202f}'
    ||| c == '\u{205f}'
    ||| c == '\u{3000}'
}

impl Trim {
    /// Whether `c` is taken off.
    pub open spec fn strips(&self, c: char) -> bool {
        match self {
            Trim::Blank => is_blank(c),
            Trim::Wrapper => c == '(' || c == ')' || c == ',',
        }
    }

    fn takes(&self, c: char) -> (b: bool)
        ensures
            b == self.strips(c),
    {
        match self {
            Trim::Blank => {
                ('\u{9}' <= c && c <= '\u{d}') || c == ' ' || c == '\u{85}' || c == '\u{a0}' || c
                    == '\u{1680}' || ('\u{2000}' <= c && c <= '\u{200a}') || c == '\u{2028}' || c
                    == '\u{2029}' || c == '\u{202f}' || c == '\u{205f}' || c == '\u{3000}'
            },
            Trim::Wrapper => c == '(' || c == ')' || c == ',',
        }
    }
}

/// `s` without the characters of `kind` at its front.
pub open spec fn trim_front(s: Seq<char>, kind: Trim) -> Seq<char>
    decreases s.len(),
{
    if s.len() > 0 && kind.strips(s[0]) {
        trim_front(s.skip(1), kind)
    } else {
        s
    }
}

/// `s` without the characters of `kind` at its back.
pub open spec fn trim_back(s: Seq<char>, kind: Trim) -> Seq<char>
    decreases s.len(),
{
    if s.len() > 0 && kind.strips(s.last()) {
        trim_back(s.drop_last(), kind)
    } else {
        s
    }
}

/// `s` without the characters of `kind` at either end.
pub open spec fn trimmed(s: Seq<char>, kind: Trim) -> Seq<char> {
    trim_back(trim_front(s, kind), kind)
}

/// The place of the first `.` in `s`, or the length of `s` if it has none.
pub open spec fn dot_index(s: Seq<char>) -> int
    decreases s.len(),
{
    if s.len() == 0 || s[0] == '.' {
        0
    } else {
        1 + dot_index(s.skip(1))
    }
}

/// The millionths that the digits after a decimal point come to, the first
/// of them worth `weight`, each further one a tenth of the one before.
/// With a first weight of 100000, digits after the sixth count for nothing.
pub open spec fn fraction_micros(digits: Seq<char>, weight: nat) -> nat
    decreases digits.len(),
{
    if digits.len() == 0 {
        0
    } else {
        digit_value(digits[0]) * weight + fraction_micros(digits.skip(1), weight / 10)
    }
}

/// Whether `s` starts with a sign.
pub open spec fn has_sign(s: Seq<char>) -> bool {
    s.len() > 0 && (s[0] == '-' || s[0] == '+')
}

/// The number that `s` writes, in millionths and rounded towards zero: an
/// optional sign, then digits with at most one decimal point among them and
/// at least one digit in all. None for any other text, and for a number
/// whose millionths do not fit in 128 bits.
pub open spec fn decimal_micros(s: Seq<char>) -> Option<i128> {
    let body = if has_sign(s) {
        s.skip(1)
    } else {
        s
    };
    let dot = dot_index(body);
    let whole = body.take(dot);
    let fraction = if dot < body.len() {
        body.skip(dot + 1)
    } else {
        Seq::<char>::empty()
    };
    let magnitude = decimal_value(whole) * 1_000_000 + fraction_micros(fraction, 100_000);
    let value = if has_sign(s) && s[0] == '-' {
        -magnitude
    } else {
        magnitude as int
    };
    if all_digits(whole) && all_digits(fraction) && whole.len() + fraction.len() > 0 && i128::MIN
        <= value <= i128::MAX {
        Some(value as i128)
    } else {
        None
    }
}

/// The number in an answer of the display service: white space is taken off
/// both ends, then the wrapping brackets and commas, and the rest is read as
/// a decimal number.
pub open spec fn reading_of(s: Seq<char>) -> Option<i128> {
    decimal_micros(trimmed(trimmed(s, Trim::Blank), Trim::Wrapper))
}

/// The settings that two answers of the display service report, if both can
/// be read.
pub open spec fn shown_of(temperature: Seq<char>, brightness: Seq<char>) -> Option<
    DisplaySettings,
> {
    match (reading_of(temperature), reading_of(brightness)) {
        (Some(t), Some(b)) => Some(DisplaySettings { temperature: t, brightness: b }),
        _ => None,
    }
}

/// The first `.` stands where no `.` comes before and one stands, or at the end.
proof fn lemma_dot_index(s: Seq<char>, at: int)
    requires
        0 <= at <= s.len(),
        forall|j: int| 0 <= j < at ==> s[j] != '.',
        at < s.len() ==> s[at] == '.',
    ensures
        dot_index(s) == at,
    decreases at,
{
    if at > 0 {
        lemma_dot_index(s.skip(1), at - 1);
    }
}

/// Finds the bounds of `chars[from..to]` without the characters of `kind` at
/// either end.
pub fn trim(chars: &Vec<char>, from: usize, to: usize, kind: Trim) -> (bounds: (usize, usize))
    requires
        from <= to <= chars.len(),
    ensures
        from <= bounds.0 <= bounds.1 <= to,
        chars@.subrange(bounds.0 as int, bounds.1 as int) == trimmed(
            chars@.subrange(from as int, to as int),
            kind,
        ),
{
    let mut front: usize = from;
    while front < to && kind.takes(chars[front])
        invariant
            from <= front <= to <= chars.len(),
            trim_front(chars@.subrange(from as int, to as int), kind) == trim_front(
                chars@.subrange(front as int, to as int),
                kind,
            ),
        decreases to - front,
    {
        assert(chars@.subrange(front as int, to as int).skip(1) == chars@.subrange(
            front + 1,
            to as int,
        ));
        front += 1;
    }
    let mut back: usize = to;
    while back > front && kind.takes(chars[back - 1])
        invariant
            front <= back <= to <= chars.len(),
            trim_back(chars@.subrange(front as int, to as int), kind) == trim_back(
                chars@.subrange(front as int, back as int),
                kind,
            ),
        decreases back - front,
    {
        assert(chars@.subrange(front as int, back as int).drop_last() == chars@.subrange(
            front as int,
            back - 1,
        ));
        back -= 1;
    }
    (front, back)
}

/// Reads `chars[from..to]` as a decimal number, in millionths.
#[verifier::loop_isolation(false)]
pub fn read_decimal(chars: &Vec<char>, from: usize, to: usize) -> (value: Option<i128>)
    requires
        from <= to <= chars.len(),
    ensures
        value == decimal_micros(chars@.subrange(from as int, to as int)),
{
    let ghost s = chars@.subrange(from as int, to as int);
    let mut at: usize = from;
    let mut negative = false;
    if at < to && (chars[at] == '-' || chars[at] == '+') {
        negative = chars[at] == '-';
        at += 1;
    }
    let start: usize = at;
    let ghost body = chars@.subrange(start as int, to as int);
    assert(body == if has_sign(s) {
        s.skip(1)
    } else {
        s
    });
    assert(negative == (has_sign(s) && s[0] == '-'));

    // The digits before the point; `overflow` once they exceed 128 bits.
    let mut whole: u128 = 0;
    let mut overflow = false;
    while at < to && chars[at] != '.'
        invariant
            start <= at <= to <= chars.len(),
            body == chars@.subrange(start as int, to as int),
            forall|j: int| 0 <= j < at - start ==> body[j] != '.',
            all_digits(chars@.subrange(start as int, at as int)),
            !overflow ==> whole == decimal_value(chars@.subrange(start as int, at as int)),
            overflow ==> decimal_value(chars@.subrange(start as int, at as int)) > u128::MAX,
        decreases to - at,
    {
        let c: char = chars[at];
        let ghost before = chars@.subrange(start as int, at as int);
        assert(chars@.subrange(start as int, at + 1) == before.push(c));
        proof {
            lemma_decimal_value_push(before, c);
        }
        if !(c >= '0' && c <= '9') {
            proof {
                assert(body[at - start] == c);
                lemma_not_digit_before_dot(body, at - start);
            }
            return None;
        }
        let digit: u128 = (c as u32 - '0' as u32) as u128;
        if !overflow {
            match whole.checked_mul(10) {
                Some(tens) => match tens.checked_add(digit) {
                    Some(next) => { whole = next; },
                    None => { overflow = true; },
                },
                None => { overflow = true; },
            }
        }
        at += 1;
    }
    let dot: usize = at;
    proof {
        lemma_dot_index(body, dot - start);
        assert(body.take(dot - start) == chars@.subrange(start as int, dot as int));
    }
    let ghost whole_digits = chars@.subrange(start as int, dot as int);

    // The digits after the point, the first worth a tenth.
    let mut micros: u128 = 0;
    let first: usize = if at < to {
        at + 1
    } else {
        to
    };
    let ghost fraction = chars@.subrange(first as int, to as int);
    assert(fraction == if dot - start < body.len() {
        body.skip(dot - start + 1)
    } else {
        Seq::<char>::empty()
    });
    at = first;
    let mut weight: u128 = 100_000;
    while at < to
        invariant
            first <= at <= to <= chars.len(),
            fraction == chars@.subrange(first as int, to as int),
            all_digits(chars@.subrange(first as int, at as int)),
            micros + 10 * weight <= 1_000_000,
            micros <= 999_999,
            fraction_micros(fraction, 100_000) == micros + fraction_micros(
                chars@.subrange(at as int, to as int),
                weight as nat,
            ),
        decreases to - at,
    {
        let c: char = chars[at];
        let ghost rest = chars@.subrange(at as int, to as int);
        assert(rest.skip(1) == chars@.subrange(at + 1, to as int));
        assert(rest[0] == c);
        if !(c >= '0' && c <= '9') {
            assert(fraction[at - first] == c);
            return None;
        }
        assert(chars@.subrange(first as int, at + 1) == chars@.subrange(
            first as int,
            at as int,
        ).push(c));
        let digit: u128 = (c as u32 - '0' as u32) as u128;
        assert(digit * weight <= 9 * weight) by (nonlinear_arith)
            requires
                digit <= 9,
                weight >= 0,
        ;
        micros = micros + digit * weight;
        weight = weight / 10;
        at += 1;
    }
    assert(chars@.subrange(first as int, to as int) == fraction);
    assert(fraction_micros(chars@.subrange(to as int, to as int), weight as nat) == 0);
    if dot - start + (to - first) == 0 {
        return None;
    }
    if overflow {
        return None;
    }
    let magnitude: u128 = match whole.checked_mul(1_000_000) {
        Some(scaled) => match scaled.checked_add(micros) {
            Some(sum) => sum,
            None => { return None; },
        },
        None => { return None; },
    };
    if negative {
        if magnitude <= 0x7fff_ffff_ffff_ffff_ffff_ffff_ffff_ffff {
            Some(0 - (magnitude as i128))
        } else if magnitude == 0x8000_0000_0000_0000_0000_0000_0000_0000 {
            Some(i128::MIN)
        } else {
            None
        }
    } else {
        if magnitude <= 0x7fff_ffff_ffff_ffff_ffff_ffff_ffff_ffff {
            Some(magnitude as i128)
        } else {
            None
        }
    }
}

/// A character before the first `.` belongs to the digits before the point.
proof fn lemma_not_digit_before_dot(body: Seq<char>, at: int)
    requires
        0 <= at < body.len(),
        forall|j: int| 0 <= j <= at ==> body[j] != '.',
        !is_digit(body[at]),
    ensures
        !all_digits(body.take(dot_index(body))),
{
    lemma_dot_index_beyond(body, at);
    assert(body.take(dot_index(body))[at] == body[at]);
}

/// The first `.` comes after every stretch that holds none.
proof fn lemma_dot_index_beyond(s: Seq<char>, at: int)
    requires
        0 <= at < s.len(),
        forall|j: int| 0 <= j <= at ==> s[j] != '.',
    ensures
        at < dot_index(s) <= s.len(),
    decreases s.len(),
{
    if at > 0 {
        lemma_dot_index_beyond(s.skip(1), at - 1);
    } else {
        lemma_dot_index_within(s.skip(1));
    }
}

/// The first `.` never lies beyond the end.
proof fn lemma_dot_index_within(s: Seq<char>)
    ensures
        0 <= dot_index(s) <= s.len(),
    decreases s.len(),
{
    if s.len() > 0 && s[0] != '.' {
        lemma_dot_index_within(s.skip(1));
    }
}

/// Reads the number in an answer of the display service, in millionths.
pub fn read_reply(text: &str) -> (value: Option<i128>)
    ensures
        value == reading_of(text@),
{
    let chars = chars_of(text);
    assert(chars@.subrange(0, chars.len() as int) == chars@);
    let unpadded = trim(&chars, 0, chars.len(), Trim::Blank);
    let core = trim(&chars, unpadded.0, unpadded.1, Trim::Wrapper);
    read_decimal(&chars, core.0, core.1)
}

/// Reads what the display shows from its two answers; none unless both can
/// be read.
pub fn shown_settings(temperature: &str, brightness: &str) -> (shown: Option<DisplaySettings>)
    ensures
        shown == shown_of(temperature@, brightness@),
{
    match (read_reply(temperature), read_reply(brightness)) {
        (Some(t), Some(b)) => Some(DisplaySettings { temperature: t, brightness: b }),
        _ => None,
    }
}

} // verus!
