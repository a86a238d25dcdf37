//! The wake time that anchors the day, and its `HH:MM` notation.

use vstd::prelude::*;
use crate::text::{chars_of, read_unsigned, unsigned_within, NumberError};

verus! {

/// A time of day, the moment of waking.
#[derive(Clone, Copy, Debug, Default, PartialEq, Eq, Structural)]
pub struct Waketime {
    pub hours: u32,
    pub minutes: u32,
}

/// Why a text is not a wake time.
#[derive(Clone, Copy, Debug, PartialEq, Eq, Structural)]
pub enum WaketimeParseError {
    /// Not two parts around a single colon.
    Shape,
    /// A part is not an unsigned decimal number.
    NotANumber,
    /// Hours above 23 or minutes above 59.
    OutOfRange,
}

/// `i` is the place of the only colon in `s`.
pub open spec fn only_colon_at(s: Seq<char>, i: int) -> bool {
    &&& 0 <= i < s.len()
    &&& s[i] == ':'
    &&& forall|j: int| 0 <= j < s.len() && j != i ==> s[j] != ':'
}

/// What `hours` and `minutes`, the texts before and after the colon, come to.
pub open spec fn waketime_of_parts(hours: Seq<char>, minutes: Seq<char>) -> Result<
    Waketime,
    WaketimeParseError,
> {
    match (unsigned_within(hours, 23), unsigned_within(minutes, 59)) {
        (Ok(h), Ok(m)) => Ok(Waketime { hours: h, minutes: m }),
        (Err(NumberError::Malformed), _) | (_, Err(NumberError::Malformed)) => Err(
            WaketimeParseError::NotANumber,
        ),
        _ => Err(WaketimeParseError::OutOfRange),
    }
}

/// The wake time that `s` writes, or the reason why it writes none.
pub open spec fn parsed_waketime(s: Seq<char>) -> Result<Waketime, WaketimeParseError> {
    if exists|i: int| only_colon_at(s, i) {
        let i = choose|i: int| only_colon_at(s, i);
        waketime_of_parts(s.subrange(0, i), s.subrange(i + 1, s.len() as int))
    } else {
        Err(WaketimeParseError::Shape)
    }
}

impl Waketime {
    /// Hours are below 24 and minutes below 60.
    pub open spec fn wf(&self) -> bool {
        self.hours <= 23 && self.minutes <= 59
    }

    /// The wake time as minutes after midnight.
    pub open spec fn minute_of_day(&self) -> int {
        self.hours * 60 + self.minutes
    }

    pub fn new(hours: u32, minutes: u32) -> (waketime: Waketime)
        requires
            hours <= 23,
            minutes <= 59,
        ensures
            waketime.wf(),
            waketime.hours == hours,
            waketime.minutes == minutes,
    {
        Waketime { hours, minutes }
    }

    /// Reads a wake time written as hours, a colon and minutes.
    pub fn parse(text: &str) -> (result: Result<Waketime, WaketimeParseError>)
        ensures
            result == parsed_waketime(text@),
            result matches Ok(waketime) ==> waketime.wf(),
    {
        let chars = chars_of(text);
        let n = chars.len();
        let mut colon: usize = 0;
        while colon < n && chars[colon] != ':'
            invariant
                colon <= n == chars.len(),
                forall|j: int| 0 <= j < colon ==> chars[j] != ':',
            decreases n - colon,
        {
            colon += 1;
        }
        if colon == n {
            assert forall|i: int| !only_colon_at(chars@, i) by {}
            return Err(WaketimeParseError::Shape);
        }
        let mut rest: usize = colon + 1;
        while rest < n && chars[rest] != ':'
            invariant
                colon < rest <= n == chars.len(),
                forall|j: int| colon < j < rest ==> chars[j] != ':',
            decreases n - rest,
        {
            rest += 1;
        }
        if rest < n {
            assert forall|i: int| !only_colon_at(chars@, i) by {
                if only_colon_at(chars@, i) {
                    assert(chars@[colon as int] == ':' && chars@[rest as int] == ':');
                }
            }
            return Err(WaketimeParseError::Shape);
        }
        proof {
            assert(only_colon_at(chars@, colon as int));
            let i = choose|i: int| only_colon_at(chars@, i);
            assert(i == colon);
        }
        let hours = read_unsigned(&chars, 0, colon, 23);
        let minutes = read_unsigned(&chars, colon + 1, n, 59);
        match (hours, minutes) {
            (Ok(h), Ok(m)) => Ok(Waketime { hours: h, minutes: m }),
            (Err(NumberError::Malformed), _) | (_, Err(NumberError::Malformed)) => Err(
                WaketimeParseError::NotANumber,
            ),
            _ => Err(WaketimeParseError::OutOfRange),
        }
    }
}

} // verus!
