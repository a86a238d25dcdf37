//! The four sections of a day, counted from the moment of waking.

use vstd::prelude::*;

verus! {

/// A coarse classification of the time that has passed since waking.
#[derive(Debug, Clone, Copy, PartialEq, Eq, Structural)]
pub enum DaySection {
    Morning,
    Day,
    Evening,
    Night,
}

impl DaySection {
    /// The section's name in lower case.
    pub open spec fn label(&self) -> Seq<char> {
        match self {
            DaySection::Morning => "morning"@,
            DaySection::Day => "day"@,
            DaySection::Evening => "evening"@,
            DaySection::Night => "night"@,
        }
    }

    /// The section's name in lower case.
    pub fn to_string(&self) -> (name: String)
        ensures
            name@ == self.label(),
    {
        match self {
            DaySection::Morning => "morning".to_owned(),
            DaySection::Day => "day".to_owned(),
            DaySection::Evening => "evening".to_owned(),
            DaySection::Night => "night".to_owned(),
        }
    }
}

/// The section that holds the minute `shifted` after waking.
pub open spec fn section_of(shifted: int) -> DaySection {
    if shifted > 1200 || shifted <= 150 {
        DaySection::Morning
    } else if shifted <= 630 {
        DaySection::Day
    } else if shifted <= 960 {
        DaySection::Evening
    } else {
        DaySection::Night
    }
}

/// Classifies a minute after waking.
pub fn classify(shifted: i32) -> (section: DaySection)
    ensures
        section == section_of(shifted as int),
{
    if shifted > 1200 || shifted <= 150 {
        DaySection::Morning
    } else if shifted <= 630 {
        DaySection::Day
    } else if shifted <= 960 {
        DaySection::Evening
    } else {
        DaySection::Night
    }
}

} // verus!
