//! What a screen shows.

use vstd::prelude::*;

verus! {

/// What a screen shows: nothing, the current time, or the time in several
/// cities. Stored in settings as 0, 1 and 6.
#[derive(Debug, Clone, Copy, PartialEq, Eq, Structural)]
pub enum DisplayType {
    Nothing,
    CurrentTime,
    WorldTime,
}

/// The number a display type is stored as.
pub open spec fn display_code(d: DisplayType) -> i32 {
    match d {
        DisplayType::Nothing => 0,
        DisplayType::CurrentTime => 1,
        DisplayType::WorldTime => 6,
    }
}

/// The display type a stored number stands for: 1 and 6 as above, any
/// other number nothing.
pub open spec fn display_of_code(v: i32) -> DisplayType {
    if v == 1 {
        DisplayType::CurrentTime
    } else if v == 6 {
        DisplayType::WorldTime
    } else {
        DisplayType::Nothing
    }
}

impl DisplayType {
    /// The display type stored as `v`.
    pub fn from_int(v: i32) -> (r: Self)
        ensures
            r == display_of_code(v),
    {
        match v {
            1 => DisplayType::CurrentTime,
            6 => DisplayType::WorldTime,
            _ => DisplayType::Nothing,
        }
    }

    /// The number this display type is stored as.
    pub fn to_int(self) -> (r: i32)
        ensures
            r == display_code(self),
    {
        match self {
            DisplayType::Nothing => 0,
            DisplayType::CurrentTime => 1,
            DisplayType::WorldTime => 6,
        }
    }
}

/// Storing a display type and reading it back gives it back.
pub proof fn lemma_display_code_round_trip(d: DisplayType)
    ensures
        display_of_code(display_code(d)) == d,
{
}

/// The stored codes: 0 for nothing, 1 for the current time, 6 for world
/// time; any other code reads as nothing.
pub proof fn lemma_display_codes(v: i32)
    ensures
        display_code(DisplayType::Nothing) == 0,
        display_code(DisplayType::CurrentTime) == 1,
        display_code(DisplayType::WorldTime) == 6,
        display_of_code(v) == DisplayType::CurrentTime <==> v == 1,
        display_of_code(v) == DisplayType::WorldTime <==> v == 6,
        display_of_code(v) == DisplayType::Nothing <==> (v != 1 && v != 6),
{
}

} // verus!
