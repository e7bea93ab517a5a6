//! FMI 3.0 base types and status codes.
use vstd::prelude::*;

verus! {

/// Reference to a model variable.
pub type fmi3ValueReference = u32;

pub type fmi3Int8 = i8;

pub type fmi3UInt8 = u8;

pub type fmi3Int16 = i16;

pub type fmi3UInt16 = u16;

pub type fmi3Int32 = i32;

pub type fmi3UInt32 = u32;

pub type fmi3Int64 = i64;

pub type fmi3UInt64 = u64;

/// FMI booleans are 32-bit integers: zero is false, anything else is true.
pub type fmi3Boolean = i32;

pub type fmi3Byte = u8;

/// FMI clocks travel as 32-bit integers: zero is inactive, anything else ticks.
pub type fmi3Clock = i32;

/// Status returned by every FMI 3.0 function, in the order of the standard
/// (`fmi3OK` is code 0, `fmi3Fatal` is code 4).
#[derive(Debug, Clone, Copy, PartialEq, Eq, Structural)]
pub enum fmi3Status {
    fmi3OK,
    fmi3Warning,
    fmi3Discard,
    fmi3Error,
    fmi3Fatal,
}

/// The numeric code of a status, as the FMI standard fixes it.
pub open spec fn fmi3_status_code(s: fmi3Status) -> int {
    match s {
        fmi3Status::fmi3OK => 0,
        fmi3Status::fmi3Warning => 1,
        fmi3Status::fmi3Discard => 2,
        fmi3Status::fmi3Error => 3,
        fmi3Status::fmi3Fatal => 4,
    }
}

impl fmi3Status {
    /// The numeric code of this status (0 to 4).
    pub fn code(self) -> (c: i32)
        ensures
            c == fmi3_status_code(self),
    {
        match self {
            fmi3Status::fmi3OK => 0,
            fmi3Status::fmi3Warning => 1,
            fmi3Status::fmi3Discard => 2,
            fmi3Status::fmi3Error => 3,
            fmi3Status::fmi3Fatal => 4,
        }
    }
}

/// The version of the FMI standard that this library implements: `3.0`.
pub fn fmi3GetVersion() -> (v: &'static str)
    ensures
        v@ == seq!['3', '.', '0'],
{
    let v = "3.0";
    proof {
        reveal_strlit("3.0");
    }
    v
}

/// The codes that the FMI 3.0 standard gives the statuses: `fmi3OK` 0,
/// `fmi3Warning` 1, `fmi3Discard` 2, `fmi3Error` 3, `fmi3Fatal` 4.
pub proof fn lemma_status_codes_follow_the_standard()
    ensures
        fmi3_status_code(fmi3Status::fmi3OK) == 0,
        fmi3_status_code(fmi3Status::fmi3Warning) == 1,
        fmi3_status_code(fmi3Status::fmi3Discard) == 2,
        fmi3_status_code(fmi3Status::fmi3Error) == 3,
        fmi3_status_code(fmi3Status::fmi3Fatal) == 4,
{
}

} // verus!
