//! Status codes as they travel on the wire between the Liaison client and
//! server.
use vstd::prelude::*;

verus! {

/// Wire status, with the same codes as `fmi3Status` (`OK` is 0, `Fatal` is 4).
#[derive(Debug, Clone, Copy, PartialEq, Eq, Hash, Structural)]
pub enum Status {
    OK,
    Warning,
    Discard,
    Error,
    Fatal,
}

/// A wire code that names no status.
#[derive(Debug, Clone, Copy, PartialEq, Eq, Structural)]
pub struct UnknownEnumValue(pub i32);

/// The numeric wire code of a status.
pub open spec fn status_code(s: Status) -> int {
    match s {
        Status::OK => 0,
        Status::Warning => 1,
        Status::Discard => 2,
        Status::Error => 3,
        Status::Fatal => 4,
    }
}

/// The status that a wire code names, if any.
pub open spec fn status_from_code(code: int) -> Option<Status> {
    if code == 0 {
        Some(Status::OK)
    } else if code == 1 {
        Some(Status::Warning)
    } else if code == 2 {
        Some(Status::Discard)
    } else if code == 3 {
        Some(Status::Error)
    } else if code == 4 {
        Some(Status::Fatal)
    } else {
        None
    }
}

impl Status {
    /// The numeric wire code of this status.
    pub fn code(self) -> (c: i32)
        ensures
            c == status_code(self),
    {
        match self {
            Status::OK => 0,
            Status::Warning => 1,
            Status::Discard => 2,
            Status::Error => 3,
            Status::Fatal => 4,
        }
    }

    /// Whether `value` is the code of some status.
    pub fn is_valid(value: i32) -> (b: bool)
        ensures
            b == (0 <= value <= 4),
    {
        0 <= value && value <= 4
    }
}

impl TryFrom<i32> for Status {
    type Error = UnknownEnumValue;

    /// Reads a wire code; codes outside 0..=4 are refused with the code itself.
    fn try_from(value: i32) -> (r: Result<Status, UnknownEnumValue>) {
        if value == 0 {
            Ok(Status::OK)
        } else if value == 1 {
            Ok(Status::Warning)
        } else if value == 2 {
            Ok(Status::Discard)
        } else if value == 3 {
            Ok(Status::Error)
        } else if value == 4 {
            Ok(Status::Fatal)
        } else {
            Err(UnknownEnumValue(value))
        }
    }
}

impl vstd::std_specs::convert::TryFromSpecImpl<i32> for Status {
    open spec fn obeys_try_from_spec() -> bool {
        true
    }

    open spec fn try_from_spec(v: i32) -> Result<Status, UnknownEnumValue> {
        match status_from_code(v as int) {
            Some(s) => Ok(s),
            None => Err(UnknownEnumValue(v)),
        }
    }
}

/// Every status survives the trip through its wire code.
pub proof fn lemma_status_code_roundtrip(s: Status)
    ensures
        status_from_code(status_code(s)) == Some(s),
        0 <= status_code(s) <= 4,
{
}

/// The wire codes of the statuses: `OK` 0, `Warning` 1, `Discard` 2,
/// `Error` 3, `Fatal` 4, as in the FMI standard.
pub proof fn lemma_wire_codes_follow_the_standard()
    ensures
        status_code(Status::OK) == 0,
        status_code(Status::Warning) == 1,
        status_code(Status::Discard) == 2,
        status_code(Status::Error) == 3,
        status_code(Status::Fatal) == 4,
{
}

} // verus!
