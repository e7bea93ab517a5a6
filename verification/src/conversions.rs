//! Conversions between FMI status codes and their wire form.
//!
//! The two enumerations have the same five members in the same order, so the
//! conversions are bijections; an integer that is no status code reads as
//! `fmi3Error`.
use crate::fmi3::{fmi3Status, fmi3_status_code};
use crate::proto::{Status, status_code};
use vstd::prelude::*;

verus! {

/// The FMI status that a wire status stands for.
pub open spec fn fmi_status_of(s: Status) -> fmi3Status {
    match s {
        Status::OK => fmi3Status::fmi3OK,
        Status::Warning => fmi3Status::fmi3Warning,
        Status::Discard => fmi3Status::fmi3Discard,
        Status::Error => fmi3Status::fmi3Error,
        Status::Fatal => fmi3Status::fmi3Fatal,
    }
}

/// The wire status that an FMI status is sent as.
pub open spec fn wire_status_of(s: fmi3Status) -> Status {
    match s {
        fmi3Status::fmi3OK => Status::OK,
        fmi3Status::fmi3Warning => Status::Warning,
        fmi3Status::fmi3Discard => Status::Discard,
        fmi3Status::fmi3Error => Status::Error,
        fmi3Status::fmi3Fatal => Status::Fatal,
    }
}

/// The FMI status that an integer code reads as: codes 0 to 4 in the order
/// of the standard, `fmi3Error` for every other value.
pub open spec fn fmi_status_of_code(code: int) -> fmi3Status {
    if code == 0 {
        fmi3Status::fmi3OK
    } else if code == 1 {
        fmi3Status::fmi3Warning
    } else if code == 2 {
        fmi3Status::fmi3Discard
    } else if code == 3 {
        fmi3Status::fmi3Error
    } else if code == 4 {
        fmi3Status::fmi3Fatal
    } else {
        fmi3Status::fmi3Error
    }
}

impl From<Status> for fmi3Status {
    fn from(proto_status: Status) -> (r: fmi3Status) {
        match proto_status {
            Status::OK => fmi3Status::fmi3OK,
            Status::Warning => fmi3Status::fmi3Warning,
            Status::Discard => fmi3Status::fmi3Discard,
            Status::Error => fmi3Status::fmi3Error,
            Status::Fatal => fmi3Status::fmi3Fatal,
        }
    }
}

impl vstd::std_specs::convert::FromSpecImpl<Status> for fmi3Status {
    open spec fn obeys_from_spec() -> bool {
        true
    }

    open spec fn from_spec(v: Status) -> fmi3Status {
        fmi_status_of(v)
    }
}

impl From<fmi3Status> for Status {
    fn from(fmi_status: fmi3Status) -> (r: Status) {
        match fmi_status {
            fmi3Status::fmi3OK => Status::OK,
            fmi3Status::fmi3Warning => Status::Warning,
            fmi3Status::fmi3Discard => Status::Discard,
            fmi3Status::fmi3Error => Status::Error,
            fmi3Status::fmi3Fatal => Status::Fatal,
        }
    }
}

impl vstd::std_specs::convert::FromSpecImpl<fmi3Status> for Status {
    open spec fn obeys_from_spec() -> bool {
        true
    }

    open spec fn from_spec(v: fmi3Status) -> Status {
        wire_status_of(v)
    }
}

impl From<i32> for fmi3Status {
    fn from(value: i32) -> (r: fmi3Status) {
        match value {
            0 => fmi3Status::fmi3OK,
            1 => fmi3Status::fmi3Warning,
            2 => fmi3Status::fmi3Discard,
            3 => fmi3Status::fmi3Error,
            4 => fmi3Status::fmi3Fatal,
            _ => fmi3Status::fmi3Error,
        }
    }
}

impl vstd::std_specs::convert::FromSpecImpl<i32> for fmi3Status {
    open spec fn obeys_from_spec() -> bool {
        true
    }

    open spec fn from_spec(v: i32) -> fmi3Status {
        fmi_status_of_code(v as int)
    }
}

/// Converting a wire status to FMI and back gives the wire status again.
pub proof fn lemma_wire_fmi_wire_roundtrip(s: Status)
    ensures
        wire_status_of(fmi_status_of(s)) == s,
{
}

/// Converting an FMI status to wire form and back gives the FMI status again.
pub proof fn lemma_fmi_wire_fmi_roundtrip(s: fmi3Status)
    ensures
        fmi_status_of(wire_status_of(s)) == s,
{
}

/// Both conversions keep the numeric code.
pub proof fn lemma_conversions_keep_code(s: fmi3Status, w: Status)
    ensures
        status_code(wire_status_of(s)) == fmi3_status_code(s),
        fmi3_status_code(fmi_status_of(w)) == status_code(w),
{
}

/// Reading the code of an FMI status gives that status back.
pub proof fn lemma_code_fmi_roundtrip(s: fmi3Status)
    ensures
        fmi_status_of_code(fmi3_status_code(s)) == s,
{
}

/// Reading a code from 0 to 4 and taking the code of the result gives the
/// code back; every other code reads as `fmi3Error`.
pub proof fn lemma_fmi_code_roundtrip(code: int)
    ensures
        0 <= code <= 4 ==> fmi3_status_code(fmi_status_of_code(code)) == code,
        !(0 <= code <= 4) ==> fmi_status_of_code(code) == fmi3Status::fmi3Error,
{
}

/// The FMI status that a reply code from the peer stands for: a code that
/// names a wire status converts as that status does, any other code reads
/// as `fmi3Error`.
pub fn fmi_status_from_wire_code(code: i32) -> (r: fmi3Status)
    ensures
        r == fmi_status_of_code(code as int),
{
    match Status::try_from(code) {
        Ok(s) => fmi3Status::from(s),
        Err(_) => fmi3Status::fmi3Error,
    }
}

} // verus!
