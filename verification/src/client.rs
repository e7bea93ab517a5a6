//! Decisions of the FMI client around each forwarded call: which calls may
//! be forwarded, and which status the caller receives for a reply.
use crate::conversions::fmi_status_of_code;
use crate::conversions::fmi_status_from_wire_code;
use crate::callbacks::proto_status_of;
use crate::fmi3::fmi3Status;
use crate::proto::status_code;
use vstd::prelude::*;

verus! {

/// The status that the caller of a forwarded FMI function receives: the
/// status that the server's reply code stands for (codes that name no status
/// read as `fmi3Error`), or `fmi3Fatal` where no reply came.
pub open spec fn reply_status_spec(reply: Option<i32>) -> fmi3Status {
    match reply {
        Some(code) => fmi_status_of_code(code as int),
        None => fmi3Status::fmi3Fatal,
    }
}

/// The status that the caller of a forwarded FMI function receives for the
/// reply code of the server, or for a query that got no reply (`None`).
pub fn reply_status(reply: Option<i32>) -> (s: fmi3Status)
    ensures
        s == reply_status_spec(reply),
{
    match reply {
        Some(code) => fmi_status_from_wire_code(code),
        None => fmi3Status::fmi3Fatal,
    }
}

/// Whether a call that reads or writes an array of values may be forwarded:
/// the instance and both arrays must be given, and neither count may be zero.
/// A call that may not be forwarded returns `fmi3Error`.
pub fn values_call_valid(pointers_given: bool, n_value_references: usize, n_values: usize) -> (b:
    bool)
    ensures
        b == (pointers_given && n_value_references > 0 && n_values > 0),
{
    pointers_given && n_value_references > 0 && n_values > 0
}

/// Whether a clock call may be forwarded: the instance and both arrays must
/// be given and the reference count may not be zero (clock arrays hold one
/// value per reference).
pub fn clock_call_valid(pointers_given: bool, n_value_references: usize) -> (b: bool)
    ensures
        b == (pointers_given && n_value_references > 0),
{
    pointers_given && n_value_references > 0
}


/// A status that the FMU returns on the server reaches the client's caller
/// unchanged: the server replies with the code of its wire status, and the
/// client reads that code back as the same FMI status.
pub proof fn lemma_status_survives_the_wire(s: fmi3Status)
    ensures
        reply_status_spec(Some(status_code(proto_status_of(s)) as i32)) == s,
{
}

} // verus!
