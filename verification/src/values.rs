//! Conversions applied to variable values and value references on their way
//! between the wire and an FMU.
//!
//! On the wire, value references travel as `i32`, booleans and clocks as
//! `bool`, and 8- and 16-bit integers widened to 32 bits. The FMU side uses
//! `u32` references, `i32` booleans and clocks (zero is false), and the
//! narrow integer types; narrowing keeps the low bits, as a cast does.
use crate::fmi3::{fmi3Boolean, fmi3ValueReference};
use vstd::prelude::*;

verus! {

/// Reads value references that arrived on the wire as FMI references.
pub fn value_references_to_fmi(refs: &[i32]) -> (r: Vec<fmi3ValueReference>)
    ensures
        r@.len() == refs@.len(),
        forall|i: int| 0 <= i < refs@.len() ==> #[trigger] r@[i] == refs@[i] as u32,
{
    let mut r: Vec<fmi3ValueReference> = Vec::with_capacity(refs.len());
    let mut i: usize = 0;
    while i < refs.len()
        invariant
            i <= refs@.len(),
            r@.len() == i,
            forall|j: int| 0 <= j < i ==> #[trigger] r@[j] == refs@[j] as u32,
        decreases refs@.len() - i,
    {
        r.push(refs[i] as u32);
        i = i + 1;
    }
    r
}

/// Writes FMI value references in their wire form.
pub fn value_references_to_proto(refs: &[fmi3ValueReference]) -> (r: Vec<i32>)
    ensures
        r@.len() == refs@.len(),
        forall|i: int| 0 <= i < refs@.len() ==> #[trigger] r@[i] == refs@[i] as i32,
{
    let mut r: Vec<i32> = Vec::with_capacity(refs.len());
    let mut i: usize = 0;
    while i < refs.len()
        invariant
            i <= refs@.len(),
            r@.len() == i,
            forall|j: int| 0 <= j < i ==> #[trigger] r@[j] == refs@[j] as i32,
        decreases refs@.len() - i,
    {
        r.push(refs[i] as i32);
        i = i + 1;
    }
    r
}

/// The FMI boolean for a wire boolean: 1 for true, 0 for false.
pub open spec fn fmi_boolean_of(b: bool) -> fmi3Boolean {
    if b {
        1
    } else {
        0
    }
}

/// Converts wire booleans (or clock ticks) to FMI booleans.
pub fn booleans_to_fmi(values: &[bool]) -> (r: Vec<fmi3Boolean>)
    ensures
        r@.len() == values@.len(),
        forall|i: int| 0 <= i < values@.len() ==> #[trigger] r@[i] == fmi_boolean_of(values@[i]),
{
    let mut r: Vec<fmi3Boolean> = Vec::with_capacity(values.len());
    let mut i: usize = 0;
    while i < values.len()
        invariant
            i <= values@.len(),
            r@.len() == i,
            forall|j: int| 0 <= j < i ==> #[trigger] r@[j] == fmi_boolean_of(values@[j]),
        decreases values@.len() - i,
    {
        r.push(if values[i] { 1 } else { 0 });
        i = i + 1;
    }
    r
}

/// Converts FMI booleans (or clock values) to wire booleans: every non-zero
/// value is true.
pub fn booleans_to_proto(values: &[fmi3Boolean]) -> (r: Vec<bool>)
    ensures
        r@.len() == values@.len(),
        forall|i: int| 0 <= i < values@.len() ==> #[trigger] r@[i] == (values@[i] != 0),
{
    let mut r: Vec<bool> = Vec::with_capacity(values.len());
    let mut i: usize = 0;
    while i < values.len()
        invariant
            i <= values@.len(),
            r@.len() == i,
            forall|j: int| 0 <= j < i ==> #[trigger] r@[j] == (values@[j] != 0),
        decreases values@.len() - i,
    {
        r.push(values[i] != 0);
        i = i + 1;
    }
    r
}

/// Widens `Int8` values to their 32-bit wire form.
pub fn widen_i8(values: &[i8]) -> (r: Vec<i32>)
    ensures
        r@.len() == values@.len(),
        forall|i: int| 0 <= i < values@.len() ==> #[trigger] r@[i] == values@[i] as i32,
{
    let mut r: Vec<i32> = Vec::with_capacity(values.len());
    let mut i: usize = 0;
    while i < values.len()
        invariant
            i <= values@.len(),
            r@.len() == i,
            forall|j: int| 0 <= j < i ==> #[trigger] r@[j] == values@[j] as i32,
        decreases values@.len() - i,
    {
        r.push(values[i] as i32);
        i = i + 1;
    }
    r
}

/// Widens `Int16` values to their 32-bit wire form.
pub fn widen_i16(values: &[i16]) -> (r: Vec<i32>)
    ensures
        r@.len() == values@.len(),
        forall|i: int| 0 <= i < values@.len() ==> #[trigger] r@[i] == values@[i] as i32,
{
    let mut r: Vec<i32> = Vec::with_capacity(values.len());
    let mut i: usize = 0;
    while i < values.len()
        invariant
            i <= values@.len(),
            r@.len() == i,
            forall|j: int| 0 <= j < i ==> #[trigger] r@[j] == values@[j] as i32,
        decreases values@.len() - i,
    {
        r.push(values[i] as i32);
        i = i + 1;
    }
    r
}

/// Widens `UInt8` values to their 32-bit wire form.
pub fn widen_u8(values: &[u8]) -> (r: Vec<u32>)
    ensures
        r@.len() == values@.len(),
        forall|i: int| 0 <= i < values@.len() ==> #[trigger] r@[i] == values@[i] as u32,
{
    let mut r: Vec<u32> = Vec::with_capacity(values.len());
    let mut i: usize = 0;
    while i < values.len()
        invariant
            i <= values@.len(),
            r@.len() == i,
            forall|j: int| 0 <= j < i ==> #[trigger] r@[j] == values@[j] as u32,
        decreases values@.len() - i,
    {
        r.push(values[i] as u32);
        i = i + 1;
    }
    r
}

/// Widens `UInt16` values to their 32-bit wire form.
pub fn widen_u16(values: &[u16]) -> (r: Vec<u32>)
    ensures
        r@.len() == values@.len(),
        forall|i: int| 0 <= i < values@.len() ==> #[trigger] r@[i] == values@[i] as u32,
{
    let mut r: Vec<u32> = Vec::with_capacity(values.len());
    let mut i: usize = 0;
    while i < values.len()
        invariant
            i <= values@.len(),
            r@.len() == i,
            forall|j: int| 0 <= j < i ==> #[trigger] r@[j] == values@[j] as u32,
        decreases values@.len() - i,
    {
        r.push(values[i] as u32);
        i = i + 1;
    }
    r
}

/// Narrows 32-bit wire values to `Int8`, keeping the low 8 bits.
pub fn narrow_to_i8(values: &[i32]) -> (r: Vec<i8>)
    ensures
        r@.len() == values@.len(),
        forall|i: int| 0 <= i < values@.len() ==> #[trigger] r@[i] == values@[i] as i8,
{
    let mut r: Vec<i8> = Vec::with_capacity(values.len());
    let mut i: usize = 0;
    while i < values.len()
        invariant
            i <= values@.len(),
            r@.len() == i,
            forall|j: int| 0 <= j < i ==> #[trigger] r@[j] == values@[j] as i8,
        decreases values@.len() - i,
    {
        r.push(values[i] as i8);
        i = i + 1;
    }
    r
}

/// Narrows 32-bit wire values to `Int16`, keeping the low 16 bits.
pub fn narrow_to_i16(values: &[i32]) -> (r: Vec<i16>)
    ensures
        r@.len() == values@.len(),
        forall|i: int| 0 <= i < values@.len() ==> #[trigger] r@[i] == values@[i] as i16,
{
    let mut r: Vec<i16> = Vec::with_capacity(values.len());
    let mut i: usize = 0;
    while i < values.len()
        invariant
            i <= values@.len(),
            r@.len() == i,
            forall|j: int| 0 <= j < i ==> #[trigger] r@[j] == values@[j] as i16,
        decreases values@.len() - i,
    {
        r.push(values[i] as i16);
        i = i + 1;
    }
    r
}

/// Narrows 32-bit wire values to `UInt8`, keeping the low 8 bits.
pub fn narrow_to_u8(values: &[u32]) -> (r: Vec<u8>)
    ensures
        r@.len() == values@.len(),
        forall|i: int| 0 <= i < values@.len() ==> #[trigger] r@[i] == values@[i] as u8,
{
    let mut r: Vec<u8> = Vec::with_capacity(values.len());
    let mut i: usize = 0;
    while i < values.len()
        invariant
            i <= values@.len(),
            r@.len() == i,
            forall|j: int| 0 <= j < i ==> #[trigger] r@[j] == values@[j] as u8,
        decreases values@.len() - i,
    {
        r.push(values[i] as u8);
        i = i + 1;
    }
    r
}

/// Narrows 32-bit wire values to `UInt16`, keeping the low 16 bits.
pub fn narrow_to_u16(values: &[u32]) -> (r: Vec<u16>)
    ensures
        r@.len() == values@.len(),
        forall|i: int| 0 <= i < values@.len() ==> #[trigger] r@[i] == values@[i] as u16,
{
    let mut r: Vec<u16> = Vec::with_capacity(values.len());
    let mut i: usize = 0;
    while i < values.len()
        invariant
            i <= values@.len(),
            r@.len() == i,
            forall|j: int| 0 <= j < i ==> #[trigger] r@[j] == values@[j] as u16,
        decreases values@.len() - i,
    {
        r.push(values[i] as u16);
        i = i + 1;
    }
    r
}

/// The number of received values that are written to a caller's buffer of
/// `capacity` values: as many as arrived, but no more than fit.
pub open spec fn written_count(received: int, capacity: int) -> int {
    if received < capacity {
        received
    } else {
        capacity
    }
}

/// Everything that arrived is written when it fits, and the buffer is
/// filled when more arrived: the count written is the smaller of the two,
/// never more than either.
pub proof fn lemma_written_count_is_the_smaller(received: int, capacity: int)
    requires
        0 <= received,
        0 <= capacity,
    ensures
        written_count(received, capacity) <= received,
        written_count(received, capacity) <= capacity,
        received <= capacity ==> written_count(received, capacity) == received,
        capacity <= received ==> written_count(received, capacity) == capacity,
{
}

/// The values that are written to a caller's buffer of `capacity` values:
/// the first received values, as many as fit.
pub fn values_to_write<T: Copy>(received: &[T], capacity: usize) -> (r: Vec<T>)
    ensures
        r@ == received@.take(written_count(received@.len() as int, capacity as int)),
        received@.len() <= capacity ==> r@ == received@,
        received@.len() > capacity ==> r@ == received@.take(capacity as int),
{
    let n = if received.len() < capacity {
        received.len()
    } else {
        capacity
    };
    let mut r: Vec<T> = Vec::with_capacity(n);
    let mut i: usize = 0;
    while i < n
        invariant
            n == written_count(received@.len() as int, capacity as int),
            n <= received@.len(),
            i <= n,
            r@ == received@.take(i as int),
        decreases n - i,
    {
        r.push(received[i]);
        proof {
            assert(received@.take(i as int).push(received@[i as int]) =~= received@.take(
                i as int + 1,
            ));
        }
        i = i + 1;
    }
    proof {
        if received@.len() <= capacity {
            assert(received@.take(received@.len() as int) =~= received@);
        }
    }
    r
}

/// Narrowing a widened value gives it back, for every 8- and 16-bit type.
pub proof fn lemma_widen_narrow_roundtrip(a: i8, b: i16, c: u8, d: u16)
    ensures
        (a as i32) as i8 == a,
        (b as i32) as i16 == b,
        (c as u32) as u8 == c,
        (d as u32) as u16 == d,
{
}

/// Converting a boolean to FMI form and back gives it again.
pub proof fn lemma_boolean_roundtrip(b: bool)
    ensures
        (fmi_boolean_of(b) != 0) == b,
{
}

/// A value reference survives the trip to the wire and back.
pub proof fn lemma_value_reference_roundtrip(vr: fmi3ValueReference)
    ensures
        ((vr as i32) as u32) == vr,
{
    assert(((vr as i32) as u32) == vr) by (bit_vector);
}

} // verus!
