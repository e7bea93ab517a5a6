//! Decisions that the server's query handlers make around each FMU call:
//! registering new instances, laying binary values out for the FMU and
//! reading them back, and preparing strings for the FMU's C interface.
use crate::instance_manager::{InstanceHandle, InstanceManager};
use vstd::prelude::*;
use vstd::utf8::encode_utf8;

verus! {

/// Why a handler could not serve a request.
#[derive(Debug, Clone, Copy, PartialEq, Eq, Structural)]
pub enum HandlerError {
    /// The FMU returned no instance.
    InstantiationFailed,
    /// A string holds a NUL byte, so the FMU's C interface cannot take it.
    InteriorNul,
}

/// Records the instance that an FMU instantiation returned and yields the
/// index under which clients name it. A null instance (handle 0) means the
/// instantiation failed: nothing is recorded.
pub fn register_instance(manager: &mut InstanceManager, instance: InstanceHandle) -> (r: Result<
    i32,
    HandlerError,
>)
    requires
        old(manager).next_index() < i32::MAX,
    ensures
        instance == 0 ==> {
            &&& r == Err::<i32, HandlerError>(HandlerError::InstantiationFailed)
            &&& final(manager)@ == old(manager)@
            &&& final(manager).next_index() == old(manager).next_index()
        },
        instance != 0 ==> {
            &&& r == Ok::<i32, HandlerError>(old(manager).next_index() as i32)
            &&& !old(manager)@.contains_key(old(manager).next_index() as i32)
            &&& final(manager)@ == old(manager)@.insert(old(manager).next_index() as i32, instance)
            &&& final(manager).next_index() == old(manager).next_index() + 1
        },
{
    if instance == 0 {
        return Err(HandlerError::InstantiationFailed);
    }
    Ok(manager.add_instance(instance))
}

/// The bytes of all values, one after the other.
pub open spec fn concat_bytes(values: Seq<Vec<u8>>) -> Seq<u8>
    decreases values.len(),
{
    if values.len() == 0 {
        Seq::empty()
    } else {
        concat_bytes(values.drop_last()) + values.last()@
    }
}

/// The sum of all sizes.
pub open spec fn total_size(sizes: Seq<usize>) -> int
    decreases sizes.len(),
{
    if sizes.len() == 0 {
        0
    } else {
        total_size(sizes.drop_last()) + sizes.last()
    }
}

/// Where value `i` starts in a buffer that holds values of the given sizes
/// one after the other.
pub open spec fn offset_of(sizes: Seq<usize>, i: int) -> int {
    total_size(sizes.take(i))
}

/// Value `i` of a buffer that holds values of the given sizes one after the
/// other.
pub open spec fn piece(buffer: Seq<u8>, sizes: Seq<usize>, i: int) -> Seq<u8> {
    buffer.subrange(offset_of(sizes, i), offset_of(sizes, i) + sizes[i])
}

proof fn lemma_total_size_step(sizes: Seq<usize>, i: int)
    requires
        0 <= i < sizes.len(),
    ensures
        total_size(sizes.take(i + 1)) == total_size(sizes.take(i)) + sizes[i],
{
    assert(sizes.take(i + 1).drop_last() =~= sizes.take(i));
}

proof fn lemma_total_size_prefix(sizes: Seq<usize>, i: int)
    requires
        0 <= i <= sizes.len(),
    ensures
        0 <= total_size(sizes.take(i)) <= total_size(sizes),
    decreases sizes.len() - i,
{
    if i == sizes.len() {
        assert(sizes.take(i) =~= sizes);
        lemma_total_size_nonneg(sizes);
    } else {
        lemma_total_size_step(sizes, i);
        lemma_total_size_prefix(sizes, i + 1);
        lemma_total_size_nonneg(sizes.take(i));
    }
}

proof fn lemma_total_size_nonneg(sizes: Seq<usize>)
    ensures
        total_size(sizes) >= 0,
    decreases sizes.len(),
{
    if sizes.len() > 0 {
        lemma_total_size_nonneg(sizes.drop_last());
    }
}

/// Lays binary values out for the FMU: the size of each value, and all
/// values one after the other in one buffer.
pub fn pack_binary_values(values: &[Vec<u8>]) -> (r: (Vec<usize>, Vec<u8>))
    ensures
        r.0@.len() == values@.len(),
        forall|i: int| 0 <= i < values@.len() ==> #[trigger] r.0@[i] == values@[i]@.len(),
        r.1@ == concat_bytes(values@),
        total_size(r.0@) == r.1@.len(),
{
    let mut sizes: Vec<usize> = Vec::with_capacity(values.len());
    let mut buffer: Vec<u8> = Vec::new();
    let mut i: usize = 0;
    while i < values.len()
        invariant
            i <= values@.len(),
            sizes@.len() == i,
            forall|j: int| 0 <= j < i ==> #[trigger] sizes@[j] == values@[j]@.len(),
            buffer@ == concat_bytes(values@.take(i as int)),
        decreases values@.len() - i,
    {
        let value = &values[i];
        sizes.push(value.len());
        let ghost before = buffer@;
        buffer.extend_from_slice(value.as_slice());
        proof {
            assert(buffer@ =~= before + values@[i as int]@);
            assert(values@.take(i as int + 1).drop_last() =~= values@.take(i as int));
        }
        i = i + 1;
    }
    proof {
        assert(values@.take(values@.len() as int) =~= values@);
        lemma_concat_len(values@, sizes@);
    }
    (sizes, buffer)
}

/// Where each value starts in a buffer that holds values of the given sizes
/// one after the other.
pub fn binary_offsets(sizes: &[usize]) -> (r: Vec<usize>)
    requires
        total_size(sizes@) <= usize::MAX,
    ensures
        r@.len() == sizes@.len(),
        forall|i: int| 0 <= i < sizes@.len() ==> #[trigger] r@[i] == offset_of(sizes@, i),
{
    let mut r: Vec<usize> = Vec::with_capacity(sizes.len());
    let mut offset: usize = 0;
    let mut i: usize = 0;
    while i < sizes.len()
        invariant
            i <= sizes@.len(),
            total_size(sizes@) <= usize::MAX,
            r@.len() == i,
            offset == offset_of(sizes@, i as int),
            forall|j: int| 0 <= j < i ==> #[trigger] r@[j] == offset_of(sizes@, j),
        decreases sizes@.len() - i,
    {
        r.push(offset);
        proof {
            lemma_total_size_step(sizes@, i as int);
            lemma_total_size_prefix(sizes@, i as int + 1);
        }
        offset = offset + sizes[i];
        i = i + 1;
    }
    r
}

/// Reads binary values back out of a buffer that holds values of the given
/// sizes one after the other.
pub fn split_binary_buffer(buffer: &[u8], sizes: &[usize]) -> (r: Vec<Vec<u8>>)
    requires
        total_size(sizes@) <= buffer@.len(),
    ensures
        r@.len() == sizes@.len(),
        forall|i: int| 0 <= i < sizes@.len() ==> #[trigger] r@[i]@ == piece(buffer@, sizes@, i),
{
    let buffer_len = buffer.len();
    let mut r: Vec<Vec<u8>> = Vec::with_capacity(sizes.len());
    let mut offset: usize = 0;
    let mut i: usize = 0;
    while i < sizes.len()
        invariant
            i <= sizes@.len(),
            total_size(sizes@) <= buffer@.len(),
            buffer_len == buffer@.len(),
            r@.len() == i,
            offset == offset_of(sizes@, i as int),
            forall|j: int| 0 <= j < i ==> #[trigger] r@[j]@ == piece(buffer@, sizes@, j),
        decreases sizes@.len() - i,
    {
        proof {
            lemma_total_size_step(sizes@, i as int);
            lemma_total_size_prefix(sizes@, i as int + 1);
        }
        let end = offset + sizes[i];
        let value = vstd::slice::slice_to_vec(vstd::slice::slice_subrange(buffer, offset, end));
        r.push(value);
        offset = end;
        i = i + 1;
    }
    r
}

proof fn lemma_concat_len(values: Seq<Vec<u8>>, sizes: Seq<usize>)
    requires
        sizes.len() == values.len(),
        forall|j: int| 0 <= j < values.len() ==> #[trigger] sizes[j] == values[j]@.len(),
    ensures
        concat_bytes(values).len() == total_size(sizes),
    decreases values.len(),
{
    if values.len() > 0 {
        lemma_concat_len(values.drop_last(), sizes.drop_last());
    }
}

/// Reading back what `pack_binary_values` laid out gives every value again:
/// value `i` of the packed buffer, at the packed sizes, is the `i`-th input.
pub proof fn lemma_split_inverts_pack(values: Seq<Vec<u8>>, sizes: Seq<usize>, i: int)
    requires
        sizes.len() == values.len(),
        forall|j: int| 0 <= j < values.len() ==> #[trigger] sizes[j] == values[j]@.len(),
        0 <= i < values.len(),
    ensures
        total_size(sizes) == concat_bytes(values).len(),
        piece(concat_bytes(values), sizes, i) == values[i]@,
    decreases values.len(),
{
    lemma_concat_len(values, sizes);
    let n = values.len() - 1;
    let front = values.drop_last();
    let front_sizes = sizes.drop_last();
    lemma_concat_len(front, front_sizes);
    assert(concat_bytes(values) == concat_bytes(front) + values.last()@);
    if i == n {
        assert(sizes.take(i) =~= front_sizes);
        assert(piece(concat_bytes(values), sizes, i) =~= values[i]@);
    } else {
        lemma_split_inverts_pack(front, front_sizes, i);
        assert(sizes.take(i) =~= front_sizes.take(i));
        lemma_total_size_step(front_sizes, i);
        lemma_total_size_prefix(front_sizes, i + 1);
        let off = offset_of(sizes, i);
        assert(off == offset_of(front_sizes, i));
        assert(off + sizes[i] <= concat_bytes(front).len());
        lemma_total_size_nonneg(front_sizes.take(i));
        assert(concat_bytes(values).subrange(off, off + sizes[i]) =~= concat_bytes(front).subrange(
            off,
            off + sizes[i],
        ));
    }
}

/// Whether a string's UTF-8 bytes hold a NUL byte.
pub open spec fn has_nul(s: Seq<char>) -> bool {
    encode_utf8(s).contains(0u8)
}

/// Whether `s` holds a NUL byte, which a C string cannot carry.
pub fn contains_nul(s: &str) -> (b: bool)
    ensures
        b == has_nul(s@),
{
    let bytes = s.as_bytes();
    let mut i: usize = 0;
    while i < bytes.len()
        invariant
            bytes@ == encode_utf8(s@),
            i <= bytes@.len(),
            forall|j: int| 0 <= j < i ==> bytes@[j] != 0u8,
        decreases bytes@.len() - i,
    {
        if bytes[i] == 0 {
            proof {
                assert(bytes@[i as int] == 0u8);
            }
            return true;
        }
        i = i + 1;
    }
    false
}

/// The text that the FMU receives for a string value: the string itself, or
/// the empty string where it holds a NUL byte.
pub fn c_string_or_empty(s: &str) -> (r: String)
    ensures
        r@ == (if has_nul(s@) {
            Seq::<char>::empty()
        } else {
            s@
        }),
{
    if contains_nul(s) {
        String::new()
    } else {
        String::from_str(s)
    }
}

/// Checks that every string can be handed to the FMU as a C string.
pub fn check_c_strings(strings: &[String]) -> (r: Result<(), HandlerError>)
    ensures
        r is Ok <==> (forall|i: int| 0 <= i < strings@.len() ==> !has_nul(#[trigger] strings@[i]@)),
        r is Err ==> r == Err::<(), HandlerError>(HandlerError::InteriorNul),
{
    let mut i: usize = 0;
    while i < strings.len()
        invariant
            i <= strings@.len(),
            forall|j: int| 0 <= j < i ==> !has_nul(#[trigger] strings@[j]@),
        decreases strings@.len() - i,
    {
        if contains_nul(strings[i].as_str()) {
            return Err(HandlerError::InteriorNul);
        }
        i = i + 1;
    }
    Ok(())
}

/// The number of elements that a request's count selects from a list of
/// `available` elements: the count itself when it is neither negative nor
/// beyond the list, `None` otherwise (the FMU would read past the list).
pub fn count_within(count: i32, available: usize) -> (r: Option<usize>)
    ensures
        r == (if 0 <= count && count <= available {
            Some(count as usize)
        } else {
            None::<usize>
        }),
{
    if count < 0 {
        return None;
    }
    let n = count as u32 as usize;
    if n <= available {
        Some(n)
    } else {
        None
    }
}

/// Whether values of the given sizes, one after the other, fit in a buffer
/// of `capacity` bytes.
pub fn sizes_fit(sizes: &[usize], capacity: usize) -> (b: bool)
    ensures
        b == (total_size(sizes@) <= capacity),
{
    let mut total: usize = 0;
    let mut i: usize = 0;
    while i < sizes.len()
        invariant
            i <= sizes@.len(),
            total == total_size(sizes@.take(i as int)),
            total <= capacity,
        decreases sizes@.len() - i,
    {
        proof {
            lemma_total_size_step(sizes@, i as int);
        }
        if sizes[i] > capacity - total {
            proof {
                lemma_total_size_prefix(sizes@, i as int + 1);
            }
            return false;
        }
        total = total + sizes[i];
        i = i + 1;
    }
    proof {
        assert(sizes@.take(sizes@.len() as int) =~= sizes@);
    }
    true
}

} // verus!
