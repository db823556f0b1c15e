//! The memory type selector.
//!
//! A device advertises a table of memory types; each entry carries property
//! flags (device-local, CPU-visible, ...). A resource's memory requirements
//! carry a type mask whose bit `i` says that memory type `i` is compatible.
//! The selector returns the lowest-indexed type whose bit is set in the mask
//! and whose properties contain every required property. The lowest-index
//! tie-break is load-bearing for reproducibility and is pinned by the
//! contracts below.

use vstd::prelude::*;

use crate::errors::BufferError;

verus! {

/// Property bit for device-local memory.
pub const DEVICE_LOCAL: u32 = 0x1;
/// Property bit for CPU-visible (host-mappable) memory.
pub const CPU_VISIBLE: u32 = 0x2;
/// Property bit for host-coherent memory, which needs no explicit flush.
pub const COHERENT: u32 = 0x4;

/// Memory type `i` suits a resource whose requirements carry `type_mask`
/// and that needs every property in `required`.
pub open spec fn memory_type_matches(types: Seq<u32>, i: int, type_mask: u64, required: u32) -> bool {
    &&& 0 <= i < types.len()
    &&& i < 64
    &&& type_mask & (1u64 << (i as u64)) != 0
    &&& types[i] & required == required
}

/// What the selector returns: the lowest-indexed matching memory type,
/// or nothing when no type matches.
pub open spec fn selector_result(types: Seq<u32>, type_mask: u64, required: u32, r: Option<usize>) -> bool {
    match r {
        Some(i) => {
            &&& memory_type_matches(types, i as int, type_mask, required)
            &&& forall|j: int| 0 <= j < i ==> !memory_type_matches(types, j, type_mask, required)
        },
        None => forall|j: int| 0 <= j < types.len() ==> !memory_type_matches(types, j, type_mask, required),
    }
}

/// Returns the lowest index of a memory type whose bit is set in `type_mask`
/// and whose property flags contain `required`, or `None` when no entry of
/// the table qualifies. The mask has 64 bits, so a table longer than 64
/// entries could not be addressed by it; devices advertise far fewer.
pub fn find_memory_type(types: &Vec<u32>, type_mask: u64, required: u32) -> (r: Option<usize>)
    requires
        types@.len() <= 64,
    ensures
        selector_result(types@, type_mask, required, r),
{
    let mut i: usize = 0;
    while i < types.len()
        invariant
            0 <= i <= types@.len(),
            types@.len() <= 64,
            forall|j: int| 0 <= j < i ==> !memory_type_matches(types@, j, type_mask, required),
        decreases types@.len() - i,
    {
        if type_mask & (1u64 << (i as u64)) != 0 && types[i] & required == required {
            return Some(i);
        }
        i = i + 1;
    }
    None
}

/// The selector as the resource constructors use it: a missing match is the
/// hard, never-retried memory-type-not-found error.
pub fn select_memory_type(types: &Vec<u32>, type_mask: u64, required: u32) -> (r: Result<usize, BufferError>)
    requires
        types@.len() <= 64,
    ensures
        match r {
            Ok(i) => selector_result(types@, type_mask, required, Some(i)),
            Err(e) => {
                &&& e == BufferError::MemoryId
                &&& selector_result(types@, type_mask, required, None::<usize>)
            },
        },
{
    match find_memory_type(types, type_mask, required) {
        Some(i) => Ok(i),
        None => Err(BufferError::MemoryId),
    }
}

/// The selector is deterministic: for a given table, mask and property set
/// there is exactly one result that its contract admits, so repeated calls
/// with the same inputs return the same, lowest-indexed matching type, and
/// whenever at least one type matches, that result is a match with no match
/// below it.
pub proof fn lemma_selector_deterministic(
    types: Seq<u32>,
    type_mask: u64,
    required: u32,
    r1: Option<usize>,
    r2: Option<usize>,
)
    requires
        selector_result(types, type_mask, required, r1),
        selector_result(types, type_mask, required, r2),
    ensures
        r1 == r2,
{
    match (r1, r2) {
        (Some(i1), Some(i2)) => {
            if i1 < i2 {
                assert(!memory_type_matches(types, i1 as int, type_mask, required));
            } else if i2 < i1 {
                assert(!memory_type_matches(types, i2 as int, type_mask, required));
            }
        },
        (Some(i1), None) => {
            assert(!memory_type_matches(types, i1 as int, type_mask, required));
        },
        (None, Some(i2)) => {
            assert(!memory_type_matches(types, i2 as int, type_mask, required));
        },
        (None, None) => {},
    }
}

} // verus!
