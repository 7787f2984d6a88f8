use vstd::prelude::*;

verus! {

/// A process-unique identifier for a universe. Allocated from a monotonic
/// counter owned by the supervisor; never reused for the life of the process.
pub type UniverseId = usize;

/// Allocates the next universe id from the given counter.
///
/// Later allocations from the same counter return strictly greater ids.
pub fn new_universe_id(next: &mut UniverseId) -> (id: UniverseId)
    requires
        *old(next) < usize::MAX,
    ensures
        id == *old(next),
        *final(next) == *old(next) + 1,
{
    let id: UniverseId = *next;
    *next = *next + 1;
    id
}

} // verus!
