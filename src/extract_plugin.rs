use vstd::prelude::*;

verus! {

/// The schedule in which data of the simulation store is extracted into the
/// render store. It runs on the render store, which holds the simulation
/// store for its duration; its deferred commands are applied later, during
/// the render schedule, so that they run beside the next simulation frame.
#[derive(Clone, Copy, Debug, PartialEq, Eq, Hash, Default)]
pub struct ExtractSchedule;

/// The two sides after a lend: (simulation side, render side).
pub open spec fn lent_sides<W>(main: W, scratch: W) -> (W, W) {
    (scratch, main)
}

/// The two sides after a reclaim: (simulation side, placeholder handed back).
pub open spec fn reclaimed_sides<W>(main: W, lent: W) -> (W, W) {
    (lent, main)
}

/// Moves the simulation store out for extraction, leaving the placeholder
/// in its place so that the simulation side is never observed empty.
/// Returns the store, for the render store to hold while extraction runs.
pub fn lend_main_world<W>(main: &mut W, scratch: W) -> (lent: W)
    ensures
        (*final(main), lent) == lent_sides(*old(main), scratch),
{
    let mut lent = scratch;
    core::mem::swap(main, &mut lent);
    lent
}

/// Moves the simulation store back after extraction, and returns the
/// placeholder for the next frame, so that none is allocated per frame.
pub fn reclaim_main_world<W>(main: &mut W, lent: W) -> (scratch: W)
    ensures
        (*final(main), scratch) == reclaimed_sides(*old(main), lent),
{
    let mut scratch = lent;
    core::mem::swap(main, &mut scratch);
    scratch
}

/// Extraction is a round trip for the simulation store: when extraction
/// leaves the lent store as it found it, the simulation side holds the same
/// store afterwards, and the same placeholder comes back for reuse.
pub proof fn lemma_extraction_round_trip<W>(main: W, scratch: W)
    ensures
        reclaimed_sides(lent_sides(main, scratch).0, lent_sides(main, scratch).1) == (main, scratch),
{
}

} // verus!
