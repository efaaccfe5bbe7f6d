use vstd::prelude::*;

verus! {

/// The 32-bit packed pixel layouts that a capture may be negotiated in.
#[derive(Clone, Copy, Debug, PartialEq, Eq, Structural)]
pub enum PixelFormat {
    Xrgb8888,
    Argb8888,
    Xbgr8888,
    Abgr8888,
}

/// Number of candidate formats tried by one capture.
pub const CANDIDATE_COUNT: usize = 4;

/// Every candidate format takes four bytes per pixel.
pub const BYTES_PER_PIXEL: u32 = 4;

/// The candidate formats in negotiation priority, most likely supported first.
pub open spec fn candidate(i: int) -> PixelFormat
    recommends
        0 <= i < CANDIDATE_COUNT,
{
    if i == 0 {
        PixelFormat::Xrgb8888
    } else if i == 1 {
        PixelFormat::Argb8888
    } else if i == 2 {
        PixelFormat::Xbgr8888
    } else {
        PixelFormat::Abgr8888
    }
}

/// The candidate format at position `i` of the priority order.
pub fn candidate_at(i: usize) -> (f: PixelFormat)
    requires
        i < CANDIDATE_COUNT,
    ensures
        f == candidate(i as int),
{
    if i == 0 {
        PixelFormat::Xrgb8888
    } else if i == 1 {
        PixelFormat::Argb8888
    } else if i == 2 {
        PixelFormat::Xbgr8888
    } else {
        PixelFormat::Abgr8888
    }
}

/// The candidates are pairwise distinct, so each attempt uses a new format.
pub proof fn lemma_candidates_distinct(i: int, j: int)
    requires
        0 <= i < CANDIDATE_COUNT,
        0 <= j < CANDIDATE_COUNT,
        i != j,
    ensures
        candidate(i) != candidate(j),
{
}

} // verus!
