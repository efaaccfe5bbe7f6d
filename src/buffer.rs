use vstd::prelude::*;
use crate::format::{PixelFormat, BYTES_PER_PIXEL};

verus! {

/// Largest byte count that a shared-memory pool request can carry.
pub const MAX_POOL_BYTES: u32 = 0x7fff_ffff;

/// The shape of one shared-memory buffer: a segment of `size` bytes holding
/// `height` rows of `stride` bytes, each row `width` pixels of `format`.
#[derive(Clone, Copy, Debug, PartialEq, Eq, Structural)]
pub struct BufferPlan {
    pub format: PixelFormat,
    pub width: u32,
    pub height: u32,
    pub stride: u32,
    pub size: u32,
}

/// Whether a buffer of `width` by `height` pixels fits the protocol's limits.
pub open spec fn buffer_fits(width: u32, height: u32) -> bool {
    &&& width * 4 <= MAX_POOL_BYTES
    &&& width * 4 * height <= MAX_POOL_BYTES
}

impl BufferPlan {
    /// Rows are packed at four bytes per pixel and the segment holds all rows.
    pub open spec fn wf(&self) -> bool {
        &&& self.stride == self.width * 4
        &&& self.size == self.stride * self.height
        &&& self.size <= MAX_POOL_BYTES
        &&& self.stride <= MAX_POOL_BYTES
    }
}

/// Computes the buffer for a region of `width` by `height` pixels in `format`:
/// stride is `width * 4` and size is `stride * height`. There is none where
/// those numbers exceed what a pool request can carry.
pub fn plan_buffer(format: PixelFormat, width: u32, height: u32) -> (r: Option<BufferPlan>)
    ensures
        r is Some <==> buffer_fits(width, height),
        r matches Some(p) ==> {
            &&& p.wf()
            &&& p.format == format
            &&& p.width == width
            &&& p.height == height
        },
{
    let stride: u64 = width as u64 * BYTES_PER_PIXEL as u64;
    if stride > MAX_POOL_BYTES as u64 {
        return None;
    }
    assert(stride * height <= 0x7fff_ffff * 0xffff_ffff) by (nonlinear_arith)
        requires
            stride <= 0x7fff_ffff,
            height <= 0xffff_ffff,
    ;
    let size: u64 = stride * height as u64;
    if size > MAX_POOL_BYTES as u64 {
        return None;
    }
    Some(BufferPlan { format, width, height, stride: stride as u32, size: size as u32 })
}

} // verus!
