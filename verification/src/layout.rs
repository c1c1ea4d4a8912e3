//! Sizes of the rows and buffers that carry an RGBA8 image to the GPU and back.

use crate::align::{align_up, align_up_spec, lemma_align_up_least_multiple};
use vstd::arithmetic::power2::is_pow2;
use vstd::prelude::*;

verus! {

/// Bytes that one RGBA8 pixel takes: four channels of eight bits.
pub const BYTES_PER_PIXEL: u32 = 4;

/// The widest image, in pixels, whose aligned row stride still fits in 32 bits.
pub const MAX_WIDTH: u32 = 0x3FFF_FFC0;

/// The alignment in bytes that a copy between a texture and a buffer demands
/// of the buffer's row stride.
pub open spec fn row_alignment() -> nat {
    256
}

/// Bytes of pixel data in one row of an image `width` pixels wide.
pub open spec fn row_bytes_spec(width: nat) -> nat {
    BYTES_PER_PIXEL as nat * width
}

/// Bytes from the start of one row to the start of the next in a buffer that
/// a texture `width` pixels wide is copied into.
pub open spec fn row_stride_spec(width: nat) -> nat {
    align_up_spec(row_bytes_spec(width), row_alignment())
}

/// Bytes of pixel data in an image of `width` by `height` pixels.
pub open spec fn image_bytes_spec(width: nat, height: nat) -> nat {
    row_bytes_spec(width) * height
}

/// Bytes of the buffer that receives a texture of `width` by `height` pixels.
pub open spec fn readback_bytes_spec(width: nat, height: nat) -> nat {
    row_stride_spec(width) * height
}

/// An image has at least one pixel in each direction and rows narrow enough
/// for their stride to be a 32-bit number.
pub open spec fn valid_size(width: u32, height: u32) -> bool {
    &&& 1 <= width
    &&& 1 <= height
    &&& row_stride_spec(width as nat) <= u32::MAX
}

/// The stride of a row holds the row, is a multiple of the alignment, and
/// wastes less than one alignment unit.
pub proof fn lemma_row_stride_bounds(width: nat)
    ensures
        row_stride_spec(width) >= row_bytes_spec(width),
        row_stride_spec(width) % row_alignment() == 0,
        row_stride_spec(width) - row_bytes_spec(width) < row_alignment(),
{
    lemma_align_up_least_multiple(row_bytes_spec(width), row_alignment());
}

/// The stride fits in 32 bits exactly for widths up to `MAX_WIDTH`.
pub proof fn lemma_row_stride_fits(width: u32)
    ensures
        width <= MAX_WIDTH <==> row_stride_spec(width as nat) <= u32::MAX,
{
    lemma_align_up_least_multiple(row_bytes_spec(width as nat), row_alignment());
    if width <= MAX_WIDTH {
        lemma_align_up_least_multiple(row_bytes_spec(MAX_WIDTH as nat), row_alignment());
    }
}

/// The bytes of an image of valid size fit in 64 bits, and so do the bytes of
/// its readback buffer, which are at least as many.
pub proof fn lemma_valid_size_bytes_fit(width: u32, height: u32)
    requires
        valid_size(width, height),
    ensures
        image_bytes_spec(width as nat, height as nat) <= readback_bytes_spec(
            width as nat,
            height as nat,
        ) <= u64::MAX,
{
    lemma_row_stride_bounds(width as nat);
    let row = row_bytes_spec(width as nat);
    let stride = row_stride_spec(width as nat);
    assert(row * height <= stride * height <= u64::MAX) by (nonlinear_arith)
        requires
            row <= stride <= u32::MAX,
            height <= u32::MAX,
    ;
}

/// Reads `wgpu::COPY_BYTES_PER_ROW_ALIGNMENT`, the row alignment that `wgpu`
/// requires of copies between buffers and textures. Not proved: that the
/// crate defines this constant as 256.
#[verifier::external_body]
fn copy_bytes_per_row_alignment() -> (alignment: u32)
    ensures
        alignment == row_alignment(),
{
    wgpu::COPY_BYTES_PER_ROW_ALIGNMENT
}

/// Tells whether an image of `width` by `height` pixels can be laid out.
pub fn is_valid_size(width: u32, height: u32) -> (valid: bool)
    ensures
        valid == valid_size(width, height),
{
    proof {
        lemma_row_stride_fits(width);
    }
    1 <= width && width <= MAX_WIDTH && 1 <= height
}

/// Bytes of pixel data in one row of an image `width` pixels wide.
pub fn row_bytes(width: u32) -> (bytes: u32)
    requires
        row_bytes_spec(width as nat) <= u32::MAX,
    ensures
        bytes == row_bytes_spec(width as nat),
{
    BYTES_PER_PIXEL * width
}

/// The row stride of the buffer that a texture `width` pixels wide is copied
/// into: the row's bytes rounded up to the copy alignment.
pub fn row_stride(width: u32) -> (stride: u32)
    requires
        row_stride_spec(width as nat) <= u32::MAX,
    ensures
        stride == row_stride_spec(width as nat),
        stride >= 4 * width,
        stride % 256 == 0,
        stride - 4 * width < 256,
{
    let alignment = copy_bytes_per_row_alignment();
    proof {
        reveal_with_fuel(is_pow2, 10);
        lemma_row_stride_fits(width);
        lemma_row_stride_bounds(width as nat);
    }
    align_up(row_bytes(width), alignment)
}

/// Bytes of the buffer that receives a texture of `width` by `height` pixels.
pub fn readback_bytes(width: u32, height: u32) -> (bytes: u64)
    requires
        row_stride_spec(width as nat) <= u32::MAX,
    ensures
        bytes == readback_bytes_spec(width as nat, height as nat),
{
    let stride = row_stride(width);
    proof {
        assert(stride * height <= u64::MAX) by (nonlinear_arith)
            requires
                stride <= u32::MAX,
                height <= u32::MAX,
        ;
    }
    stride as u64 * height as u64
}

/// Bytes of pixel data in an image of `width` by `height` pixels.
pub fn image_bytes(width: u32, height: u32) -> (bytes: u64)
    requires
        image_bytes_spec(width as nat, height as nat) <= u64::MAX,
    ensures
        bytes == image_bytes_spec(width as nat, height as nat),
{
    let row: u64 = BYTES_PER_PIXEL as u64 * width as u64;
    row * height as u64
}

} // verus!
