//! Turning the mapped readback buffer into the image's pixels.

use crate::destride::{
    is_row_padded, lemma_stride_of_whole_rows, lemma_trim_inverts_row_padding, rows_fit,
    stride_of_buffer, trim_image_buffer, trimmed,
};
use crate::error::GpuError;
use crate::layout::{
    image_bytes_spec, lemma_row_stride_bounds, readback_bytes, readback_bytes_spec, row_bytes,
    row_bytes_spec, row_stride_spec, valid_size,
};
use vstd::prelude::*;

verus! {

/// What a buffer is mapped for.
#[derive(Clone, Copy, Debug, PartialEq, Eq)]
pub enum MapMode {
    Read,
    Write,
}

/// How the device is driven while a mapping is outstanding.
#[derive(Clone, Copy, Debug, PartialEq, Eq)]
pub enum PollMode {
    /// Look once at what has completed and return.
    Poll,
    /// Block until the submitted work has completed.
    Wait,
}

/// A request to map part of the readback buffer into host memory.
#[derive(Clone, Copy, Debug, PartialEq, Eq)]
pub struct MapRequest {
    pub offset: u64,
    pub size: u64,
    pub mode: MapMode,
    pub poll: PollMode,
}

/// The map request for an image of `width` by `height` pixels: the whole
/// readback buffer, for reading, waiting for the GPU to finish.
pub open spec fn map_request_spec(width: u32, height: u32) -> MapRequest {
    MapRequest {
        offset: 0,
        size: readback_bytes_spec(width as nat, height as nat) as u64,
        mode: MapMode::Read,
        poll: PollMode::Wait,
    }
}

/// The map request that follows the dispatch over an image of `width` by
/// `height` pixels.
pub fn map_request(width: u32, height: u32) -> (request: MapRequest)
    requires
        row_stride_spec(width as nat) <= u32::MAX,
    ensures
        request == map_request_spec(width, height),
        request.size == readback_bytes_spec(width as nat, height as nat),
{
    MapRequest {
        offset: 0,
        size: readback_bytes(width, height),
        mode: MapMode::Read,
        poll: PollMode::Wait,
    }
}

/// The pixels that a readback buffer holds for an image of `width` by
/// `height` pixels: of each row of `row_stride_spec(width)` bytes, the first
/// `4 * width`.
pub open spec fn pixels_of_readback(width: nat, height: nat, readback: Seq<u8>) -> Seq<u8> {
    trimmed(row_bytes_spec(width), height, readback)
}

/// A readback buffer of the planned size holds whole rows at the planned
/// stride, and each row holds the image's row.
pub proof fn lemma_readback_rows(width: nat, height: nat, readback: Seq<u8>)
    requires
        height >= 1,
        readback.len() == readback_bytes_spec(width, height),
    ensures
        stride_of_buffer(readback.len(), height) == row_stride_spec(width),
        rows_fit(row_bytes_spec(width), height, readback.len()),
        pixels_of_readback(width, height, readback).len() == image_bytes_spec(width, height),
{
    let stride = row_stride_spec(width);
    lemma_row_stride_bounds(width);
    lemma_stride_of_whole_rows(stride, height);
    assert((height - 1) * stride + stride == stride * height) by (nonlinear_arith);
}

/// Where the kernel copies its input, reading back returns the input: a
/// readback buffer whose rows hold the rows of `pixels` gives `pixels`
/// again, with the length it had, whatever the padding holds.
pub proof fn lemma_identity_round_trip(
    width: nat,
    height: nat,
    pixels: Seq<u8>,
    readback: Seq<u8>,
)
    requires
        height >= 1,
        is_row_padded(readback, pixels, row_bytes_spec(width), height, row_stride_spec(width)),
    ensures
        pixels_of_readback(width, height, readback) == pixels,
{
    lemma_trim_inverts_row_padding(
        readback,
        pixels,
        row_bytes_spec(width),
        height,
        row_stride_spec(width),
    );
}

/// Decides what the answer to the map request gives: from the mapped bytes of
/// the readback buffer the image's pixels without the padding of the rows,
/// and failure where the buffer could not be mapped.
pub fn read_pixels(width: u32, height: u32, mapped: Option<&[u8]>) -> (pixels: Result<
    Vec<u8>,
    GpuError,
>)
    requires
        valid_size(width, height),
        mapped matches Some(bytes) ==> bytes@.len() == readback_bytes_spec(
            width as nat,
            height as nat,
        ),
    ensures
        mapped is None ==> pixels == Err::<Vec<u8>, GpuError>(GpuError::ReadbackFailed),
        mapped matches Some(bytes) ==> {
            &&& pixels matches Ok(packed)
            &&& packed@ == pixels_of_readback(width as nat, height as nat, bytes@)
            &&& packed@.len() == 4 * width * height
            &&& forall|i: int, j: int|
                0 <= i < height && 0 <= j < 4 * width ==> #[trigger] packed@[i * (4 * width) + j]
                    == bytes@[i * row_stride_spec(width as nat) + j]
        },
{
    match mapped {
        None => Err(GpuError::ReadbackFailed),
        Some(bytes) => {
            proof {
                lemma_readback_rows(width as nat, height as nat, bytes@);
            }
            Ok(trim_image_buffer(row_bytes(width), height, bytes))
        },
    }
}

} // verus!
