//! Removing the per-row padding of a buffer that a GPU copy has filled.

use vstd::arithmetic::div_mod::{
    lemma_fundamental_div_mod, lemma_fundamental_div_mod_converse_div,
    lemma_fundamental_div_mod_converse_mod,
};
use vstd::prelude::*;

verus! {

/// The distance in bytes between the starts of two consecutive rows of a
/// buffer of `len` bytes that holds `height` rows.
pub open spec fn stride_of_buffer(len: nat, height: nat) -> nat {
    len / height
}

/// Every one of the `height` rows of `width` bytes lies inside a buffer of
/// `len` bytes whose rows start `len / height` bytes apart.
pub open spec fn rows_fit(width: nat, height: nat, len: nat) -> bool {
    &&& height >= 1
    &&& width >= 1 ==> (height - 1) * stride_of_buffer(len, height) + width <= len
}

/// The first `width` bytes of each of the `height` rows of `buffer`, row
/// after row.
pub open spec fn trimmed(width: nat, height: nat, buffer: Seq<u8>) -> Seq<u8> {
    let stride = stride_of_buffer(buffer.len(), height);
    Seq::new(width * height, |k: int| buffer[(k / width as int) * stride + k % (width as int)])
}

/// Byte `j` of row `i` sits at `i * width + j` in the trimmed sequence.
pub proof fn lemma_trimmed_index(width: nat, height: nat, buffer: Seq<u8>, i: int, j: int)
    requires
        0 <= i < height,
        0 <= j < width,
    ensures
        0 <= i * width + j < trimmed(width, height, buffer).len(),
        trimmed(width, height, buffer)[i * width + j] == buffer[i * stride_of_buffer(
            buffer.len(),
            height,
        ) + j],
{
    let k = i * width + j;
    assert(0 <= i * width && i * width + width <= width * height) by (nonlinear_arith)
        requires
            0 <= i < height,
            width > 0,
    ;
    lemma_fundamental_div_mod_converse_div(k, width as int, i, j);
    lemma_fundamental_div_mod_converse_mod(k, width as int, i, j);
}

/// Row `i` of a buffer whose rows fit starts and ends inside the buffer.
proof fn lemma_row_in_bounds(width: nat, height: nat, len: nat, i: int)
    requires
        rows_fit(width, height, len),
        width >= 1,
        0 <= i < height,
    ensures
        0 <= i * stride_of_buffer(len, height),
        i * stride_of_buffer(len, height) + width <= len,
{
    let stride = stride_of_buffer(len, height);
    assert(0 <= i * stride <= (height - 1) * stride) by (nonlinear_arith)
        requires
            0 <= i <= height - 1,
    ;
}

/// `padded` holds the `height` rows of `packed`, each `width` bytes long, at
/// the starts of rows that are `stride` bytes apart; the bytes behind each
/// row are arbitrary.
pub open spec fn is_row_padded(
    padded: Seq<u8>,
    packed: Seq<u8>,
    width: nat,
    height: nat,
    stride: nat,
) -> bool {
    &&& width <= stride
    &&& packed.len() == width * height
    &&& padded.len() == stride * height
    &&& forall|i: int, j: int|
        0 <= i < height && 0 <= j < width ==> #[trigger] padded[i * stride + j] == packed[i * width
            + j]
}

/// Trimming undoes row padding: from a buffer that holds an image's rows at
/// a stride, it gives back the image, whatever the padding holds.
pub proof fn lemma_trim_inverts_row_padding(
    padded: Seq<u8>,
    packed: Seq<u8>,
    width: nat,
    height: nat,
    stride: nat,
)
    requires
        height >= 1,
        is_row_padded(padded, packed, width, height, stride),
    ensures
        rows_fit(width, height, padded.len()),
        stride_of_buffer(padded.len(), height) == stride,
        trimmed(width, height, padded) == packed,
{
    lemma_stride_of_whole_rows(stride, height);
    assert((height - 1) * stride + stride == stride * height) by (nonlinear_arith);
    let got = trimmed(width, height, padded);
    assert forall|k: int| 0 <= k < got.len() implies got[k] == packed[k] by {
        let i = k / (width as int);
        let j = k % (width as int);
        lemma_fundamental_div_mod(k, width as int);
        assert(0 <= i < height) by (nonlinear_arith)
            requires
                0 <= k < width * height,
                k == width * i + j,
                0 <= j < width,
        ;
        assert(width * i == i * width) by (nonlinear_arith);
        assert(padded[i * stride + j] == packed[i * width + j]);
    }
    assert(got =~= packed);
}

/// A buffer of `height` whole rows has the rows' length as its stride.
pub proof fn lemma_stride_of_whole_rows(stride: nat, height: nat)
    requires
        height >= 1,
    ensures
        stride_of_buffer(stride * height, height) == stride,
{
    lemma_fundamental_div_mod_converse_div((stride * height) as int, height as int, stride as int, 0);
}

/// Copies the first `width` bytes of each of the `height` rows of `buffer`
/// into one contiguous vector. The rows of `buffer` start
/// `buffer.len() / height` bytes apart; what lies behind the first `width`
/// bytes of a row is dropped.
pub fn trim_image_buffer(width: u32, height: u32, buffer: &[u8]) -> (output: Vec<u8>)
    requires
        rows_fit(width as nat, height as nat, buffer@.len()),
    ensures
        output@ == trimmed(width as nat, height as nat, buffer@),
        output@.len() == width * height,
        forall|i: int, j: int|
            0 <= i < height && 0 <= j < width ==> #[trigger] output@[i * width + j] == buffer@[i
                * stride_of_buffer(buffer@.len(), height as nat) + j],
{
    let row_bytes: usize = width as usize;
    let rows: usize = height as usize;
    let stride: usize = buffer.len() / rows;
    let capacity: usize = match row_bytes.checked_mul(rows) {
        Some(bytes) => bytes,
        None => 0,
    };
    let mut output: Vec<u8> = Vec::with_capacity(capacity);
    let ghost want = trimmed(width as nat, height as nat, buffer@);
    let mut i: usize = 0;
    while i < rows
        invariant
            rows_fit(width as nat, height as nat, buffer@.len()),
            buffer@.len() <= usize::MAX,
            row_bytes == width,
            rows == height,
            stride == stride_of_buffer(buffer@.len(), height as nat),
            want == trimmed(width as nat, height as nat, buffer@),
            i <= rows,
            output@.len() == i * row_bytes,
            forall|k: int| 0 <= k < output@.len() ==> output@[k] == want[k],
        decreases rows - i,
    {
        let mut j: usize = 0;
        while j < row_bytes
            invariant
                rows_fit(width as nat, height as nat, buffer@.len()),
                buffer@.len() <= usize::MAX,
                row_bytes == width,
                rows == height,
                stride == stride_of_buffer(buffer@.len(), height as nat),
                want == trimmed(width as nat, height as nat, buffer@),
                i < rows,
                j <= row_bytes,
                output@.len() == i * row_bytes + j,
                forall|k: int| 0 <= k < output@.len() ==> output@[k] == want[k],
            decreases row_bytes - j,
        {
            proof {
                lemma_row_in_bounds(width as nat, height as nat, buffer@.len(), i as int);
                lemma_trimmed_index(width as nat, height as nat, buffer@, i as int, j as int);
            }
            output.push(buffer[i * stride + j]);
            j += 1;
        }
        proof {
            assert((i + 1) * row_bytes == i * row_bytes + row_bytes) by (nonlinear_arith);
        }
        i += 1;
    }
    proof {
        assert(rows * row_bytes == width * height) by (nonlinear_arith)
            requires
                rows == height,
                row_bytes == width,
        ;
        assert(output@ =~= want);
        assert forall|i: int, j: int| 0 <= i < height && 0 <= j < width implies #[trigger] output@[i
            * width + j] == buffer@[i * stride_of_buffer(buffer@.len(), height as nat) + j] by {
            lemma_trimmed_index(width as nat, height as nat, buffer@, i, j);
        }
    }
    output
}

} // verus!
