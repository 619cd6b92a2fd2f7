//! Downsampling index mapper: picks which buffer index each grid column reads.

use vstd::arithmetic::div_mod::{
    lemma_div_is_ordered_by_denominator, lemma_div_pos_is_pos, lemma_fundamental_div_mod,
    lemma_mod_bound,
};
use vstd::arithmetic::mul::lemma_mul_inequality;
use vstd::prelude::*;

verus! {

/// Step between consecutive buffer indices when one grid column advances:
/// `max(1, buffer_len / grid_extent)`.
pub open spec fn stride_spec(buffer_len: int, grid_extent: int) -> int
    recommends
        buffer_len >= 1,
        grid_extent >= 1,
{
    if buffer_len / grid_extent >= 1 {
        buffer_len / grid_extent
    } else {
        1
    }
}

/// Number of columns actually rendered: the grid width, clamped so that every
/// rendered column's window `[column * stride, column * stride + stride)`
/// lies inside the buffer.
pub open spec fn column_count_spec(buffer_len: int, stride: int, width: int) -> int
    recommends
        stride >= 1,
{
    if buffer_len / stride <= width {
        buffer_len / stride
    } else {
        width
    }
}

/// Downsampling stride for a buffer of `buffer_len` samples shown across
/// `grid_extent` columns.
pub fn stride(buffer_len: usize, grid_extent: usize) -> (r: usize)
    requires
        buffer_len >= 1,
        grid_extent >= 1,
    ensures
        r == stride_spec(buffer_len as int, grid_extent as int),
        r >= 1,
{
    let q = buffer_len / grid_extent;
    if q >= 1 {
        q
    } else {
        1
    }
}

/// Buffer index sampled for a grid column.
pub fn map_index(column: usize, stride: usize) -> (r: usize)
    requires
        column * stride <= usize::MAX,
    ensures
        r == column * stride,
{
    column * stride
}

/// Clamped number of columns to render, so that no mapped index can leave the
/// buffer (see `lemma_stride_valid`).
pub fn column_count(buffer_len: usize, stride: usize, width: usize) -> (n: usize)
    requires
        stride >= 1,
    ensures
        n == column_count_spec(buffer_len as int, stride as int, width as int),
        n <= width,
        n * stride <= buffer_len,
        stride <= buffer_len && width >= 1 ==> n >= 1,
{
    let q = buffer_len / stride;
    let n = if q <= width {
        q
    } else {
        width
    };
    proof {
        lemma_fundamental_div_mod(buffer_len as int, stride as int);
        lemma_mod_bound(buffer_len as int, stride as int);
        lemma_div_pos_is_pos(buffer_len as int, stride as int);
        lemma_mul_inequality(n as int, q as int, stride as int);
        assert(q * stride == stride * q) by (nonlinear_arith);
        if stride <= buffer_len && q < 1 {
            assert(stride as int * (q as int) == 0) by (nonlinear_arith)
                requires
                    q as int == 0,
            ;
            assert(buffer_len < stride);
        }
    }
    n
}

/// Law (stride validity): for a buffer and a grid extent of at least one
/// element each, the stride is at least 1, the clamped column range is not
/// empty as long as the grid has a column, and every index a rendered column
/// may read — from `column * stride` up to `column * stride + stride - 1` —
/// lies strictly inside the buffer.
pub proof fn lemma_stride_valid(buffer_len: int, grid_extent: int, width: int)
    requires
        buffer_len >= 1,
        grid_extent >= 1,
    ensures
        stride_spec(buffer_len, grid_extent) >= 1,
        width >= 1 ==> column_count_spec(buffer_len, stride_spec(buffer_len, grid_extent), width)
            >= 1,
        forall|column: int|
            0 <= column < column_count_spec(buffer_len, stride_spec(buffer_len, grid_extent), width)
                ==> #[trigger] (column * stride_spec(buffer_len, grid_extent)) + stride_spec(
                buffer_len,
                grid_extent,
            ) <= buffer_len,
{
    let s = stride_spec(buffer_len, grid_extent);
    let q = buffer_len / s;
    lemma_div_pos_is_pos(buffer_len, grid_extent);
    lemma_div_is_ordered_by_denominator(buffer_len, 1, grid_extent);
    assert(s <= buffer_len);
    lemma_div_pos_is_pos(buffer_len, s);
    assert(q >= 1) by {
        lemma_fundamental_div_mod(buffer_len, s);
        lemma_mod_bound(buffer_len, s);
        if q < 1 {
            assert(buffer_len == s * q + buffer_len % s);
            assert(s * 0 == 0) by (nonlinear_arith);
            assert(q == 0);
            assert(buffer_len < s);
        }
    }
    assert forall|column: int|
        0 <= column < column_count_spec(buffer_len, s, width) implies #[trigger] (column * s) + s
        <= buffer_len by {
        lemma_fundamental_div_mod(buffer_len, s);
        lemma_mod_bound(buffer_len, s);
        lemma_mul_inequality(column + 1, q, s);
        assert((column + 1) * s == column * s + s) by (nonlinear_arith);
        assert(q * s == s * q) by (nonlinear_arith);
    }
}

} // verus!
