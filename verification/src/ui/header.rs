//! The layout of the help panel: its entries are dealt into columns.

use vstd::prelude::*;

verus! {

/// Number of entries in each column when `len` entries are dealt into `n`
/// columns: the least number with which `n` columns hold them all.
pub open spec fn chunk_size(len: int, n: int) -> int {
    (len + n - 1) / n
}

/// First place of column `i`, or the end of the entries where the column
/// lies behind them.
pub open spec fn chunk_start(len: int, n: int, i: int) -> int {
    if i * chunk_size(len, n) < len {
        i * chunk_size(len, n)
    } else {
        len
    }
}

/// The place behind the last entry of column `i`.
pub open spec fn chunk_end(len: int, n: int, i: int) -> int {
    if (i + 1) * chunk_size(len, n) < len {
        (i + 1) * chunk_size(len, n)
    } else {
        len
    }
}

/// Deals the entries of `vec` into `n` columns, in order: every column but
/// the last that holds anything takes `chunk_size` entries, and columns for
/// which none are left stay empty.
pub fn split_vec_into_n<T: Copy>(vec: Vec<T>, n: usize) -> (out: Vec<Vec<T>>)
    requires
        n > 0,
        vec.len() + n <= usize::MAX,
    ensures
        out@.len() == n,
        forall|i: int|
            0 <= i < n ==> (#[trigger] out@[i])@ == vec@.subrange(
                chunk_start(vec@.len() as int, n as int, i),
                chunk_end(vec@.len() as int, n as int, i),
            ),
{
    let len: usize = vec.len();
    let size: usize = (len + n - 1) / n;
    let mut result: Vec<Vec<T>> = Vec::new();
    let mut i: usize = 0;
    // the place where the next column starts
    let mut start: usize = 0;
    assert(0 * chunk_size(len as int, n as int) == 0) by (nonlinear_arith);
    while i < n
        invariant
            i <= n,
            n > 0,
            len == vec@.len(),
            size == chunk_size(len as int, n as int),
            result@.len() == i,
            start <= len,
            start == chunk_start(len as int, n as int, i as int),
            forall|k: int|
                0 <= k < i ==> (#[trigger] result@[k])@ == vec@.subrange(
                    chunk_start(len as int, n as int, k),
                    chunk_end(len as int, n as int, k),
                ),
        decreases n - i,
    {
        let end: usize = if size < len - start {
            start + size
        } else {
            len
        };
        proof {
            assert((i + 1) * size == i * size + size) by (nonlinear_arith);
            if i * size < len {
                assert(start == i * size);
            } else {
                assert(start == len);
                assert((i + 1) * size >= len);
            }
            assert(end == chunk_end(len as int, n as int, i as int));
            assert(end == chunk_start(len as int, n as int, i + 1));
        }
        let mut chunk: Vec<T> = Vec::new();
        let mut j: usize = start;
        while j < end
            invariant
                start <= j <= end <= len,
                len == vec@.len(),
                chunk@ == vec@.subrange(start as int, j as int),
            decreases end - j,
        {
            chunk.push(vec[j]);
            j += 1;
            assert(chunk@ =~= vec@.subrange(start as int, j as int));
        }
        result.push(chunk);
        start = end;
        i += 1;
    }
    result
}

} // verus!
