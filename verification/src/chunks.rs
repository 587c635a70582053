use vstd::prelude::*;

verus! {

/// The number of chunks of `chunk_size` that cover `start..end`.
pub open spec fn chunk_count(start: usize, end: usize, chunk_size: usize) -> int {
    if start >= end {
        0
    } else {
        (end - start + chunk_size - 1) / (chunk_size as int)
    }
}

proof fn lemma_count_step(start: int, end: int, c: int, i: int)
    requires
        c > 0,
        start < end,
        start + i * c < end,
        start + (i + 1) * c >= end,
        i >= 0,
    ensures
        (end - start + c - 1) / c == i + 1,
{
    assert((end - start + c - 1) / c == i + 1) by (nonlinear_arith)
        requires
            c > 0,
            start + i * c < end,
            start + (i + 1) * c >= end,
    ;
}

/// Splits `start..end` into consecutive ranges of `chunk_size` indices,
/// the last one possibly shorter, as `(chunk_start, chunk_end)` pairs.
pub fn chunk_ranges(start: usize, end: usize, chunk_size: usize) -> (chunks: Vec<(usize, usize)>)
    requires
        chunk_size > 0,
        start + chunk_count(start, end, chunk_size) * chunk_size <= usize::MAX,
    ensures
        chunks@.len() == chunk_count(start, end, chunk_size),
        forall|i: int|
            0 <= i < chunks@.len() ==> {
                &&& (#[trigger] chunks@[i]).0 == start + i * chunk_size
                &&& chunks@[i].1 == if start + (i + 1) * chunk_size < end {
                    start + (i + 1) * chunk_size
                } else {
                    end as int
                }
                &&& chunks@[i].0 < chunks@[i].1
            },
{
    let mut chunks: Vec<(usize, usize)> = Vec::new();
    if start >= end {
        return chunks;
    }
    let ghost count = chunk_count(start, end, chunk_size);
    let mut chunk_start: usize = start;
    let ghost mut i: int = 0;
    while chunk_start < end
        invariant
            chunk_size > 0,
            start < end,
            count == chunk_count(start, end, chunk_size),
            start + count * chunk_size <= usize::MAX,
            0 <= i,
            chunk_start == start + i * chunk_size,
            i > 0 ==> start + (i - 1) * chunk_size < end,
            chunks@.len() == i,
            i <= count,
            forall|k: int|
                0 <= k < i ==> {
                    &&& (#[trigger] chunks@[k]).0 == start + k * chunk_size
                    &&& chunks@[k].1 == if start + (k + 1) * chunk_size < end {
                        start + (k + 1) * chunk_size
                    } else {
                        end as int
                    }
                    &&& chunks@[k].0 < chunks@[k].1
                },
        decreases count - i,
    {
        proof {
            assert(start + (i + 1) * chunk_size == start + i * chunk_size + chunk_size) by (nonlinear_arith);
            if start + (i + 1) * chunk_size >= end {
                lemma_count_step(start as int, end as int, chunk_size as int, i);
            } else {
                assert(i + 1 <= count) by (nonlinear_arith)
                    requires
                        count == (end - start + chunk_size - 1) / (chunk_size as int),
                        start + (i + 1) * chunk_size < end,
                        chunk_size > 0,
                        i >= 0,
                ;
            }
            assert(i + 1 <= count);
            assert(start + (i + 1) * chunk_size <= start + count * chunk_size) by (nonlinear_arith)
                requires
                    i + 1 <= count,
                    chunk_size > 0,
            ;
        }
        let next = chunk_start + chunk_size;
        let chunk_end = if next < end { next } else { end };
        chunks.push((chunk_start, chunk_end));
        chunk_start = next;
        proof {
            i = i + 1;
        }
    }
    proof {
        lemma_count_step(start as int, end as int, chunk_size as int, i - 1);
    }
    chunks
}

} // verus!
