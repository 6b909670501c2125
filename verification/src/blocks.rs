use vstd::prelude::*;

verus! {

/// The largest number of frames one block may hold. The smoothing scratch
/// buffers are sized to this bound, so the processing loop never hands out a
/// block that is longer.
pub const MAX_BLOCK_SIZE: usize = 64;

/// The length of the block that starts at frame `start` of a buffer of
/// `total_frames` frames: a full block, or the shorter tail of the buffer.
pub open spec fn block_len_at(start: int, total_frames: int) -> int {
    if total_frames - start < MAX_BLOCK_SIZE {
        total_frames - start
    } else {
        MAX_BLOCK_SIZE as int
    }
}

/// Splits a buffer of `total_frames` frames into the consecutive blocks the
/// processing loop walks. Each entry is a `(start, length)` pair; every block
/// but possibly the last is full, every block is nonempty and at most
/// `MAX_BLOCK_SIZE` long, and together they cover the buffer exactly.
pub fn block_partition(total_frames: usize) -> (r: Vec<(usize, usize)>)
    ensures
        r@.len() == (total_frames + MAX_BLOCK_SIZE - 1) / (MAX_BLOCK_SIZE as int),
        r@.len() == 0 <==> total_frames == 0,
        forall|k: int|
            #![trigger r@[k]]
            0 <= k < r@.len() ==> {
                &&& r@[k].0 == k * MAX_BLOCK_SIZE
                &&& r@[k].1 == block_len_at(k * (MAX_BLOCK_SIZE as int), total_frames as int)
                &&& 1 <= r@[k].1 <= MAX_BLOCK_SIZE
            },
        r@.len() > 0 ==> r@[r@.len() - 1].0 + r@[r@.len() - 1].1 == total_frames,
{
    let mut r: Vec<(usize, usize)> = Vec::new();
    let mut start: usize = 0;
    while start < total_frames
        invariant
            start <= total_frames,
            start < total_frames ==> start == r@.len() * MAX_BLOCK_SIZE,
            r@.len() > 0 ==> r@[r@.len() - 1].0 + r@[r@.len() - 1].1 == start,
            r@.len() == 0 ==> start == 0,
            forall|k: int|
                #![trigger r@[k]]
                0 <= k < r@.len() ==> {
                    &&& r@[k].0 == k * MAX_BLOCK_SIZE
                    &&& r@[k].1 == block_len_at(
                        k * (MAX_BLOCK_SIZE as int),
                        total_frames as int,
                    )
                    &&& 1 <= r@[k].1 <= MAX_BLOCK_SIZE
                },
        decreases total_frames - start,
    {
        let len: usize = if total_frames - start < MAX_BLOCK_SIZE {
            total_frames - start
        } else {
            MAX_BLOCK_SIZE
        };
        r.push((start, len));
        start = start + len;
    }
    proof {
        lemma_partition_len(r@.len() as int, total_frames as int);
    }
    r
}

/// Ties the number of blocks the loop produced to the closed form the
/// contract states: a partition whose last block ends at `total_frames`
/// holds exactly the rounded-up quotient of blocks.
proof fn lemma_partition_len(n: int, total_frames: int)
    requires
        n >= 0,
        total_frames >= 0,
        n == 0 ==> total_frames == 0,
        n > 0 ==> (n - 1) * MAX_BLOCK_SIZE < total_frames,
        n > 0 ==> total_frames <= n * MAX_BLOCK_SIZE,
    ensures
        n == (total_frames + MAX_BLOCK_SIZE - 1) / (MAX_BLOCK_SIZE as int),
{
    if n == 0 {
        assert((0 + MAX_BLOCK_SIZE - 1) / (MAX_BLOCK_SIZE as int) == 0);
    } else {
        assert(n == (total_frames + MAX_BLOCK_SIZE - 1) / (MAX_BLOCK_SIZE as int))
            by (nonlinear_arith)
            requires
                n > 0,
                (n - 1) * MAX_BLOCK_SIZE < total_frames,
                total_frames <= n * MAX_BLOCK_SIZE,
        ;
    }
}

} // verus!
