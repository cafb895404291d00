//! Batch evaluation of candidate poses: find the best (lowest-loss, first on
//! ties) candidate. Evaluation is modelled as the worker pool performs it —
//! the candidate range is cut into one contiguous chunk per worker, each
//! chunk is reduced to its local best, and the local bests are reduced to the
//! winner — and is proved to return the same winner whatever the worker
//! count.
use crate::model::{Instance, Layout, Pose, COORD_LIMIT};
use crate::quantify::{pose_loss, spec_pose_loss};
use vstd::prelude::*;

verus! {

/// Every pose of a candidate sequence has bounded coordinates.
pub open spec fn spec_cands_bounded(cands: Seq<Pose>) -> bool {
    forall|k: int|
        0 <= k < cands.len() ==> (#[trigger] cands[k]).x <= COORD_LIMIT && cands[k].y
            <= COORD_LIMIT
}

/// Index of the best candidate of `cands[lo..hi]` for item `i`: the one of
/// least Quantify loss, the earliest on ties.
pub open spec fn spec_best_range(
    inst: Instance,
    width: u64,
    poses: Seq<Pose>,
    i: int,
    cands: Seq<Pose>,
    lo: int,
    hi: int,
) -> int
    decreases hi - lo,
{
    if hi <= lo + 1 {
        lo
    } else {
        let b = spec_best_range(inst, width, poses, i, cands, lo, hi - 1);
        if spec_pose_loss(inst, width, poses, i, cands[hi - 1]) < spec_pose_loss(
            inst,
            width,
            poses,
            i,
            cands[b],
        ) {
            hi - 1
        } else {
            b
        }
    }
}

/// The best index lies in its range, no candidate of the range beats it, and
/// every earlier candidate of the range is strictly worse.
pub proof fn lemma_best_range_props(
    inst: Instance,
    width: u64,
    poses: Seq<Pose>,
    i: int,
    cands: Seq<Pose>,
    lo: int,
    hi: int,
)
    requires
        lo < hi,
    ensures
        lo <= spec_best_range(inst, width, poses, i, cands, lo, hi) < hi,
        forall|t: int|
            lo <= t < hi ==> spec_pose_loss(
                inst,
                width,
                poses,
                i,
                cands[spec_best_range(inst, width, poses, i, cands, lo, hi)],
            ) <= spec_pose_loss(inst, width, poses, i, #[trigger] cands[t]),
        forall|t: int|
            lo <= t < spec_best_range(inst, width, poses, i, cands, lo, hi) ==> spec_pose_loss(
                inst,
                width,
                poses,
                i,
                cands[spec_best_range(inst, width, poses, i, cands, lo, hi)],
            ) < spec_pose_loss(inst, width, poses, i, #[trigger] cands[t]),
    decreases hi - lo,
{
    if hi > lo + 1 {
        lemma_best_range_props(inst, width, poses, i, cands, lo, hi - 1);
    }
}

/// Reducing two adjacent ranges' bests (keeping the left on ties) gives the
/// best of the union: cutting work into chunks does not change the winner.
pub proof fn lemma_best_range_merge(
    inst: Instance,
    width: u64,
    poses: Seq<Pose>,
    i: int,
    cands: Seq<Pose>,
    lo: int,
    mid: int,
    hi: int,
)
    requires
        lo < mid < hi,
    ensures
        spec_best_range(inst, width, poses, i, cands, lo, hi) == ({
            let a = spec_best_range(inst, width, poses, i, cands, lo, mid);
            let b = spec_best_range(inst, width, poses, i, cands, mid, hi);
            if spec_pose_loss(inst, width, poses, i, cands[b]) < spec_pose_loss(
                inst,
                width,
                poses,
                i,
                cands[a],
            ) {
                b
            } else {
                a
            }
        }),
    decreases hi - mid,
{
    if hi == mid + 1 {
    } else {
        lemma_best_range_merge(inst, width, poses, i, cands, lo, mid, hi - 1);
    }
}

/// Best candidate of `cands[lo..hi]`: its index and its Quantify loss.
pub fn best_in_range(
    inst: &Instance,
    layout: &Layout,
    i: usize,
    cands: &Vec<Pose>,
    lo: usize,
    hi: usize,
) -> (r: (usize, u128))
    requires
        inst.wf(),
        layout.wf(*inst),
        i < inst.items.len(),
        lo < hi <= cands.len(),
        spec_cands_bounded(cands@),
    ensures
        r.0 == spec_best_range(*inst, layout.strip_width, layout.poses@, i as int, cands@, lo as int, hi as int),
        lo <= r.0 < hi,
        r.1 == spec_pose_loss(*inst, layout.strip_width, layout.poses@, i as int, cands@[r.0 as int]),
{
    let mut best: usize = lo;
    let mut best_loss: u128 = pose_loss(inst, layout, i, cands[lo]);
    let mut j: usize = lo + 1;
    while j < hi
        invariant
            inst.wf(),
            layout.wf(*inst),
            i < inst.items.len(),
            lo < hi <= cands.len(),
            spec_cands_bounded(cands@),
            lo < j <= hi,
            lo <= best < j,
            best == spec_best_range(*inst, layout.strip_width, layout.poses@, i as int, cands@, lo as int, j as int),
            best_loss == spec_pose_loss(*inst, layout.strip_width, layout.poses@, i as int, cands@[best as int]),
        decreases hi - j,
    {
        let l = pose_loss(inst, layout, i, cands[j]);
        if l < best_loss {
            best = j;
            best_loss = l;
        }
        j = j + 1;
    }
    (best, best_loss)
}

/// Best candidate of the whole batch, evaluated as a pool of `n_workers`
/// workers would: one contiguous chunk per worker, each reduced locally,
/// local bests reduced to the winner. The winner is a function of the batch
/// alone — the worker count never changes it.
pub fn best_candidate(
    inst: &Instance,
    layout: &Layout,
    i: usize,
    cands: &Vec<Pose>,
    n_workers: usize,
) -> (r: (usize, u128))
    requires
        inst.wf(),
        layout.wf(*inst),
        i < inst.items.len(),
        1 <= cands.len() <= 0x40000000,
        1 <= n_workers <= 0x10000,
        spec_cands_bounded(cands@),
    ensures
        r.0 == spec_best_range(*inst, layout.strip_width, layout.poses@, i as int, cands@, 0, cands.len() as int),
        r.0 < cands.len(),
        r.1 == spec_pose_loss(*inst, layout.strip_width, layout.poses@, i as int, cands@[r.0 as int]),
{
    let n = cands.len();
    let chunk: usize = (n + n_workers - 1) / n_workers;
    assert(chunk >= 1) by (nonlinear_arith)
        requires
            chunk == (n + n_workers - 1) as int / n_workers as int,
            n >= 1,
            n_workers >= 1,
    ;
    let first_hi = if chunk < n {
        chunk
    } else {
        n
    };
    let (mut best, mut best_loss) = best_in_range(inst, layout, i, cands, 0, first_hi);
    let mut lo: usize = first_hi;
    while lo < n
        invariant
            inst.wf(),
            layout.wf(*inst),
            i < inst.items.len(),
            1 <= n == cands.len() <= 0x40000000,
            1 <= chunk <= 0x40010000,
            spec_cands_bounded(cands@),
            0 < lo <= n,
            best < lo,
            best == spec_best_range(*inst, layout.strip_width, layout.poses@, i as int, cands@, 0, lo as int),
            best_loss == spec_pose_loss(*inst, layout.strip_width, layout.poses@, i as int, cands@[best as int]),
        decreases n - lo,
    {
        let hi = if lo + chunk <= n {
            lo + chunk
        } else {
            n
        };
        let (b, bl) = best_in_range(inst, layout, i, cands, lo, hi);
        proof {
            lemma_best_range_merge(*inst, layout.strip_width, layout.poses@, i as int, cands@, 0, lo as int, hi as int);
        }
        if bl < best_loss {
            best = b;
            best_loss = bl;
        }
        lo = hi;
    }
    (best, best_loss)
}

/// Worker-pool equivalence: evaluating the same candidate batch with any two
/// worker counts yields the same winning candidate. Every evaluation returns
/// exactly the first least-loss index of the batch, so two winners can never
/// differ.
pub proof fn lemma_worker_count_irrelevant(
    inst: Instance,
    width: u64,
    poses: Seq<Pose>,
    i: int,
    cands: Seq<Pose>,
    winner_a: usize,
    winner_b: usize,
)
    requires
        winner_a == spec_best_range(inst, width, poses, i, cands, 0, cands.len() as int),
        winner_b == spec_best_range(inst, width, poses, i, cands, 0, cands.len() as int),
    ensures
        winner_a == winner_b,
{
}

} // verus!
