//! Pure scoring of candidate poses: the loss of a pose is the sum of its
//! pairwise overlap penalties against the other placed items plus its
//! boundary-violation penalty. A loss of zero means the pose is feasible
//! against the rest of the layout, and a total layout loss of zero means the
//! whole layout is feasible.
use crate::model::{Instance, Item, Layout, Pose, COORD_LIMIT};
use vstd::prelude::*;

verus! {

/// Smaller of two integers.
pub open spec fn smin(a: int, b: int) -> int {
    if a <= b {
        a
    } else {
        b
    }
}

/// Larger of two integers.
pub open spec fn smax(a: int, b: int) -> int {
    if a >= b {
        a
    } else {
        b
    }
}

/// Non-negative part of an integer.
pub open spec fn max0(a: int) -> int {
    if a >= 0 {
        a
    } else {
        0
    }
}

/// Length of the overlap of the half-open intervals `[a0, a1)` and `[b0, b1)`.
pub open spec fn spec_ov(a0: int, a1: int, b0: int, b1: int) -> int {
    max0(smin(a1, b1) - smax(a0, b0))
}

/// Overlap penalty between two posed items: the area of the intersection of
/// their rectangles, each inflated by the minimum separation at its top and
/// right. Items closer than the separation in both axes therefore score a
/// positive penalty even when their bare rectangles touch without overlap.
pub open spec fn spec_pair_penalty(ia: Item, pa: Pose, ib: Item, pb: Pose, sep: int) -> int {
    let ovx = spec_ov(
        pa.x as int,
        pa.x + ia.spec_eff_width(pa.rotated) + sep,
        pb.x as int,
        pb.x + ib.spec_eff_width(pb.rotated) + sep,
    );
    let ovy = spec_ov(
        pa.y as int,
        pa.y + ia.spec_eff_height(pa.rotated) + sep,
        pb.y as int,
        pb.y + ib.spec_eff_height(pb.rotated) + sep,
    );
    ovx * ovy
}

/// Boundary-violation penalty of a posed item against a strip of the given
/// width and height: the protruding amount in each axis, weighted by the
/// item's extent in the other axis.
pub open spec fn spec_bound_penalty(it: Item, p: Pose, width: int, height: int) -> int {
    let w = it.spec_eff_width(p.rotated) as int;
    let h = it.spec_eff_height(p.rotated) as int;
    max0(p.x + w - width) * h + max0(p.y + h - height) * w
}

/// Sum of the pair penalties of item `it` at pose `p` against the first `n`
/// placed items, the item at index `skip` excluded.
pub open spec fn spec_pair_sum(
    inst: Instance,
    poses: Seq<Pose>,
    skip: int,
    it: Item,
    p: Pose,
    n: int,
) -> int
    decreases n,
{
    if n <= 0 {
        0
    } else {
        spec_pair_sum(inst, poses, skip, it, p, n - 1) + if n - 1 == skip {
            0
        } else {
            spec_pair_penalty(it, p, inst.items[n - 1], poses[n - 1], inst.min_separation as int)
        }
    }
}

/// Loss of a hypothetical pose `p` for item `i`, evaluated against the first
/// `n` placed items of the layout (the item itself excluded) plus the
/// boundary penalty. With `n` equal to the item count this is the full
/// Quantify score of the pose.
pub open spec fn spec_pose_loss_prefix(
    inst: Instance,
    width: u64,
    poses: Seq<Pose>,
    i: int,
    p: Pose,
    n: int,
) -> int {
    spec_bound_penalty(inst.items[i], p, width as int, inst.strip_height as int)
        + spec_pair_sum(inst, poses, i, inst.items[i], p, n)
}

/// Full Quantify loss of pose `p` for item `i` against the rest of the layout.
pub open spec fn spec_pose_loss(inst: Instance, width: u64, poses: Seq<Pose>, i: int, p: Pose) -> int {
    spec_pose_loss_prefix(inst, width, poses, i, p, poses.len() as int)
}

/// Contribution of item `i` to the total layout loss: its boundary penalty
/// plus its pair penalties against the items before it (so each unordered
/// pair is counted once).
pub open spec fn spec_item_loss(inst: Instance, width: u64, poses: Seq<Pose>, i: int) -> int {
    spec_pose_loss_prefix(inst, width, poses, i, poses[i], i)
}

/// Total loss of the first `n` items of a layout.
pub open spec fn spec_layout_loss_prefix(inst: Instance, width: u64, poses: Seq<Pose>, n: int) -> int
    decreases n,
{
    if n <= 0 {
        0
    } else {
        spec_layout_loss_prefix(inst, width, poses, n - 1) + spec_item_loss(inst, width, poses, n - 1)
    }
}

/// Total loss of a layout: zero exactly when the layout is feasible.
pub open spec fn spec_layout_loss(inst: Instance, width: u64, poses: Seq<Pose>) -> int {
    spec_layout_loss_prefix(inst, width, poses, poses.len() as int)
}

/// Sum of the pair penalties of item `it` at pose `p` against the items
/// listed in the first `n` entries of `sel` — the already-placed items the
/// construction heuristic scores a candidate against.
pub open spec fn spec_pair_sum_sel(
    inst: Instance,
    poses: Seq<Pose>,
    sel: Seq<usize>,
    it: Item,
    p: Pose,
    n: int,
) -> int
    decreases n,
{
    if n <= 0 {
        0
    } else {
        spec_pair_sum_sel(inst, poses, sel, it, p, n - 1) + spec_pair_penalty(
            it,
            p,
            inst.items[sel[n - 1] as int],
            poses[sel[n - 1] as int],
            inst.min_separation as int,
        )
    }
}

/// Loss of a hypothetical pose `p` for item `i` against the placed items
/// listed in `sel`, plus the boundary penalty.
pub open spec fn spec_pose_loss_sel(
    inst: Instance,
    width: u64,
    poses: Seq<Pose>,
    sel: Seq<usize>,
    i: int,
    p: Pose,
) -> int {
    spec_bound_penalty(inst.items[i], p, width as int, inst.strip_height as int)
        + spec_pair_sum_sel(inst, poses, sel, inst.items[i], p, sel.len() as int)
}

/// Quantify against a placed subset: the loss of pose `p` for item `i`
/// evaluated against the items listed in `sel` only.
pub fn pose_loss_sel(inst: &Instance, layout: &Layout, sel: &Vec<usize>, i: usize, p: Pose) -> (r:
    u128)
    requires
        inst.wf(),
        layout.wf(*inst),
        i < inst.items.len(),
        sel.len() <= inst.items.len(),
        forall|q: int| 0 <= q < sel.len() ==> #[trigger] sel[q] < inst.items.len(),
        p.x <= COORD_LIMIT && p.y <= COORD_LIMIT,
    ensures
        r == spec_pose_loss_sel(*inst, layout.strip_width, layout.poses@, sel@, i as int, p),
{
    proof {
        crate::model::lemma_item_count_bounded(*inst);
    }
    let it = inst.items[i];
    let mut acc: u128 = bound_penalty(&it, p, layout.strip_width, inst.strip_height) as u128;
    let mut j: usize = 0;
    let n = sel.len();
    while j < n
        invariant
            inst.wf(),
            layout.wf(*inst),
            i < inst.items.len(),
            n == sel.len() <= 0x1000000,
            forall|q: int| 0 <= q < sel.len() ==> #[trigger] sel[q] < inst.items.len(),
            p.x <= COORD_LIMIT && p.y <= COORD_LIMIT,
            it == inst.items[i as int],
            j <= n,
            acc == spec_bound_penalty(
                inst.items[i as int],
                p,
                layout.strip_width as int,
                inst.strip_height as int,
            ) + spec_pair_sum_sel(*inst, layout.poses@, sel@, it, p, j as int),
            acc <= (1 + j as int) * (TERM_BOUND as int),
        decreases n - j,
    {
        let t = pair_penalty(&it, p, &inst.items[sel[j]], layout.poses[sel[j]], inst.min_separation);
        proof {
            assert((1 + j as int) * (TERM_BOUND as int) + (TERM_BOUND as int) == (2 + j as int) * (
            TERM_BOUND as int)) by (nonlinear_arith);
            assert((2 + j as int) * (TERM_BOUND as int) < u128::MAX) by (nonlinear_arith)
                requires
                    0 <= j <= 0x1000000,
            ;
        }
        acc = acc + t as u128;
        j = j + 1;
    }
    acc
}

/// The item at pose `p` lies entirely inside the strip.
pub open spec fn spec_in_bounds(it: Item, p: Pose, width: int, height: int) -> bool {
    &&& p.x + it.spec_eff_width(p.rotated) <= width
    &&& p.y + it.spec_eff_height(p.rotated) <= height
}

/// The two posed items respect the minimum separation: their inflated
/// rectangles are disjoint in at least one axis.
pub open spec fn spec_separated(ia: Item, pa: Pose, ib: Item, pb: Pose, sep: int) -> bool {
    spec_ov(
        pa.x as int,
        pa.x + ia.spec_eff_width(pa.rotated) + sep,
        pb.x as int,
        pb.x + ib.spec_eff_width(pb.rotated) + sep,
    ) <= 0 || spec_ov(
        pa.y as int,
        pa.y + ia.spec_eff_height(pa.rotated) + sep,
        pb.y as int,
        pb.y + ib.spec_eff_height(pb.rotated) + sep,
    ) <= 0
}

/// Geometric feasibility of a layout: every item inside the strip, every pair
/// separated.
pub open spec fn spec_feasible(inst: Instance, width: u64, poses: Seq<Pose>) -> bool {
    &&& forall|i: int|
        0 <= i < poses.len() ==> spec_in_bounds(
            #[trigger] inst.items[i],
            poses[i],
            width as int,
            inst.strip_height as int,
        )
    &&& forall|i: int, j: int|
        0 <= i < poses.len() && 0 <= j < i ==> spec_separated(
            #[trigger] inst.items[i],
            poses[i],
            #[trigger] inst.items[j],
            poses[j],
            inst.min_separation as int,
        )
}

/// Upper bound on one pair penalty or boundary penalty under well-formed
/// inputs.
pub const TERM_BOUND: u64 = 0x4000000000000000;

proof fn lemma_mul_nonneg(a: int, b: int)
    requires
        a >= 0,
        b >= 0,
    ensures
        a * b >= 0,
{
    assert(a * b >= 0) by (nonlinear_arith)
        requires
            a >= 0,
            b >= 0,
    ;
}

proof fn lemma_mul_bounds(a: int, b: int, c: int, d: int)
    requires
        0 <= a <= c,
        0 <= b <= d,
    ensures
        a * b <= c * d,
{
    assert(a * b <= c * d) by (nonlinear_arith)
        requires
            0 <= a <= c,
            0 <= b <= d,
    ;
}

/// A pair penalty is never negative.
pub proof fn lemma_pair_penalty_nonneg(ia: Item, pa: Pose, ib: Item, pb: Pose, sep: int)
    ensures
        spec_pair_penalty(ia, pa, ib, pb, sep) >= 0,
{
    let ovx = spec_ov(
        pa.x as int,
        pa.x + ia.spec_eff_width(pa.rotated) + sep,
        pb.x as int,
        pb.x + ib.spec_eff_width(pb.rotated) + sep,
    );
    let ovy = spec_ov(
        pa.y as int,
        pa.y + ia.spec_eff_height(pa.rotated) + sep,
        pb.y as int,
        pb.y + ib.spec_eff_height(pb.rotated) + sep,
    );
    lemma_mul_nonneg(ovx, ovy);
}

/// A boundary penalty is never negative.
pub proof fn lemma_bound_penalty_nonneg(it: Item, p: Pose, width: int, height: int)
    ensures
        spec_bound_penalty(it, p, width, height) >= 0,
{
    let w = it.spec_eff_width(p.rotated) as int;
    let h = it.spec_eff_height(p.rotated) as int;
    lemma_mul_nonneg(max0(p.x + w - width), h);
    lemma_mul_nonneg(max0(p.y + h - height), w);
}

/// A pair-penalty sum is never negative.
pub proof fn lemma_pair_sum_nonneg(
    inst: Instance,
    poses: Seq<Pose>,
    skip: int,
    it: Item,
    p: Pose,
    n: int,
)
    ensures
        spec_pair_sum(inst, poses, skip, it, p, n) >= 0,
    decreases n,
{
    if n > 0 {
        lemma_pair_sum_nonneg(inst, poses, skip, it, p, n - 1);
        if n - 1 != skip {
            lemma_pair_penalty_nonneg(
                it,
                p,
                inst.items[n - 1],
                poses[n - 1],
                inst.min_separation as int,
            );
        }
    }
}

/// A pose loss is never negative.
pub proof fn lemma_pose_loss_nonneg(inst: Instance, width: u64, poses: Seq<Pose>, i: int, p: Pose, n: int)
    ensures
        spec_pose_loss_prefix(inst, width, poses, i, p, n) >= 0,
{
    lemma_bound_penalty_nonneg(inst.items[i], p, width as int, inst.strip_height as int);
    lemma_pair_sum_nonneg(inst, poses, i, inst.items[i], p, n);
}

/// A layout loss is never negative.
pub proof fn lemma_layout_loss_nonneg(inst: Instance, width: u64, poses: Seq<Pose>, n: int)
    ensures
        spec_layout_loss_prefix(inst, width, poses, n) >= 0,
    decreases n,
{
    if n > 0 {
        lemma_layout_loss_nonneg(inst, width, poses, n - 1);
        lemma_pose_loss_nonneg(inst, width, poses, n - 1, poses[n - 1], n - 1);
    }
}

/// A pair penalty is zero exactly when the two posed items are separated.
pub proof fn lemma_pair_penalty_zero(ia: Item, pa: Pose, ib: Item, pb: Pose, sep: int)
    requires
        ia.wf(),
        ib.wf(),
        sep >= 0,
    ensures
        spec_pair_penalty(ia, pa, ib, pb, sep) == 0 <==> spec_separated(ia, pa, ib, pb, sep),
{
    let ovx = spec_ov(
        pa.x as int,
        pa.x + ia.spec_eff_width(pa.rotated) + sep,
        pb.x as int,
        pb.x + ib.spec_eff_width(pb.rotated) + sep,
    );
    let ovy = spec_ov(
        pa.y as int,
        pa.y + ia.spec_eff_height(pa.rotated) + sep,
        pb.y as int,
        pb.y + ib.spec_eff_height(pb.rotated) + sep,
    );
    assert(ovx * ovy == 0 <==> (ovx == 0 || ovy == 0)) by (nonlinear_arith);
}

/// A boundary penalty is zero exactly when the posed item lies inside the
/// strip.
pub proof fn lemma_bound_penalty_zero(it: Item, p: Pose, width: int, height: int)
    requires
        it.wf(),
    ensures
        spec_bound_penalty(it, p, width, height) == 0 <==> spec_in_bounds(it, p, width, height),
{
    let w = it.spec_eff_width(p.rotated) as int;
    let h = it.spec_eff_height(p.rotated) as int;
    let ox = max0(p.x + w - width);
    let oy = max0(p.y + h - height);
    assert(ox * h == 0 <==> (ox == 0 || h == 0)) by (nonlinear_arith);
    assert(oy * w == 0 <==> (oy == 0 || w == 0)) by (nonlinear_arith);
    lemma_mul_nonneg(ox, h);
    lemma_mul_nonneg(oy, w);
}

/// A pair-penalty sum is zero exactly when every counted pair is separated.
pub proof fn lemma_pair_sum_zero(
    inst: Instance,
    poses: Seq<Pose>,
    skip: int,
    it: Item,
    p: Pose,
    n: int,
)
    requires
        inst.wf(),
        it.wf(),
        n <= inst.items.len(),
        n <= poses.len(),
    ensures
        spec_pair_sum(inst, poses, skip, it, p, n) == 0 <==> (forall|j: int|
            0 <= j < n && j != skip ==> spec_separated(
                it,
                p,
                #[trigger] inst.items[j],
                poses[j],
                inst.min_separation as int,
            )),
    decreases n,
{
    if n > 0 {
        lemma_pair_sum_zero(inst, poses, skip, it, p, n - 1);
        lemma_pair_sum_nonneg(inst, poses, skip, it, p, n - 1);
        if n - 1 != skip {
            lemma_pair_penalty_nonneg(
                it,
                p,
                inst.items[n - 1],
                poses[n - 1],
                inst.min_separation as int,
            );
            lemma_pair_penalty_zero(
                it,
                p,
                inst.items[n - 1],
                poses[n - 1],
                inst.min_separation as int,
            );
        }
    }
}

/// An item's contribution to the layout loss is zero exactly when the item is
/// inside the strip and separated from every item before it.
pub proof fn lemma_item_loss_zero(inst: Instance, width: u64, poses: Seq<Pose>, i: int)
    requires
        inst.wf(),
        poses.len() == inst.items.len(),
        0 <= i < poses.len(),
    ensures
        spec_item_loss(inst, width, poses, i) == 0 <==> (spec_in_bounds(
            inst.items[i],
            poses[i],
            width as int,
            inst.strip_height as int,
        ) && (forall|j: int|
            0 <= j < i ==> spec_separated(
                inst.items[i],
                poses[i],
                #[trigger] inst.items[j],
                poses[j],
                inst.min_separation as int,
            ))),
{
    let it = inst.items[i];
    let p = poses[i];
    lemma_bound_penalty_nonneg(it, p, width as int, inst.strip_height as int);
    lemma_pair_sum_nonneg(inst, poses, i, it, p, i);
    lemma_bound_penalty_zero(it, p, width as int, inst.strip_height as int);
    lemma_pair_sum_zero(inst, poses, i, it, p, i);
}

/// The total loss of a layout prefix is zero exactly when that prefix is
/// geometrically feasible.
proof fn lemma_layout_loss_prefix_zero(inst: Instance, width: u64, poses: Seq<Pose>, n: int)
    requires
        inst.wf(),
        poses.len() == inst.items.len(),
        n <= poses.len(),
    ensures
        spec_layout_loss_prefix(inst, width, poses, n) == 0 <==> ((forall|i: int|
            0 <= i < n ==> spec_in_bounds(
                #[trigger] inst.items[i],
                poses[i],
                width as int,
                inst.strip_height as int,
            )) && (forall|i: int, j: int|
            0 <= i < n && 0 <= j < i ==> spec_separated(
                #[trigger] inst.items[i],
                poses[i],
                #[trigger] inst.items[j],
                poses[j],
                inst.min_separation as int,
            ))),
    decreases n,
{
    if n > 0 {
        lemma_layout_loss_prefix_zero(inst, width, poses, n - 1);
        lemma_layout_loss_nonneg(inst, width, poses, n - 1);
        lemma_pose_loss_nonneg(inst, width, poses, n - 1, poses[n - 1], n - 1);
        lemma_item_loss_zero(inst, width, poses, n - 1);
    }
}

/// The invariant tying the score to the geometry: a layout's total loss is
/// zero exactly when the layout is feasible.
pub proof fn lemma_layout_loss_zero_iff_feasible(inst: Instance, width: u64, poses: Seq<Pose>)
    requires
        inst.wf(),
        poses.len() == inst.items.len(),
    ensures
        spec_layout_loss(inst, width, poses) == 0 <==> spec_feasible(inst, width, poses),
{
    lemma_layout_loss_prefix_zero(inst, width, poses, poses.len() as int);
}

/// Feasibility depends on the problem alone, not on the vector carrying
/// the instance's items.
pub proof fn lemma_same_problem_feasible(a: Instance, b: Instance, width: u64, poses: Seq<Pose>)
    requires
        crate::model::spec_same_problem(a, b),
    ensures
        spec_feasible(a, width, poses) == spec_feasible(b, width, poses),
{
    assert(forall|i: int| 0 <= i < a.items.len() ==> a.items[i] == b.items[i]);
}

/// Quantify is deterministic: any two evaluations of the same pose against
/// the same layout and instance return the same loss. Every evaluation
/// returns exactly `spec_pose_loss` of its arguments, so two results can
/// never differ.
pub proof fn lemma_quantify_deterministic(
    inst: Instance,
    width: u64,
    poses: Seq<Pose>,
    i: int,
    p: Pose,
    r1: u128,
    r2: u128,
)
    requires
        r1 == spec_pose_loss(inst, width, poses, i, p),
        r2 == spec_pose_loss(inst, width, poses, i, p),
    ensures
        r1 == r2,
{
}

/// Length of the overlap of the half-open intervals `[a0, a1)` and `[b0, b1)`.
pub fn ov_len(a0: u64, a1: u64, b0: u64, b1: u64) -> (r: u64)
    ensures
        r == spec_ov(a0 as int, a1 as int, b0 as int, b1 as int),
{
    let lo: u64 = if a0 >= b0 {
        a0
    } else {
        b0
    };
    let hi: u64 = if a1 <= b1 {
        a1
    } else {
        b1
    };
    if hi > lo {
        hi - lo
    } else {
        0
    }
}

/// Overlap penalty between two posed items (see `spec_pair_penalty`).
pub fn pair_penalty(ia: &Item, pa: Pose, ib: &Item, pb: Pose, sep: u64) -> (r: u64)
    requires
        ia.wf(),
        ib.wf(),
        sep <= COORD_LIMIT,
        pa.x <= COORD_LIMIT && pa.y <= COORD_LIMIT,
        pb.x <= COORD_LIMIT && pb.y <= COORD_LIMIT,
    ensures
        r == spec_pair_penalty(*ia, pa, *ib, pb, sep as int),
        r <= TERM_BOUND,
{
    let aw = ia.eff_width(pa.rotated);
    let ah = ia.eff_height(pa.rotated);
    let bw = ib.eff_width(pb.rotated);
    let bh = ib.eff_height(pb.rotated);
    let ovx = ov_len(pa.x, pa.x + aw + sep, pb.x, pb.x + bw + sep);
    let ovy = ov_len(pa.y, pa.y + ah + sep, pb.y, pb.y + bh + sep);
    assert(ovx <= 2 * COORD_LIMIT && ovy <= 2 * COORD_LIMIT);
    proof {
        lemma_mul_bounds(ovx as int, ovy as int, 2 * COORD_LIMIT as int, 2 * COORD_LIMIT as int);
    }
    ovx * ovy
}

/// Boundary-violation penalty of a posed item (see `spec_bound_penalty`).
pub fn bound_penalty(it: &Item, p: Pose, width: u64, height: u64) -> (r: u64)
    requires
        it.wf(),
        p.x <= COORD_LIMIT && p.y <= COORD_LIMIT,
    ensures
        r == spec_bound_penalty(*it, p, width as int, height as int),
        r <= TERM_BOUND,
{
    let w = it.eff_width(p.rotated);
    let h = it.eff_height(p.rotated);
    let ox: u64 = if p.x + w > width {
        p.x + w - width
    } else {
        0
    };
    let oy: u64 = if p.y + h > height {
        p.y + h - height
    } else {
        0
    };
    proof {
        lemma_mul_bounds(ox as int, h as int, 2 * COORD_LIMIT as int, COORD_LIMIT as int);
        lemma_mul_bounds(oy as int, w as int, 2 * COORD_LIMIT as int, COORD_LIMIT as int);
    }
    ox * h + oy * w
}

/// Quantify: the loss of the hypothetical pose `p` for item `i`, evaluated
/// against the first `n` placed items of the layout (the item itself
/// excluded). Pure: the result is a function of the arguments alone.
pub fn pose_loss_prefix(inst: &Instance, layout: &Layout, i: usize, p: Pose, n: usize) -> (r: u128)
    requires
        inst.wf(),
        layout.wf(*inst),
        i < inst.items.len(),
        n <= layout.poses.len(),
        p.x <= COORD_LIMIT && p.y <= COORD_LIMIT,
    ensures
        r == spec_pose_loss_prefix(*inst, layout.strip_width, layout.poses@, i as int, p, n as int),
        r <= (1 + n as int) * (TERM_BOUND as int),
{
    proof {
        crate::model::lemma_item_count_bounded(*inst);
    }
    let it = inst.items[i];
    let mut acc: u128 = bound_penalty(&it, p, layout.strip_width, inst.strip_height) as u128;
    let mut j: usize = 0;
    while j < n
        invariant
            inst.wf(),
            layout.wf(*inst),
            i < inst.items.len(),
            n <= layout.poses.len(),
            p.x <= COORD_LIMIT && p.y <= COORD_LIMIT,
            it == inst.items[i as int],
            n <= 0x40000000,
            j <= n,
            acc == spec_pose_loss_prefix(*inst, layout.strip_width, layout.poses@, i as int, p, j as int),
            acc <= (1 + j as int) * (TERM_BOUND as int),
        decreases n - j,
    {
        if j != i {
            let t = pair_penalty(&it, p, &inst.items[j], layout.poses[j], inst.min_separation);
            proof {
                assert((1 + j as int) * (TERM_BOUND as int) + (TERM_BOUND as int) == (2
                    + j as int) * (TERM_BOUND as int)) by (nonlinear_arith);
                assert((2 + j as int) * (TERM_BOUND as int) <= (1 + n as int) * (TERM_BOUND
                    as int)) by (nonlinear_arith)
                    requires
                        j < n,
                ;
                assert((1 + n as int) * (TERM_BOUND as int) < u128::MAX) by (nonlinear_arith)
                    requires
                        n <= 0x100000000,
                ;
            }
            acc = acc + t as u128;
        } else {
            proof {
                assert((1 + j as int) * (TERM_BOUND as int) <= (2 + j as int) * (TERM_BOUND
                    as int)) by (nonlinear_arith);
            }
        }
        j = j + 1;
        proof {
            assert((2 + (j - 1) as int) * (TERM_BOUND as int) == (1 + j as int) * (TERM_BOUND
                as int));
        }
    }
    acc
}

/// Quantify against the whole layout: the full loss of pose `p` for item `i`.
pub fn pose_loss(inst: &Instance, layout: &Layout, i: usize, p: Pose) -> (r: u128)
    requires
        inst.wf(),
        layout.wf(*inst),
        i < inst.items.len(),
        p.x <= COORD_LIMIT && p.y <= COORD_LIMIT,
    ensures
        r == spec_pose_loss(*inst, layout.strip_width, layout.poses@, i as int, p),
{
    let n = layout.poses.len();
    pose_loss_prefix(inst, layout, i, p, n)
}

/// Total loss of a layout: the Separator's feasibility measure, zero exactly
/// when the layout is feasible.
pub fn layout_loss(inst: &Instance, layout: &Layout) -> (r: u128)
    requires
        inst.wf(),
        layout.wf(*inst),
    ensures
        r == spec_layout_loss(*inst, layout.strip_width, layout.poses@),
{
    proof {
        crate::model::lemma_item_count_bounded(*inst);
    }
    let n = layout.poses.len();
    let mut acc: u128 = 0;
    let mut i: usize = 0;
    while i < n
        invariant
            inst.wf(),
            layout.wf(*inst),
            n == layout.poses.len(),
            n <= 0x40000000,
            i <= n,
            acc == spec_layout_loss_prefix(*inst, layout.strip_width, layout.poses@, i as int),
            acc <= (i as int) * ((1 + n as int) * (TERM_BOUND as int)),
        decreases n - i,
    {
        let p = layout.poses[i];
        let item_term = pose_loss_prefix(inst, layout, i, p, i);
        proof {
            assert((1 + i as int) * (TERM_BOUND as int) <= (1 + n as int) * (TERM_BOUND as int))
                by (nonlinear_arith)
                requires
                    i < n,
            ;
            assert((i as int) * ((1 + n as int) * (TERM_BOUND as int)) + (1 + n as int) * (
            TERM_BOUND as int) == (1 + i as int) * ((1 + n as int) * (TERM_BOUND as int)))
                by (nonlinear_arith);
            assert((1 + i as int) * ((1 + n as int) * (TERM_BOUND as int)) < u128::MAX)
                by (nonlinear_arith)
                requires
                    i < n <= 0x100000000,
            ;
        }
        acc = acc + item_term;
        i = i + 1;
    }
    acc
}

/// Whether the layout is feasible, decided through its total loss.
pub fn is_feasible(inst: &Instance, layout: &Layout) -> (r: bool)
    requires
        inst.wf(),
        layout.wf(*inst),
    ensures
        r == spec_feasible(*inst, layout.strip_width, layout.poses@),
{
    proof {
        lemma_layout_loss_zero_iff_feasible(*inst, layout.strip_width, layout.poses@);
    }
    layout_loss(inst, layout) == 0
}

} // verus!
