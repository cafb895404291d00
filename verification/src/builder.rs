//! The construction heuristic: deterministic largest-first greedy placement.
//! Items are taken in order of decreasing bounding extent; each is scored
//! with Quantify against the already-placed items over a fixed anchor
//! candidate sample, and the lowest-loss candidate is committed (ties by
//! sample order). Earlier items are never revisited. The result is a fast
//! initial layout, typically infeasible. An item that cannot fit the strip
//! in any allowed rotation fails fatally before any placement.
use crate::model::{
    lemma_item_count_bounded, spec_extent_sum, Instance, Item, Layout, Pose, COORD_LIMIT,
};
use crate::quantify::{pose_loss_sel, spec_pose_loss_sel};
use crate::sample::{anchor_candidates, spec_anchor_list};
use vstd::pervasive::VecAdditionalExecFns;
use vstd::prelude::*;

verus! {

/// Fatal construction error: the item at the given index is too tall for
/// the strip in every allowed rotation.
#[derive(Clone, Copy, PartialEq, Eq, Structural, Debug)]
pub enum BuildError {
    /// The item at this index cannot ever fit the strip height.
    ItemTooTall(usize),
}

/// Whether an item fits the strip height in some allowed rotation.
pub open spec fn spec_fits(it: Item, h: u64) -> bool {
    it.height <= h || (it.rotatable && it.width <= h)
}

/// The first index of an item that cannot fit, or -1 when all fit.
pub open spec fn spec_first_unfit(items: Seq<Item>, h: u64, n: int) -> int
    decreases n,
{
    if n <= 0 {
        -1
    } else if spec_first_unfit(items, h, n - 1) != -1 {
        spec_first_unfit(items, h, n - 1)
    } else if !spec_fits(items[n - 1], h) {
        n - 1
    } else {
        -1
    }
}

/// The first not-yet-used index of largest bounding extent among the first
/// `n` items, or -1 when all are used.
pub open spec fn spec_argmax_unused(items: Seq<Item>, used: Seq<bool>, n: int) -> int
    decreases n,
{
    if n <= 0 {
        -1
    } else {
        let b = spec_argmax_unused(items, used, n - 1);
        if used[n - 1] {
            b
        } else if b == -1 {
            n - 1
        } else if items[n - 1].spec_max_extent() > items[b].spec_max_extent() {
            n - 1
        } else {
            b
        }
    }
}

/// Number of not-yet-used indices among the first `n`.
pub open spec fn spec_unused_count(used: Seq<bool>, n: int) -> int
    decreases n,
{
    if n <= 0 {
        0
    } else {
        spec_unused_count(used, n - 1) + if used[n - 1] {
            0int
        } else {
            1int
        }
    }
}

/// With an unused index left the selection is a valid unused index, and
/// with none left it is -1.
pub proof fn lemma_argmax_valid(items: Seq<Item>, used: Seq<bool>, n: int)
    requires
        0 <= n,
    ensures
        spec_unused_count(used, n) >= 0,
        spec_unused_count(used, n) > 0 ==> 0 <= spec_argmax_unused(items, used, n) < n && !used[
            spec_argmax_unused(items, used, n)],
        spec_unused_count(used, n) <= 0 ==> spec_argmax_unused(items, used, n) == -1,
    decreases n,
{
    if n > 0 {
        lemma_argmax_valid(items, used, n - 1);
    }
}

/// Marking an unused index as used lowers the unused count by one.
pub proof fn lemma_unused_count_update(used: Seq<bool>, n: int, sel: int)
    requires
        0 <= sel < n <= used.len(),
        !used[sel],
    ensures
        spec_unused_count(used.update(sel, true), n) == spec_unused_count(used, n) - 1,
    decreases n,
{
    if n > 0 {
        if sel == n - 1 {
            assert(forall|j: int|
                0 <= j < n - 1 ==> used.update(sel, true)[j] == used[j]);
            lemma_unused_count_same(used, used.update(sel, true), n - 1);
        } else {
            lemma_unused_count_update(used, n - 1, sel);
        }
    }
}

/// Two flag sequences equal on a prefix count the same unused indices there.
pub proof fn lemma_unused_count_same(a: Seq<bool>, b: Seq<bool>, n: int)
    requires
        forall|j: int| 0 <= j < n ==> a[j] == b[j],
        n <= a.len(),
        n <= b.len(),
    ensures
        spec_unused_count(a, n) == spec_unused_count(b, n),
    decreases n,
{
    if n > 0 {
        lemma_unused_count_same(a, b, n - 1);
    }
}

/// The first not-yet-used index of largest bounding extent, or `None`.
pub fn argmax_unused(items: &Vec<Item>, used: &Vec<bool>) -> (r: Option<usize>)
    requires
        items.len() == used.len(),
    ensures
        match r {
            Option::Some(sel) => sel as int == spec_argmax_unused(
                items@,
                used@,
                items.len() as int,
            ) && sel < items.len() && !used[sel as int],
            Option::None => spec_argmax_unused(items@, used@, items.len() as int) == -1,
        },
{
    let mut best: usize = 0;
    let mut found: bool = false;
    let mut j: usize = 0;
    while j < items.len()
        invariant
            items.len() == used.len(),
            j <= items.len(),
            found ==> best < j && !used[best as int] && best as int == spec_argmax_unused(
                items@,
                used@,
                j as int,
            ),
            !found ==> spec_argmax_unused(items@, used@, j as int) == -1,
        decreases items.len() - j,
    {
        if !used[j] {
            if !found {
                best = j;
                found = true;
            } else if items[j].max_extent() > items[best].max_extent() {
                best = j;
            }
        }
        j = j + 1;
    }
    if found {
        Option::Some(best)
    } else {
        Option::None
    }
}

/// Index of the lowest-subset-loss candidate among the first `hi`, the
/// earliest on ties: the committing rule of the construction heuristic.
pub open spec fn spec_best_sel(
    inst: Instance,
    width: u64,
    poses: Seq<Pose>,
    sel: Seq<usize>,
    i: int,
    cands: Seq<Pose>,
    hi: int,
) -> int
    decreases hi,
{
    if hi <= 1 {
        0
    } else {
        let b = spec_best_sel(inst, width, poses, sel, i, cands, hi - 1);
        if spec_pose_loss_sel(inst, width, poses, sel, i, cands[hi - 1]) < spec_pose_loss_sel(
            inst,
            width,
            poses,
            sel,
            i,
            cands[b],
        ) {
            hi - 1
        } else {
            b
        }
    }
}

/// Finds the lowest-subset-loss candidate (ties by sample order).
pub fn best_candidate_sel(
    inst: &Instance,
    layout: &Layout,
    sel: &Vec<usize>,
    i: usize,
    cands: &Vec<Pose>,
) -> (r: usize)
    requires
        inst.wf(),
        layout.wf(*inst),
        i < inst.items.len(),
        sel.len() <= inst.items.len(),
        forall|q: int| 0 <= q < sel.len() ==> #[trigger] sel[q] < inst.items.len(),
        cands.len() >= 1,
        forall|q: int|
            0 <= q < cands.len() ==> (#[trigger] cands[q]).x <= COORD_LIMIT && cands[q].y
                <= COORD_LIMIT,
    ensures
        r as int == spec_best_sel(
            *inst,
            layout.strip_width,
            layout.poses@,
            sel@,
            i as int,
            cands@,
            cands.len() as int,
        ),
        r < cands.len(),
{
    let mut best: usize = 0;
    let mut best_loss: u128 = pose_loss_sel(inst, layout, sel, i, cands[0]);
    let mut j: usize = 1;
    while j < cands.len()
        invariant
            inst.wf(),
            layout.wf(*inst),
            i < inst.items.len(),
            sel.len() <= inst.items.len(),
            forall|q: int| 0 <= q < sel.len() ==> #[trigger] sel[q] < inst.items.len(),
            cands.len() >= 1,
            forall|q: int|
                0 <= q < cands.len() ==> (#[trigger] cands[q]).x <= COORD_LIMIT && cands[q].y
                    <= COORD_LIMIT,
            1 <= j <= cands.len(),
            best < j,
            best as int == spec_best_sel(
                *inst,
                layout.strip_width,
                layout.poses@,
                sel@,
                i as int,
                cands@,
                j as int,
            ),
            best_loss == spec_pose_loss_sel(
                *inst,
                layout.strip_width,
                layout.poses@,
                sel@,
                i as int,
                cands@[best as int],
            ),
        decreases cands.len() - j,
    {
        let l = pose_loss_sel(inst, layout, sel, i, cands[j]);
        if l < best_loss {
            best = j;
            best_loss = l;
        }
        j = j + 1;
    }
    best
}

/// One placement of the construction heuristic, from the given state: pick
/// the largest unplaced item, anchor-sample candidates against the placed
/// ones, commit the lowest-loss candidate.
#[verifier::opaque]
pub open spec fn spec_build_step(
    inst: Instance,
    width: u64,
    poses: Seq<Pose>,
    used: Seq<bool>,
    placed: Seq<usize>,
) -> (Seq<Pose>, Seq<bool>, Seq<usize>) {
    let sel = spec_argmax_unused(inst.items@, used, inst.items.len() as int);
    let cands = spec_anchor_list(inst, width, poses, sel, placed, placed.len() as int);
    let b = spec_best_sel(inst, width, poses, placed, sel, cands, cands.len() as int);
    (poses.update(sel, cands[b]), used.update(sel, true), placed.push(sel as usize))
}

/// The state of the construction heuristic after `k` placements, starting
/// from every item parked at the origin.
#[verifier::opaque]
pub open spec fn spec_build_state(inst: Instance, width: u64, k: int) -> (
    Seq<Pose>,
    Seq<bool>,
    Seq<usize>,
)
    decreases k,
{
    if k <= 0 {
        (
            Seq::new(inst.items.len() as nat, |q: int| Pose { x: 0, y: 0, rotated: false }),
            Seq::new(inst.items.len() as nat, |q: int| false),
            Seq::empty(),
        )
    } else {
        let (poses, used, placed) = spec_build_state(inst, width, k - 1);
        spec_build_step(inst, width, poses, used, placed)
    }
}

/// The starting strip width of the construction heuristic: wide enough to
/// hold every item side by side in its worst rotation.
pub open spec fn spec_init_width(inst: Instance) -> u64 {
    let es = spec_extent_sum(inst.items@, inst.min_separation as int, inst.items.len() as int);
    if es >= 1 {
        es as u64
    } else {
        1u64
    }
}

/// Any prefix of the extent sum is at most the whole (terms are positive).
pub proof fn lemma_extent_sum_mono(items: Seq<Item>, sep: int, m: int, n: int)
    requires
        forall|i: int| 0 <= i < items.len() ==> (#[trigger] items[i]).wf(),
        sep >= 0,
        0 <= m <= n <= items.len(),
    ensures
        spec_extent_sum(items, sep, m) <= spec_extent_sum(items, sep, n),
    decreases n,
{
    if n > m {
        lemma_extent_sum_mono(items, sep, m, n - 1);
        assert(items[n - 1].wf());
    }
}

/// The starting strip width, computed exactly.
pub fn init_width(inst: &Instance) -> (r: u64)
    requires
        inst.wf(),
    ensures
        r == spec_init_width(*inst),
        1 <= r <= COORD_LIMIT,
{
    proof {
        lemma_item_count_bounded(*inst);
        crate::model::lemma_extent_sum_lower(
            inst.items@,
            inst.min_separation as int,
            inst.items.len() as int,
        );
    }
    let mut acc: u64 = 0;
    let mut i: usize = 0;
    while i < inst.items.len()
        invariant
            inst.wf(),
            i <= inst.items.len(),
            acc == spec_extent_sum(inst.items@, inst.min_separation as int, i as int),
            acc <= COORD_LIMIT,
        decreases inst.items.len() - i,
    {
        proof {
            lemma_extent_sum_mono(
                inst.items@,
                inst.min_separation as int,
                i + 1,
                inst.items.len() as int,
            );
        }
        let e = inst.items[i].max_extent();
        acc = acc + e + inst.min_separation;
        i = i + 1;
    }
    if acc >= 1 {
        acc
    } else {
        1
    }
}

/// Builds the initial layout: checks that every item can fit the strip, then
/// places the items largest first, committing the lowest-loss anchor
/// candidate for each. Fails exactly when some item is too tall for the
/// strip in every allowed rotation, naming the first such item.
pub fn construct(inst: &Instance) -> (r: Result<Layout, BuildError>)
    requires
        inst.wf(),
    ensures
        r is Err <==> spec_first_unfit(inst.items@, inst.strip_height, inst.items.len() as int)
            != -1,
        r matches Result::Err(BuildError::ItemTooTall(idx)) ==> idx as int == spec_first_unfit(
            inst.items@,
            inst.strip_height,
            inst.items.len() as int,
        ) && !spec_fits(inst.items[idx as int], inst.strip_height),
        r matches Result::Ok(layout) ==> layout.wf(*inst) && layout.strip_width
            == spec_init_width(*inst) && layout.poses@ == spec_build_state(
            *inst,
            spec_init_width(*inst),
            inst.items.len() as int,
        ).0,
{
    proof {
        lemma_item_count_bounded(*inst);
    }
    let n = inst.items.len();
    let mut i: usize = 0;
    while i < n
        invariant
            inst.wf(),
            n == inst.items.len(),
            i <= n,
            spec_first_unfit(inst.items@, inst.strip_height, i as int) == -1,
        decreases n - i,
    {
        let it = inst.items[i];
        let fits = it.height <= inst.strip_height || (it.rotatable && it.width
            <= inst.strip_height);
        if !fits {
            proof {
                assert(spec_first_unfit(inst.items@, inst.strip_height, i + 1) == i);
                lemma_first_unfit_persist(inst.items@, inst.strip_height, i + 1, n as int);
            }
            return Result::Err(BuildError::ItemTooTall(i));
        }
        i = i + 1;
    }
    let width = init_width(inst);
    let mut poses: Vec<Pose> = Vec::new();
    let mut used: Vec<bool> = Vec::new();
    let mut q: usize = 0;
    while q < n
        invariant
            q <= n,
            poses@ =~= Seq::new(q as nat, |t: int| Pose { x: 0, y: 0, rotated: false }),
            used@ =~= Seq::new(q as nat, |t: int| false),
        decreases n - q,
    {
        poses.push(Pose { x: 0, y: 0, rotated: false });
        used.push(false);
        q = q + 1;
    }
    let mut placed: Vec<usize> = Vec::new();
    let mut layout = Layout { strip_width: width, poses };
    let mut k: usize = 0;
    proof {
        reveal_with_fuel(spec_build_state, 1);
        assert(layout.poses@ =~= spec_build_state(*inst, width, 0).0);
        assert(used@ =~= spec_build_state(*inst, width, 0).1);
        assert(placed@ =~= spec_build_state(*inst, width, 0).2);
        lemma_unused_count_full(used@, n as int);
    }
    while k < n
        invariant
            inst.wf(),
            n == inst.items.len(),
            k <= n,
            1 <= width <= COORD_LIMIT,
            layout.strip_width == width,
            layout.wf(*inst),
            used.len() == n,
            placed.len() == k,
            forall|t: int| 0 <= t < placed.len() ==> #[trigger] placed[t] < n,
            spec_unused_count(used@, n as int) == n - k,
            (layout.poses@, used@, placed@) == spec_build_state(*inst, width, k as int),
        decreases n - k,
    {
        proof {
            lemma_argmax_valid(inst.items@, used@, n as int);
        }
        let sel_opt = argmax_unused(&inst.items, &used);
        let sel = match sel_opt {
            Option::Some(s) => s,
            Option::None => {
                proof {
                    assert(false);
                }
                0
            },
        };
        let cands = anchor_candidates(inst, &layout, sel, &placed);
        let b = best_candidate_sel(inst, &layout, &placed, sel, &cands);
        let chosen = cands[b];
        proof {
            lemma_unused_count_update(used@, n as int, sel as int);
        }
        layout.poses.set(sel, chosen);
        used.set(sel, true);
        placed.push(sel);
        k = k + 1;
        proof {
            reveal_with_fuel(spec_build_state, 2);
            reveal(spec_build_step);
            assert((layout.poses@, used@, placed@) == spec_build_state(*inst, width, k as int));
        }
    }
    Result::Ok(layout)
}

/// Once a prefix holds an unfit item, every longer prefix names the same
/// first unfit item.
pub proof fn lemma_first_unfit_persist(items: Seq<Item>, h: u64, m: int, n: int)
    requires
        0 <= m <= n,
        spec_first_unfit(items, h, m) != -1,
    ensures
        spec_first_unfit(items, h, n) == spec_first_unfit(items, h, m),
    decreases n,
{
    if n > m {
        lemma_first_unfit_persist(items, h, m, n - 1);
    }
}

/// Reproducibility of the construction: the heuristic draws nothing from
/// outside the instance, so any two constructed layouts for the same
/// instance hold identical poses.
pub proof fn lemma_construct_reproducible(inst: Instance, p1: Seq<Pose>, p2: Seq<Pose>)
    requires
        p1 == spec_build_state(inst, spec_init_width(inst), inst.items.len() as int).0,
        p2 == spec_build_state(inst, spec_init_width(inst), inst.items.len() as int).0,
    ensures
        p1 == p2,
{
}

/// A fresh flag sequence counts every index unused.
pub proof fn lemma_unused_count_full(used: Seq<bool>, n: int)
    requires
        forall|j: int| 0 <= j < n ==> !used[j],
        0 <= n <= used.len(),
    ensures
        spec_unused_count(used, n) == n,
    decreases n,
{
    if n > 0 {
        lemma_unused_count_full(used, n - 1);
        assert(!used[n - 1]);
    }
}

} // verus!
