//! Candidate-pose generation for one item: a deterministic set of anchor
//! poses snapped against the placed items' edges, plus a configurable number
//! of random poses — uniform over the current strip, or jittered around the
//! item's current pose. The whole sequence is a function of the layout and
//! the generator state, so runs are reproducible.
use crate::model::{Instance, Item, Layout, Pose, COORD_LIMIT};
use crate::rng::{spec_next_state, spec_next_value, Rng};
use vstd::prelude::*;

verus! {

/// Largest x a pose of extent `w` can take inside width `wd` (0 when the
/// item is wider than the strip).
pub open spec fn spec_slot(wd: u64, w: u64) -> u64 {
    if wd >= w {
        (wd - w) as u64
    } else {
        0
    }
}

/// Smaller of two words.
pub open spec fn spec_umin(a: u64, b: u64) -> u64 {
    if a <= b {
        a
    } else {
        b
    }
}

/// The three strip-corner anchor poses for item `i`: bottom-left, bottom-right
/// and top-left of the strip, unrotated.
pub open spec fn spec_base_anchors(inst: Instance, width: u64, i: int) -> Seq<Pose> {
    let it = inst.items[i];
    let xm = spec_slot(width, it.width);
    let ym = spec_slot(inst.strip_height, it.height);
    seq![
        Pose { x: 0, y: 0, rotated: false },
        Pose { x: xm, y: 0, rotated: false },
        Pose { x: 0, y: ym, rotated: false },
    ]
}

/// The four anchor poses of item `i` snapped against placed item `j`: flush
/// right of `j`, flush left of `j`, flush above `j`, flush below `j`, each
/// respecting the minimum separation and clamped into the strip.
pub open spec fn spec_anchors_at(inst: Instance, width: u64, poses: Seq<Pose>, i: int, j: int) -> Seq<Pose> {
    let it = inst.items[i];
    let xm = spec_slot(width, it.width);
    let ym = spec_slot(inst.strip_height, it.height);
    let pj = poses[j];
    let wj = inst.items[j].spec_eff_width(pj.rotated);
    let hj = inst.items[j].spec_eff_height(pj.rotated);
    let sep = inst.min_separation;
    let right = spec_umin((pj.x + wj + sep) as u64, xm);
    let left = if pj.x >= it.width + sep {
        spec_umin((pj.x - it.width - sep) as u64, xm)
    } else {
        0
    };
    let above = spec_umin((pj.y + hj + sep) as u64, ym);
    let below = if pj.y >= it.height + sep {
        spec_umin((pj.y - it.height - sep) as u64, ym)
    } else {
        0
    };
    let xj = spec_umin(pj.x, xm);
    let yj = spec_umin(pj.y, ym);
    seq![
        Pose { x: right, y: yj, rotated: false },
        Pose { x: left, y: yj, rotated: false },
        Pose { x: xj, y: above, rotated: false },
        Pose { x: xj, y: below, rotated: false },
    ]
}

/// Anchor poses of item `i` against the first `n` entries of the placed-item
/// list: the strip corners first, then four poses per placed item.
pub open spec fn spec_anchor_list(
    inst: Instance,
    width: u64,
    poses: Seq<Pose>,
    i: int,
    placed: Seq<usize>,
    n: int,
) -> Seq<Pose>
    decreases n,
{
    if n <= 0 {
        spec_base_anchors(inst, width, i)
    } else {
        spec_anchor_list(inst, width, poses, i, placed, n - 1) + spec_anchors_at(
            inst,
            width,
            poses,
            i,
            placed[n - 1] as int,
        )
    }
}

/// The inclusive draw window along one axis: the whole slot `[0, m]` when
/// `jitter` is zero, otherwise the jitter window around `c` clamped into the
/// slot.
pub open spec fn spec_window(c: u64, jitter: u64, m: u64) -> (u64, u64) {
    if jitter == 0 {
        (0u64, m)
    } else {
        let hi = spec_umin(c.wrapping_add(jitter), m);
        let lo = if c >= jitter {
            spec_umin((c - jitter) as u64, hi)
        } else {
            0u64
        };
        (lo, hi)
    }
}

/// One random pose for an item with slots `xm`, `ym`: uniform when `jitter`
/// is zero, otherwise drawn inside the jitter window around `center`. The
/// pose and the successor generator state are functions of the arguments.
pub open spec fn spec_one_random(
    it: Item,
    xm: u64,
    ym: u64,
    center: Pose,
    jitter: u64,
    s: u64,
) -> (Pose, u64) {
    let (xlo, xhi) = spec_window(center.x, jitter, xm);
    let (ylo, yhi) = spec_window(center.y, jitter, ym);
    let x = (xlo + spec_next_value(s) as int % (xhi - xlo + 1)) as u64;
    let s1 = spec_next_state(s);
    let y = (ylo + spec_next_value(s1) as int % (yhi - ylo + 1)) as u64;
    let s2 = spec_next_state(s1);
    if it.rotatable {
        let rot = spec_next_value(s2) % 2 == 0;
        let s3 = spec_next_state(s2);
        (Pose { x, y, rotated: rot }, s3)
    } else {
        (Pose { x, y, rotated: false }, s2)
    }
}

/// `k` random poses drawn in sequence, threading the generator state.
pub open spec fn spec_random_list(
    it: Item,
    xm: u64,
    ym: u64,
    center: Pose,
    jitter: u64,
    s: u64,
    k: int,
) -> (Seq<Pose>, u64)
    decreases k,
{
    if k <= 0 {
        (Seq::empty(), s)
    } else {
        let (pref, s1) = spec_random_list(it, xm, ym, center, jitter, s, k - 1);
        let (p, s2) = spec_one_random(it, xm, ym, center, jitter, s1);
        (pref.push(p), s2)
    }
}

/// The anchor list holds the three strip corners plus four poses per placed
/// item.
pub proof fn lemma_anchor_list_len(
    inst: Instance,
    width: u64,
    poses: Seq<Pose>,
    i: int,
    placed: Seq<usize>,
    n: int,
)
    requires
        0 <= n,
    ensures
        spec_anchor_list(inst, width, poses, i, placed, n).len() == 3 + 4 * n,
    decreases n,
{
    if n > 0 {
        lemma_anchor_list_len(inst, width, poses, i, placed, n - 1);
    }
}

/// Every pose of a candidate sequence stays inside the slots and only
/// rotates a rotatable item: what committing any of them needs to keep the
/// layout well formed.
pub open spec fn spec_cands_ok(cands: Seq<Pose>, it: Item, xm: u64, ym: u64) -> bool {
    forall|k: int|
        0 <= k < cands.len() ==> (#[trigger] cands[k]).x <= xm && cands[k].y <= ym && (
        cands[k].rotated ==> it.rotatable)
}

/// Largest x a pose of extent `w` can take inside width `wd`.
pub fn slot(wd: u64, w: u64) -> (r: u64)
    ensures
        r == spec_slot(wd, w),
{
    if wd >= w {
        wd - w
    } else {
        0
    }
}

/// Smaller of two words.
pub fn umin(a: u64, b: u64) -> (r: u64)
    ensures
        r == spec_umin(a, b),
{
    if a <= b {
        a
    } else {
        b
    }
}

/// Builds the anchor candidates of item `i` against the placed items listed
/// in `placed`.
pub fn anchor_candidates(inst: &Instance, layout: &Layout, i: usize, placed: &Vec<usize>) -> (r:
    Vec<Pose>)
    requires
        inst.wf(),
        layout.wf(*inst),
        i < inst.items.len(),
        forall|k: int| 0 <= k < placed.len() ==> #[trigger] placed[k] < inst.items.len(),
    ensures
        r@ == spec_anchor_list(*inst, layout.strip_width, layout.poses@, i as int, placed@, placed.len() as int),
        spec_cands_ok(
            r@,
            inst.items[i as int],
            spec_slot(layout.strip_width, inst.items[i as int].width),
            spec_slot(inst.strip_height, inst.items[i as int].height),
        ),
        r.len() >= 3,
{
    let it = inst.items[i];
    let xm = slot(layout.strip_width, it.width);
    let ym = slot(inst.strip_height, it.height);
    let mut r: Vec<Pose> = Vec::new();
    r.push(Pose { x: 0, y: 0, rotated: false });
    r.push(Pose { x: xm, y: 0, rotated: false });
    r.push(Pose { x: 0, y: ym, rotated: false });
    assert(r@ =~= spec_base_anchors(*inst, layout.strip_width, i as int));
    let mut k: usize = 0;
    while k < placed.len()
        invariant
            inst.wf(),
            layout.wf(*inst),
            i < inst.items.len(),
            it == inst.items[i as int],
            xm == spec_slot(layout.strip_width, it.width),
            ym == spec_slot(inst.strip_height, it.height),
            forall|q: int| 0 <= q < placed.len() ==> #[trigger] placed[q] < inst.items.len(),
            k <= placed.len(),
            r@ == spec_anchor_list(*inst, layout.strip_width, layout.poses@, i as int, placed@, k as int),
            spec_cands_ok(r@, it, xm, ym),
            r.len() >= 3,
        decreases placed.len() - k,
    {
        let j = placed[k];
        let pj = layout.poses[j];
        let wj = inst.items[j].eff_width(pj.rotated);
        let hj = inst.items[j].eff_height(pj.rotated);
        let sep = inst.min_separation;
        let right = umin(pj.x + wj + sep, xm);
        let left = if pj.x >= it.width + sep {
            umin(pj.x - it.width - sep, xm)
        } else {
            0
        };
        let above = umin(pj.y + hj + sep, ym);
        let below = if pj.y >= it.height + sep {
            umin(pj.y - it.height - sep, ym)
        } else {
            0
        };
        let xj = umin(pj.x, xm);
        let yj = umin(pj.y, ym);
        r.push(Pose { x: right, y: yj, rotated: false });
        r.push(Pose { x: left, y: yj, rotated: false });
        r.push(Pose { x: xj, y: above, rotated: false });
        r.push(Pose { x: xj, y: below, rotated: false });
        k = k + 1;
        assert(r@ =~= spec_anchor_list(*inst, layout.strip_width, layout.poses@, i as int, placed@, k as int));
    }
    r
}

/// Draws `k` random candidate poses for item `i`, uniform over the strip
/// when `jitter` is zero and inside the jitter window around `center`
/// otherwise. The poses and the final generator state are functions of the
/// arguments and the starting state.
pub fn random_candidates(
    inst: &Instance,
    layout: &Layout,
    i: usize,
    center: Pose,
    jitter: u64,
    k: usize,
    rng: &mut Rng,
) -> (r: Vec<Pose>)
    requires
        inst.wf(),
        layout.wf(*inst),
        i < inst.items.len(),
        center.x <= COORD_LIMIT,
        center.y <= COORD_LIMIT,
        jitter <= COORD_LIMIT,
    ensures
        (r@, final(rng).state) == spec_random_list(
            inst.items[i as int],
            spec_slot(layout.strip_width, inst.items[i as int].width),
            spec_slot(inst.strip_height, inst.items[i as int].height),
            center,
            jitter,
            old(rng).state,
            k as int,
        ),
        spec_cands_ok(
            r@,
            inst.items[i as int],
            spec_slot(layout.strip_width, inst.items[i as int].width),
            spec_slot(inst.strip_height, inst.items[i as int].height),
        ),
        r.len() == k,
{
    let it = inst.items[i];
    let xm = slot(layout.strip_width, it.width);
    let ym = slot(inst.strip_height, it.height);
    let (xlo, xhi) = window(center.x, jitter, xm);
    let (ylo, yhi) = window(center.y, jitter, ym);
    let mut r: Vec<Pose> = Vec::new();
    let mut q: usize = 0;
    while q < k
        invariant
            it == inst.items[i as int],
            xm == spec_slot(layout.strip_width, it.width),
            ym == spec_slot(inst.strip_height, it.height),
            (xlo, xhi) == spec_window(center.x, jitter, xm),
            (ylo, yhi) == spec_window(center.y, jitter, ym),
            xlo <= xhi <= xm <= COORD_LIMIT,
            ylo <= yhi <= ym <= COORD_LIMIT,
            q <= k,
            (r@, rng.state) == spec_random_list(it, xm, ym, center, jitter, old(rng).state,
                q as int),
            spec_cands_ok(r@, it, xm, ym),
            r.len() == q,
        decreases k - q,
    {
        let ghost s0 = rng.state;
        let x = rng.next_in_range(xlo, xhi);
        let y = rng.next_in_range(ylo, yhi);
        let rot = if it.rotatable {
            rng.next_below(2) == 0
        } else {
            false
        };
        proof {
            assert(spec_one_random(it, xm, ym, center, jitter, s0) == (
                Pose { x, y, rotated: rot },
                rng.state,
            ));
        }
        r.push(Pose { x, y, rotated: rot });
        q = q + 1;
        proof {
            assert((r@, rng.state) == spec_random_list(
                it,
                xm,
                ym,
                center,
                jitter,
                old(rng).state,
                q as int,
            ));
        }
    }
    r
}

/// The inclusive draw window along one axis (see `spec_window`).
fn window(c: u64, jitter: u64, m: u64) -> (r: (u64, u64))
    ensures
        r == spec_window(c, jitter, m),
        r.0 <= r.1 <= m,
{
    if jitter == 0 {
        (0, m)
    } else {
        let hi = umin(c.wrapping_add(jitter), m);
        let lo = if c >= jitter {
            umin(c - jitter, hi)
        } else {
            0
        };
        (lo, hi)
    }
}

} // verus!
