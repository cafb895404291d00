//! Data model of a strip-packing run: items, poses, the instance and the
//! mutable layout, with their well-formedness conditions.
//!
//! All coordinates are non-negative integers bounded by `COORD_LIMIT`, which
//! keeps every score computed over a layout well inside `u128`.
use vstd::prelude::*;

verus! {

/// Upper bound on every coordinate, dimension, separation and strip measure.
pub const COORD_LIMIT: u64 = 1073741824;

/// One rigid item to place: an axis-aligned rectangle that may or may not be
/// allowed a quarter turn.
#[derive(Clone, Copy, PartialEq, Eq, Structural, Debug)]
pub struct Item {
    /// Identifier carried through from the imported instance.
    pub id: u64,
    /// Horizontal extent when not rotated.
    pub width: u64,
    /// Vertical extent when not rotated.
    pub height: u64,
    /// Whether a quarter-turn rotation (swapping the extents) is allowed.
    pub rotatable: bool,
}

/// A placement of one item: translation plus rotation. A plain value with no
/// identity.
#[derive(Clone, Copy, PartialEq, Eq, Structural, Debug)]
pub struct Pose {
    /// Distance from the strip's left edge.
    pub x: u64,
    /// Distance from the strip's bottom edge.
    pub y: u64,
    /// Whether the item stands rotated by a quarter turn.
    pub rotated: bool,
}

/// The immutable problem statement: strip height, minimum separation between
/// items, and the items to place. Shared read-only across phases.
#[derive(Clone, Debug)]
pub struct Instance {
    /// Fixed height of the strip.
    pub strip_height: u64,
    /// Minimum required gap between any two placed items.
    pub min_separation: u64,
    /// The items to place.
    pub items: Vec<Item>,
}

/// A mutable assignment of one pose per item, against a current strip width.
#[derive(Clone, Debug)]
pub struct Layout {
    /// Current width of the strip this layout is placed in.
    pub strip_width: u64,
    /// One pose per item of the instance, in item order.
    pub poses: Vec<Pose>,
}

impl Item {
    /// An item is well formed when both extents are positive and bounded.
    pub open spec fn wf(self) -> bool {
        1 <= self.width <= COORD_LIMIT && 1 <= self.height <= COORD_LIMIT
    }

    /// Horizontal extent under the given rotation.
    pub open spec fn spec_eff_width(self, rotated: bool) -> u64 {
        if rotated {
            self.height
        } else {
            self.width
        }
    }

    /// Vertical extent under the given rotation.
    pub open spec fn spec_eff_height(self, rotated: bool) -> u64 {
        if rotated {
            self.width
        } else {
            self.height
        }
    }

    /// Horizontal extent under the given rotation.
    pub fn eff_width(&self, rotated: bool) -> (r: u64)
        ensures
            r == self.spec_eff_width(rotated),
    {
        if rotated {
            self.height
        } else {
            self.width
        }
    }

    /// Vertical extent under the given rotation.
    pub fn eff_height(&self, rotated: bool) -> (r: u64)
        ensures
            r == self.spec_eff_height(rotated),
    {
        if rotated {
            self.width
        } else {
            self.height
        }
    }

    /// The larger of the two extents: the measure the construction heuristic
    /// orders items by.
    pub open spec fn spec_max_extent(self) -> u64 {
        if self.width >= self.height {
            self.width
        } else {
            self.height
        }
    }

    /// The larger of the two extents.
    pub fn max_extent(&self) -> (r: u64)
        ensures
            r == self.spec_max_extent(),
    {
        if self.width >= self.height {
            self.width
        } else {
            self.height
        }
    }

    /// Area of the item, independent of rotation.
    pub open spec fn spec_area(self) -> int {
        self.width * self.height
    }
}

/// Sum of `max_extent + min_separation` over a prefix of the items: the strip
/// width that always suffices to place them side by side.
pub open spec fn spec_extent_sum(items: Seq<Item>, sep: int, n: int) -> int
    decreases n,
{
    if n <= 0 {
        0
    } else {
        spec_extent_sum(items, sep, n - 1) + items[n - 1].spec_max_extent() + sep
    }
}

/// Sum of the items' areas over a prefix.
pub open spec fn spec_area_sum(items: Seq<Item>, n: int) -> int
    decreases n,
{
    if n <= 0 {
        0
    } else {
        spec_area_sum(items, n - 1) + items[n - 1].spec_area()
    }
}

impl Instance {
    /// An instance is well formed when the strip height and separation are
    /// bounded, every item is well formed, and the items laid side by side
    /// (worst rotation) still fit a bounded strip width. The last condition is
    /// a machine limit: it keeps every width the search ever proposes, and
    /// every score, bounded.
    pub open spec fn wf(self) -> bool {
        &&& 1 <= self.strip_height <= COORD_LIMIT
        &&& self.min_separation <= COORD_LIMIT
        &&& self.items.len() <= 0x1000000
        &&& forall|i: int| 0 <= i < self.items.len() ==> (#[trigger] self.items[i]).wf()
        &&& spec_extent_sum(self.items@, self.min_separation as int, self.items.len() as int)
            <= COORD_LIMIT
    }

    /// Number of items.
    pub fn n_items(&self) -> (r: usize)
        ensures
            r == self.items.len(),
    {
        self.items.len()
    }

    /// Decides the well-formedness condition, exactly: what an embedder
    /// calls on imported data before handing the instance to the library.
    pub fn check_wf(&self) -> (r: bool)
        ensures
            r == self.wf(),
    {
        if !(1 <= self.strip_height && self.strip_height <= COORD_LIMIT) {
            return false;
        }
        if self.min_separation > COORD_LIMIT {
            return false;
        }
        if self.items.len() > 0x1000000 {
            return false;
        }
        let n = self.items.len();
        let mut i: usize = 0;
        while i < n
            invariant
                n == self.items.len() <= 0x1000000,
                i <= n,
                forall|j: int| 0 <= j < i ==> (#[trigger] self.items[j]).wf(),
            decreases n - i,
        {
            let it = self.items[i];
            if !(1 <= it.width && it.width <= COORD_LIMIT && 1 <= it.height && it.height
                <= COORD_LIMIT) {
                assert(!self.items[i as int].wf());
                return false;
            }
            i = i + 1;
        }
        let mut acc: u64 = 0;
        let mut k: usize = 0;
        while k < n
            invariant
                n == self.items.len() <= 0x1000000,
                self.min_separation <= COORD_LIMIT,
                forall|j: int| 0 <= j < n ==> (#[trigger] self.items[j]).wf(),
                k <= n,
                acc == spec_extent_sum(self.items@, self.min_separation as int, k as int),
                acc <= (k as int) * 0x80000001,
            decreases n - k,
        {
            let e = self.items[k].max_extent();
            proof {
                assert((k as int) * 0x80000001 + 0x80000001 == (k + 1) * 0x80000001)
                    by (nonlinear_arith);
                assert((k + 1) * 0x80000001 <= 0x1000000 * 0x80000001) by (nonlinear_arith)
                    requires
                        0 <= k < 0x1000000,
                ;
            }
            acc = acc + e + self.min_separation;
            k = k + 1;
        }
        acc <= COORD_LIMIT
    }

    /// An exact copy of the instance, for a component that owns its own
    /// read-only view of the problem.
    pub fn duplicate(&self) -> (r: Instance)
        ensures
            spec_same_problem(r, *self),
    {
        let mut items: Vec<Item> = Vec::new();
        let mut i: usize = 0;
        while i < self.items.len()
            invariant
                i <= self.items.len(),
                items@ == self.items@.subrange(0, i as int),
            decreases self.items.len() - i,
        {
            items.push(self.items[i]);
            i = i + 1;
            assert(items@ =~= self.items@.subrange(0, i as int));
        }
        assert(items@ =~= self.items@);
        Instance {
            strip_height: self.strip_height,
            min_separation: self.min_separation,
            items,
        }
    }
}

/// Two instances state the same problem: equal strip height, separation
/// and item sequence (the carrying vectors may be distinct values).
pub open spec fn spec_same_problem(a: Instance, b: Instance) -> bool {
    &&& a.strip_height == b.strip_height
    &&& a.min_separation == b.min_separation
    &&& a.items@ == b.items@
}

/// Well-formedness depends on the problem alone, not the carrying vector.
pub proof fn lemma_same_problem_wf(a: Instance, b: Instance)
    requires
        spec_same_problem(a, b),
    ensures
        a.wf() <==> b.wf(),
{
    assert(a.items.len() == b.items.len());
    assert(forall|i: int| 0 <= i < a.items.len() ==> a.items[i] == b.items[i]);
}

/// A layout's validity depends on the problem alone.
pub proof fn lemma_same_problem_layout(a: Instance, b: Instance, l: Layout)
    requires
        spec_same_problem(a, b),
    ensures
        l.wf(a) <==> l.wf(b),
{
    assert(forall|i: int| 0 <= i < a.items.len() ==> a.items[i] == b.items[i]);
}

/// Each well-formed item contributes at least one unit to the extent sum, so
/// the sum bounds the item count from above.
pub proof fn lemma_extent_sum_lower(items: Seq<Item>, sep: int, n: int)
    requires
        forall|i: int| 0 <= i < items.len() ==> (#[trigger] items[i]).wf(),
        sep >= 0,
        n <= items.len(),
    ensures
        spec_extent_sum(items, sep, n) >= n,
    decreases n,
{
    if n > 0 {
        lemma_extent_sum_lower(items, sep, n - 1);
        assert(items[n - 1].wf());
    }
}

/// A well-formed instance holds at most `COORD_LIMIT` items: the side-by-side
/// extent of its items is bounded and each takes at least one unit of it.
pub proof fn lemma_item_count_bounded(inst: Instance)
    requires
        inst.wf(),
    ensures
        inst.items.len() <= COORD_LIMIT,
{
    lemma_extent_sum_lower(
        inst.items@,
        inst.min_separation as int,
        inst.items.len() as int,
    );
}

impl Layout {
    /// A layout is valid only against the instance it was built for: one pose
    /// per item, bounded coordinates and width, and no pose rotated unless its
    /// item allows it.
    pub open spec fn wf(self, inst: Instance) -> bool {
        &&& self.poses.len() == inst.items.len()
        &&& 1 <= self.strip_width <= COORD_LIMIT
        &&& forall|i: int|
            0 <= i < self.poses.len() ==> (#[trigger] self.poses[i]).x <= COORD_LIMIT
                && self.poses[i].y <= COORD_LIMIT && (self.poses[i].rotated
                ==> inst.items[i].rotatable)
    }

    /// An exact copy of the layout: phases clone at each hand-off so they
    /// never alias mutable state.
    pub fn duplicate(&self) -> (r: Layout)
        ensures
            r.strip_width == self.strip_width,
            r.poses@ == self.poses@,
    {
        let mut poses: Vec<Pose> = Vec::new();
        let mut i: usize = 0;
        while i < self.poses.len()
            invariant
                i <= self.poses.len(),
                poses@ == self.poses@.subrange(0, i as int),
            decreases self.poses.len() - i,
        {
            poses.push(self.poses[i]);
            i = i + 1;
            assert(poses@ =~= self.poses@.subrange(0, i as int));
        }
        assert(poses@ =~= self.poses@);
        Layout { strip_width: self.strip_width, poses }
    }
}

/// Total area of the first `n` items, computed exactly.
pub fn area_sum(items: &Vec<Item>) -> (r: u128)
    requires
        forall|i: int| 0 <= i < items.len() ==> (#[trigger] items[i]).wf(),
        items.len() <= COORD_LIMIT,
    ensures
        r == spec_area_sum(items@, items.len() as int),
        r <= 0x40000000 * 0x1000000000000000,
{
    let mut acc: u128 = 0;
    let mut i: usize = 0;
    while i < items.len()
        invariant
            forall|q: int| 0 <= q < items.len() ==> (#[trigger] items[q]).wf(),
            items.len() <= COORD_LIMIT,
            i <= items.len(),
            acc == spec_area_sum(items@, i as int),
            acc <= (i as int) * 0x1000000000000000,
        decreases items.len() - i,
    {
        let it = items[i];
        proof {
            assert(it.width * it.height <= 0x1000000000000000) by (nonlinear_arith)
                requires
                    it.width <= 0x40000000,
                    it.height <= 0x40000000,
            ;
            assert((i as int) * 0x1000000000000000 + 0x1000000000000000 == (i + 1)
                * 0x1000000000000000) by (nonlinear_arith);
            assert((i + 1) * 0x1000000000000000 <= 0x40000001 * 0x1000000000000000)
                by (nonlinear_arith)
                requires
                    0 <= i < 0x40000001,
            ;
        }
        let a: u128 = (it.width as u128) * (it.height as u128);
        acc = acc + a;
        i = i + 1;
    }
    acc
}

/// Density of a layout in parts per million: total item area over the used
/// strip area (current width times strip height), saturated at `u64::MAX`.
/// Always recomputed from the layout it is asked about, never cached.
pub fn density_ppm(inst: &Instance, layout: &Layout) -> (r: u64)
    requires
        inst.wf(),
        layout.wf(*inst),
    ensures
        r as int == if spec_density_ppm(*inst, layout.strip_width) > u64::MAX as int {
            u64::MAX as int
        } else {
            spec_density_ppm(*inst, layout.strip_width)
        },
{
    proof {
        lemma_item_count_bounded(*inst);
    }
    let area = area_sum(&inst.items);
    proof {
        assert(1 <= layout.strip_width * inst.strip_height <= 0x1000000000000000)
            by (nonlinear_arith)
            requires
                1 <= layout.strip_width <= 0x40000000,
                1 <= inst.strip_height <= 0x40000000,
        ;
    }
    let used = (layout.strip_width as u128) * (inst.strip_height as u128);
    proof {
        assert(area * 1000000 < u128::MAX) by (nonlinear_arith)
            requires
                0 <= area <= 0x40000000 * 0x1000000000000000,
        ;
    }
    let scaled = area * 1000000;
    let q = scaled / used;
    if q > u64::MAX as u128 {
        u64::MAX
    } else {
        q as u64
    }
}

/// Density of a layout of the given width in parts per million, as a
/// function of the instance and the width alone.
pub open spec fn spec_density_ppm(inst: Instance, width: u64) -> int {
    spec_area_sum(inst.items@, inst.items.len() as int) * 1000000 / (width
        * inst.strip_height)
}

/// For one instance, a narrower layout is never less dense: density compares
/// as the reciprocal of the used width.
pub proof fn lemma_density_antitone(inst: Instance, w1: u64, w2: u64)
    requires
        inst.wf(),
        1 <= w1 <= w2,
    ensures
        spec_density_ppm(inst, w2) <= spec_density_ppm(inst, w1),
{
    lemma_area_sum_nonneg(inst.items@, inst.items.len() as int);
    assert(spec_area_sum(inst.items@, inst.items.len() as int) * 1000000 >= 0)
        by (nonlinear_arith)
        requires
            spec_area_sum(inst.items@, inst.items.len() as int) >= 0,
    ;
    assert(w1 * inst.strip_height <= w2 * inst.strip_height) by (nonlinear_arith)
        requires
            w1 <= w2,
            inst.strip_height >= 0,
    ;
    assert(1 <= w1 * inst.strip_height) by (nonlinear_arith)
        requires
            w1 >= 1,
            inst.strip_height >= 1,
    ;
    vstd::arithmetic::div_mod::lemma_div_is_ordered_by_denominator(
        spec_area_sum(inst.items@, inst.items.len() as int) * 1000000,
        w1 * inst.strip_height,
        w2 * inst.strip_height,
    );
}

/// The area sum of well-formed items is never negative.
pub proof fn lemma_area_sum_nonneg(items: Seq<Item>, n: int)
    ensures
        n <= items.len() ==> spec_area_sum(items, n) >= 0,
    decreases n,
{
    if n > 0 && n <= items.len() {
        lemma_area_sum_nonneg(items, n - 1);
        assert(items[n - 1].width * items[n - 1].height >= 0) by (nonlinear_arith)
            requires
                items[n - 1].width >= 0,
                items[n - 1].height >= 0,
        ;
    }
}

} // verus!
