//! Solutions and the listener capability. A Solution is an immutable
//! snapshot of a layout with its derived feasibility; the listener is an
//! injected capability notified with snapshots at defined report points,
//! with a no-op default.
use crate::model::{spec_density_ppm, Instance, Layout};
use crate::quantify::{is_feasible, spec_feasible};
use vstd::prelude::*;

verus! {

/// The report points a listener is notified at.
#[derive(Clone, Copy, PartialEq, Eq, Structural, Debug)]
pub enum ReportType {
    /// Exploration found a feasible layout denser than any before it.
    ExplImproving,
    /// Exploration reached a feasible layout.
    ExplFeas,
    /// Exploration reports a still-infeasible layout.
    ExplInfeas,
    /// Compression accepted a shrink and regained feasibility.
    CmprFeas,
    /// The final layout of the run.
    Final,
}

/// An immutable capture of a layout plus its derived feasibility flag.
/// Density is always recomputed through `density`, never cached.
#[derive(Clone, Debug)]
pub struct Solution {
    /// The captured layout.
    pub layout: Layout,
    /// Whether the captured layout is feasible.
    pub feasible: bool,
}

impl Solution {
    /// The snapshot is consistent: the layout is valid against the instance
    /// and the flag states exactly its feasibility.
    #[verifier::opaque]
    pub open spec fn wf(self, inst: Instance) -> bool {
        &&& self.layout.wf(inst)
        &&& self.feasible == spec_feasible(inst, self.layout.strip_width, self.layout.poses@)
    }

    /// Captures the given layout, deriving its feasibility.
    pub fn snapshot(inst: &Instance, layout: &Layout) -> (r: Solution)
        requires
            inst.wf(),
            layout.wf(*inst),
        ensures
            r.wf(*inst),
            r.layout.strip_width == layout.strip_width,
            r.layout.poses@ == layout.poses@,
            r.feasible == spec_feasible(*inst, layout.strip_width, layout.poses@),
    {
        proof {
            reveal(Solution::wf);
        }
        let feasible = is_feasible(inst, layout);
        Solution { layout: layout.duplicate(), feasible }
    }

    /// An exact copy of the snapshot.
    pub fn duplicate(&self) -> (r: Solution)
        ensures
            r.feasible == self.feasible,
            r.layout.strip_width == self.layout.strip_width,
            r.layout.poses@ == self.layout.poses@,
    {
        Solution { layout: self.layout.duplicate(), feasible: self.feasible }
    }

    /// Width of the captured strip.
    pub fn strip_width(&self) -> (r: u64)
        ensures
            r == self.layout.strip_width,
    {
        self.layout.strip_width
    }

    /// Density of the captured layout in parts per million, recomputed from
    /// the snapshot.
    pub fn density(&self, inst: &Instance) -> (r: u64)
        requires
            inst.wf(),
            self.layout.wf(*inst),
        ensures
            r as int == if spec_density_ppm(*inst, self.layout.strip_width) > u64::MAX as int {
                u64::MAX as int
            } else {
                spec_density_ppm(*inst, self.layout.strip_width)
            },
    {
        crate::model::density_ppm(inst, &self.layout)
    }
}

/// A snapshot's consistency depends on the problem alone, not on the
/// vector carrying the instance's items.
pub proof fn lemma_same_problem_solution(a: Instance, b: Instance, s: Solution)
    requires
        crate::model::spec_same_problem(a, b),
    ensures
        s.wf(a) <==> s.wf(b),
{
    reveal(Solution::wf);
    crate::model::lemma_same_problem_layout(a, b, s.layout);
    crate::quantify::lemma_same_problem_feasible(a, b, s.layout.strip_width, s.layout.poses@);
}

/// The outbound listener capability: called synchronously at each report
/// point with the snapshot and the instance. Implementations must not block
/// the optimizer indefinitely — a slow listener directly slows the run.
pub trait SolutionListener: Sized {
    /// One report: the kind of point reached, the snapshot, the instance.
    fn report(&mut self, kind: ReportType, sol: &Solution, inst: &Instance);
}

/// The no-op default listener.
pub struct DummySolListener;

impl SolutionListener for DummySolListener {
    fn report(&mut self, kind: ReportType, sol: &Solution, inst: &Instance) {
    }
}

} // verus!
