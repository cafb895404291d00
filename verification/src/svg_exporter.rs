//! A listener that turns report points into layout-export actions. The
//! exporter owns its own export counter (no process-wide state) and decides,
//! from its configured targets and the report kind, which files are due:
//! the live view on every report, one numbered intermediate file per
//! non-improving report, and the final file on the final report. Each
//! queued export carries the snapshot reported at the time. Performing the
//! writes is the embedder's part; the exporter only queues the decided
//! actions.
use crate::listener::{ReportType, Solution, SolutionListener};
use crate::model::Instance;
use vstd::prelude::*;

verus! {

/// Which configured target an export action is due for.
#[derive(Clone, Copy, PartialEq, Eq, Structural, Debug)]
pub enum SvgTarget {
    /// Overwrite the live view file.
    Live,
    /// Write a new numbered file into the intermediate directory.
    Intermediate,
    /// Write the final file.
    Final,
}

/// One decided export: the target, the exporter's counter at decision time,
/// the snapshot's strip width and the report kind that triggered it.
#[derive(Clone, Copy, PartialEq, Eq, Structural, Debug)]
pub struct SvgAction {
    /// The configured target the write is due for.
    pub target: SvgTarget,
    /// The export counter at decision time: numbers intermediate files.
    pub counter: u64,
    /// Strip width of the reported snapshot, for the file name.
    pub width: u64,
    /// The report kind that triggered the action.
    pub kind: ReportType,
}

/// One queued export: the decided action together with the snapshot
/// reported at the time, which the write renders.
pub struct SvgExport {
    /// The decided action.
    pub action: SvgAction,
    /// The snapshot reported at decision time.
    pub solution: Solution,
}

/// The file-name suffix of each report kind.
pub open spec fn spec_suffix(kind: ReportType) -> Seq<char> {
    match kind {
        ReportType::CmprFeas => "cmpr"@,
        ReportType::ExplInfeas => "expl_nf"@,
        ReportType::ExplFeas => "expl_f"@,
        ReportType::Final => "final"@,
        ReportType::ExplImproving => "expl_i"@,
    }
}

impl ReportType {
    /// The file-name suffix of this report kind.
    pub fn file_suffix(self) -> (r: &'static str)
        ensures
            r@ == spec_suffix(self),
    {
        match self {
            ReportType::CmprFeas => "cmpr",
            ReportType::ExplInfeas => "expl_nf",
            ReportType::ExplFeas => "expl_f",
            ReportType::Final => "final",
            ReportType::ExplImproving => "expl_i",
        }
    }
}

/// The deciding rule: which actions one report adds, given the configured
/// targets and the counter.
pub open spec fn spec_report_actions(
    has_live: bool,
    has_intermediate: bool,
    has_final: bool,
    counter: u64,
    width: u64,
    kind: ReportType,
) -> Seq<SvgAction> {
    let live: Seq<SvgAction> = if has_live {
        seq![SvgAction { target: SvgTarget::Live, counter, width, kind }]
    } else {
        Seq::empty()
    };
    let mid: Seq<SvgAction> = if has_intermediate && kind != ReportType::ExplImproving {
        seq![SvgAction { target: SvgTarget::Intermediate, counter, width, kind }]
    } else {
        Seq::empty()
    };
    let fin: Seq<SvgAction> = if has_final && kind == ReportType::Final {
        seq![SvgAction { target: SvgTarget::Final, counter, width, kind }]
    } else {
        Seq::empty()
    };
    live + mid + fin
}

/// The counter after one report: advanced once per intermediate file.
pub open spec fn spec_count_after(
    has_intermediate: bool,
    counter: u64,
    kind: ReportType,
) -> u64 {
    if has_intermediate && kind != ReportType::ExplImproving {
        counter.wrapping_add(1)
    } else {
        counter
    }
}

/// What one report adds to the queue: the decided actions in order, each
/// carrying the reported snapshot's layout.
pub open spec fn spec_queue_after(
    pending: Seq<SvgExport>,
    actions: Seq<SvgAction>,
    sol: Solution,
) -> bool {
    &&& forall|q: int|
        pending.len() - actions.len() <= q < pending.len() ==> (#[trigger] pending[q]).action
            == actions[q - (pending.len() - actions.len())]
    &&& forall|q: int|
        pending.len() - actions.len() <= q < pending.len() ==> (
        #[trigger] pending[q]).solution.feasible == sol.feasible && pending[
            q].solution.layout.strip_width == sol.layout.strip_width && pending[
            q].solution.layout.poses@ == sol.layout.poses@
}

/// The exporter: configured targets, its own counter, and the queue of
/// decided exports.
pub struct SvgExporter {
    /// Counts the intermediate files written, numbering their names.
    pub svg_counter: u64,
    /// Path to write the final file to, if configured.
    pub final_path: Option<String>,
    /// Directory to write the numbered intermediate files to, if configured.
    pub intermediate_dir: Option<String>,
    /// Path to overwrite with the live view, if configured.
    pub live_path: Option<String>,
    /// The decided, not yet performed, exports.
    pub pending: Vec<SvgExport>,
}

impl SvgExporter {
    /// A fresh exporter over the given targets, with the counter at zero
    /// and nothing pending.
    pub fn new(
        final_path: Option<String>,
        intermediate_dir: Option<String>,
        live_path: Option<String>,
    ) -> (r: SvgExporter)
        ensures
            r.final_path == final_path,
            r.intermediate_dir == intermediate_dir,
            r.live_path == live_path,
            r.svg_counter == 0,
            r.pending@.len() == 0,
    {
        SvgExporter { svg_counter: 0, final_path, intermediate_dir, live_path, pending: Vec::new() }
    }

    /// The export counter.
    pub fn svg_count(&self) -> (r: u64)
        ensures
            r == self.svg_counter,
    {
        self.svg_counter
    }

    /// Decides the exports one report adds — exactly those of
    /// `spec_report_actions`, each carrying the reported snapshot — and
    /// advances the counter once per intermediate file.
    pub fn record(&mut self, kind: ReportType, sol: &Solution)
        ensures
            final(self).pending@.len() == old(self).pending@.len() + spec_report_actions(
                old(self).live_path is Some,
                old(self).intermediate_dir is Some,
                old(self).final_path is Some,
                old(self).svg_counter,
                sol.layout.strip_width,
                kind,
            ).len(),
            forall|q: int|
                0 <= q < old(self).pending@.len() ==> (#[trigger] final(self).pending@[q]).action
                    == old(self).pending@[q].action,
            spec_queue_after(
                final(self).pending@,
                spec_report_actions(
                    old(self).live_path is Some,
                    old(self).intermediate_dir is Some,
                    old(self).final_path is Some,
                    old(self).svg_counter,
                    sol.layout.strip_width,
                    kind,
                ),
                *sol,
            ),
            final(self).svg_counter == spec_count_after(
                old(self).intermediate_dir is Some,
                old(self).svg_counter,
                kind,
            ),
            final(self).final_path == old(self).final_path,
            final(self).intermediate_dir == old(self).intermediate_dir,
            final(self).live_path == old(self).live_path,
    {
        let counter = self.svg_counter;
        let width = sol.layout.strip_width;
        if self.live_path.is_some() {
            let act = SvgAction { target: SvgTarget::Live, counter, width, kind };
            self.pending.push(SvgExport { action: act, solution: sol.duplicate() });
        }
        if self.intermediate_dir.is_some() && !matches!(kind, ReportType::ExplImproving) {
            let act = SvgAction { target: SvgTarget::Intermediate, counter, width, kind };
            self.pending.push(SvgExport { action: act, solution: sol.duplicate() });
            self.svg_counter = self.svg_counter.wrapping_add(1);
        }
        if self.final_path.is_some() && matches!(kind, ReportType::Final) {
            let act = SvgAction { target: SvgTarget::Final, counter, width, kind };
            self.pending.push(SvgExport { action: act, solution: sol.duplicate() });
        }
    }

    /// Hands the queued exports to the embedder and clears the queue.
    pub fn take_pending(&mut self) -> (r: Vec<SvgExport>)
        ensures
            r@ == old(self).pending@,
            final(self).pending@.len() == 0,
            final(self).svg_counter == old(self).svg_counter,
            final(self).final_path == old(self).final_path,
            final(self).intermediate_dir == old(self).intermediate_dir,
            final(self).live_path == old(self).live_path,
    {
        let mut r: Vec<SvgExport> = Vec::new();
        core::mem::swap(&mut r, &mut self.pending);
        r
    }
}

impl SolutionListener for SvgExporter {
    /// One report point: queues exactly the exports of
    /// `spec_report_actions` for the reported snapshot and advances the
    /// counter once per intermediate file.
    fn report(&mut self, kind: ReportType, sol: &Solution, inst: &Instance)
        ensures
            final(self).pending@.len() == old(self).pending@.len() + spec_report_actions(
                old(self).live_path is Some,
                old(self).intermediate_dir is Some,
                old(self).final_path is Some,
                old(self).svg_counter,
                sol.layout.strip_width,
                kind,
            ).len(),
            forall|q: int|
                0 <= q < old(self).pending@.len() ==> (#[trigger] final(self).pending@[q]).action
                    == old(self).pending@[q].action,
            spec_queue_after(
                final(self).pending@,
                spec_report_actions(
                    old(self).live_path is Some,
                    old(self).intermediate_dir is Some,
                    old(self).final_path is Some,
                    old(self).svg_counter,
                    sol.layout.strip_width,
                    kind,
                ),
                *sol,
            ),
            final(self).svg_counter == spec_count_after(
                old(self).intermediate_dir is Some,
                old(self).svg_counter,
                kind,
            ),
            final(self).final_path == old(self).final_path,
            final(self).intermediate_dir == old(self).intermediate_dir,
            final(self).live_path == old(self).live_path,
    {
        self.record(kind, sol);
    }
}

} // verus!
