//! Tests of the export-deciding listener: which exports each report kind
//! queues, the snapshot each carries, the file-name suffixes, and how the
//! counter advances.
use stripnest::listener::{ReportType, Solution, SolutionListener};
use stripnest::model::{Instance, Item, Layout, Pose};
use stripnest::svg_exporter::{SvgExporter, SvgTarget};

fn sample_solution() -> (Instance, Solution) {
    let inst = Instance {
        strip_height: 4,
        min_separation: 0,
        items: vec![Item { id: 0, width: 2, height: 2, rotatable: false }],
    };
    let layout = Layout { strip_width: 6, poses: vec![Pose { x: 0, y: 0, rotated: false }] };
    let sol = Solution::snapshot(&inst, &layout);
    (inst, sol)
}

#[test]
fn all_targets_on_final_report() {
    let (inst, sol) = sample_solution();
    let mut ex = SvgExporter::new(
        Some("final.svg".to_string()),
        Some("mid".to_string()),
        Some("live.svg".to_string()),
    );
    ex.report(ReportType::Final, &sol, &inst);
    let exports = ex.take_pending();
    assert_eq!(exports.len(), 3);
    assert_eq!(exports[0].action.target, SvgTarget::Live);
    assert_eq!(exports[1].action.target, SvgTarget::Intermediate);
    assert_eq!(exports[2].action.target, SvgTarget::Final);
    assert_eq!(exports[1].action.counter, 0);
    assert_eq!(exports[1].action.width, 6);
    assert_eq!(ex.svg_count(), 1);
}

#[test]
fn queued_exports_carry_the_reported_snapshot() {
    let (inst, sol) = sample_solution();
    let mut ex = SvgExporter::new(None, Some("mid".to_string()), None);
    ex.report(ReportType::ExplFeas, &sol, &inst);
    // A later, different snapshot must not replace the earlier one.
    let later = Layout {
        strip_width: 4,
        poses: vec![Pose { x: 1, y: 2, rotated: false }],
    };
    let later_sol = Solution::snapshot(&inst, &later);
    ex.report(ReportType::CmprFeas, &later_sol, &inst);
    let exports = ex.take_pending();
    assert_eq!(exports.len(), 2);
    assert_eq!(exports[0].solution.layout.strip_width, 6);
    assert_eq!(exports[0].solution.layout.poses[0], Pose { x: 0, y: 0, rotated: false });
    assert_eq!(exports[1].solution.layout.strip_width, 4);
    assert_eq!(exports[1].solution.layout.poses[0], Pose { x: 1, y: 2, rotated: false });
}

#[test]
fn improving_reports_skip_the_intermediate_file() {
    let (inst, sol) = sample_solution();
    let mut ex = SvgExporter::new(None, Some("mid".to_string()), Some("live.svg".to_string()));
    ex.report(ReportType::ExplImproving, &sol, &inst);
    let exports = ex.take_pending();
    assert_eq!(exports.len(), 1);
    assert_eq!(exports[0].action.target, SvgTarget::Live);
    assert_eq!(ex.svg_count(), 0);
}

#[test]
fn counter_numbers_intermediate_files_in_order() {
    let (inst, sol) = sample_solution();
    let mut ex = SvgExporter::new(None, Some("mid".to_string()), None);
    ex.report(ReportType::ExplFeas, &sol, &inst);
    ex.report(ReportType::ExplInfeas, &sol, &inst);
    ex.report(ReportType::CmprFeas, &sol, &inst);
    let exports = ex.take_pending();
    assert_eq!(exports.len(), 3);
    for (i, e) in exports.iter().enumerate() {
        assert_eq!(e.action.target, SvgTarget::Intermediate);
        assert_eq!(e.action.counter, i as u64);
    }
    assert_eq!(ex.svg_count(), 3);
}

#[test]
fn unconfigured_targets_queue_nothing() {
    let (inst, sol) = sample_solution();
    let mut ex = SvgExporter::new(None, None, None);
    ex.report(ReportType::Final, &sol, &inst);
    ex.report(ReportType::ExplFeas, &sol, &inst);
    assert!(ex.take_pending().is_empty());
    assert_eq!(ex.svg_count(), 0);
}

#[test]
fn take_pending_clears_the_queue() {
    let (inst, sol) = sample_solution();
    let mut ex = SvgExporter::new(None, None, Some("live.svg".to_string()));
    ex.report(ReportType::ExplFeas, &sol, &inst);
    assert_eq!(ex.take_pending().len(), 1);
    assert!(ex.take_pending().is_empty());
}

#[test]
fn final_file_only_on_final_report() {
    let (inst, sol) = sample_solution();
    let mut ex = SvgExporter::new(Some("final.svg".to_string()), None, None);
    ex.report(ReportType::ExplFeas, &sol, &inst);
    ex.report(ReportType::CmprFeas, &sol, &inst);
    assert!(ex.take_pending().is_empty());
    ex.report(ReportType::Final, &sol, &inst);
    let exports = ex.take_pending();
    assert_eq!(exports.len(), 1);
    assert_eq!(exports[0].action.target, SvgTarget::Final);
    assert_eq!(exports[0].action.kind, ReportType::Final);
}

#[test]
fn file_suffixes_match_the_report_kinds() {
    assert_eq!(ReportType::CmprFeas.file_suffix(), "cmpr");
    assert_eq!(ReportType::ExplInfeas.file_suffix(), "expl_nf");
    assert_eq!(ReportType::ExplFeas.file_suffix(), "expl_f");
    assert_eq!(ReportType::Final.file_suffix(), "final");
    assert_eq!(ReportType::ExplImproving.file_suffix(), "expl_i");
}
