//! Tests of the construction heuristic, the Separator, the two phases, and
//! the whole run: the recorded scenarios and the reproducibility and
//! monotonicity properties, on concrete instances.
use stripnest::builder::{construct, BuildError};
use stripnest::compress::compression_phase;
use stripnest::config::{
    default_compress_config, default_explore_config, CompressConfig, ExploreConfig,
    ShrinkDecayStrategy,
};
use stripnest::explore::exploration_phase;
use stripnest::listener::{DummySolListener, Solution};
use stripnest::model::{Instance, Item, Layout, Pose};
use stripnest::quantify::is_feasible;
use stripnest::rng::Rng;
use stripnest::separator::{Separator, SeparatorConfig};
use stripnest::terminator::{BasicTerminator, Terminator};
use stripnest::{optimize, validate_export_modes, ExportModes, FatalError};

fn rect(id: u64, w: u64, h: u64) -> Item {
    Item { id, width: w, height: h, rotatable: false }
}

fn greedy_sep_config() -> SeparatorConfig {
    SeparatorConfig { n_workers: 2, samples_per_worker: 4, jitter: 2, accept_num: 0, accept_den: 1 }
}

#[test]
fn construction_three_rects_zero_loss() {
    // Three non-overlapping rectangles in a strip wider than their combined
    // bounding box: the construction heuristic alone places them clear.
    let inst = Instance {
        strip_height: 3,
        min_separation: 0,
        items: vec![rect(0, 3, 2), rect(1, 2, 2), rect(2, 2, 1)],
    };
    let layout = construct(&inst).unwrap();
    assert!(is_feasible(&inst, &layout));
    assert_eq!(layout.strip_width, 7);
}

#[test]
fn construction_fails_fatally_on_too_tall_item() {
    let inst = Instance {
        strip_height: 3,
        min_separation: 0,
        items: vec![rect(0, 2, 2), rect(1, 2, 5), rect(2, 1, 9)],
    };
    match construct(&inst) {
        Err(BuildError::ItemTooTall(idx)) => assert_eq!(idx, 1),
        _ => panic!("expected the first too-tall item to be fatal"),
    }
}

#[test]
fn construction_rotatable_item_fits_sideways() {
    // 2x5 rotatable fits a strip of height 3 only rotated; the check
    // accepts it.
    let inst = Instance {
        strip_height: 3,
        min_separation: 0,
        items: vec![Item { id: 0, width: 2, height: 5, rotatable: true }],
    };
    assert!(construct(&inst).is_ok());
}

#[test]
fn separator_runs_are_reproducible() {
    // Two engines in the same state accept bit-identical pose sequences.
    let inst = Instance {
        strip_height: 2,
        min_separation: 0,
        items: vec![rect(0, 2, 2), rect(1, 2, 2), rect(2, 2, 2)],
    };
    let base = construct(&inst).unwrap();
    let cfg = SeparatorConfig {
        n_workers: 2,
        samples_per_worker: 4,
        jitter: 2,
        accept_num: 1,
        accept_den: 10,
    };
    let mut layout1 = base.duplicate();
    layout1.strip_width = 4;
    let mut layout2 = base.duplicate();
    layout2.strip_width = 4;
    let mut sep1 = Separator::new(inst.duplicate(), layout1, Rng::seed_from_u64(5), cfg);
    let mut sep2 = Separator::new(inst.duplicate(), layout2, Rng::seed_from_u64(5), cfg);
    sep1.run_steps(200);
    sep2.run_steps(200);
    assert_eq!(sep1.layout.poses, sep2.layout.poses);
    assert_eq!(sep1.rng, sep2.rng);
    assert_eq!(sep1.step_count, sep2.step_count);
}

#[test]
fn exploration_feasible_densities_non_decreasing() {
    let inst = Instance {
        strip_height: 4,
        min_separation: 0,
        items: vec![rect(0, 3, 2), rect(1, 2, 2), rect(2, 2, 3), rect(3, 1, 1)],
    };
    let layout = construct(&inst).unwrap();
    let mut sep = Separator::new(
        inst.duplicate(),
        layout,
        Rng::seed_from_u64(11),
        greedy_sep_config(),
    );
    let cfg = ExploreConfig {
        time_limit_ms: 300,
        max_conseq_failed_attempts: Some(4),
        inner_steps: 64,
        shrink_num: 9,
        shrink_den: 10,
        separator: greedy_sep_config(),
    };
    let mut term = BasicTerminator::new();
    let out = exploration_phase(&mut sep, &mut DummySolListener, &mut term, &cfg);
    assert!(!out.solutions.is_empty());
    let feasible: Vec<&Solution> = out.solutions.iter().filter(|s| s.feasible).collect();
    assert!(out.found_feasible);
    assert!(!feasible.is_empty());
    let mut densities: Vec<u64> = Vec::new();
    for s in &feasible {
        densities.push(s.density(&inst));
    }
    for pair in densities.windows(2) {
        assert!(pair[0] <= pair[1], "feasible densities must never decrease");
    }
}

#[test]
fn compression_two_squares_converges_to_exact_width() {
    // Two 2x2 squares in a strip of height 2: the only feasible width is 4,
    // and compression reaches it exactly, with the failed-shrink count the
    // halving decay policy dictates.
    let inst = Instance {
        strip_height: 2,
        min_separation: 0,
        items: vec![rect(0, 2, 2), rect(1, 2, 2)],
    };
    let start = Layout {
        strip_width: 8,
        poses: vec![
            Pose { x: 0, y: 0, rotated: false },
            Pose { x: 4, y: 0, rotated: false },
        ],
    };
    let init = Solution::snapshot(&inst, &start);
    assert!(init.feasible);
    let mut sep = Separator::new(
        inst.duplicate(),
        start.duplicate(),
        Rng::seed_from_u64(3),
        greedy_sep_config(),
    );
    let cfg = CompressConfig {
        time_limit_ms: 10_000,
        init_step_div: 20,
        shrink_decay: ShrinkDecayStrategy::FailureBased(1, 2),
        inner_steps: 64,
        separator: greedy_sep_config(),
    };
    let mut term = BasicTerminator::new();
    let out = compression_phase(&mut sep, &init, &mut DummySolListener, &mut term, &cfg);
    assert!(out.solution.feasible);
    assert_eq!(out.solution.layout.strip_width, 4);
    // The step starts at one (8 / 20 rounds to nothing) and halves to zero
    // after the single failed shrink at width three.
    assert_eq!(out.failed_shrinks, 1);
}

#[test]
fn compression_never_regresses() {
    let inst = Instance {
        strip_height: 3,
        min_separation: 0,
        items: vec![rect(0, 3, 2), rect(1, 2, 2), rect(2, 2, 1)],
    };
    let start = construct(&inst).unwrap();
    assert!(is_feasible(&inst, &start));
    let init = Solution::snapshot(&inst, &start);
    let mut sep = Separator::new(
        inst.duplicate(),
        start.duplicate(),
        Rng::seed_from_u64(21),
        greedy_sep_config(),
    );
    let cfg = CompressConfig {
        time_limit_ms: 500,
        init_step_div: 10,
        shrink_decay: ShrinkDecayStrategy::FailureBased(1, 2),
        inner_steps: 64,
        separator: greedy_sep_config(),
    };
    let mut term = BasicTerminator::new();
    let out = compression_phase(&mut sep, &init, &mut DummySolListener, &mut term, &cfg);
    assert!(out.solution.feasible);
    assert!(out.solution.layout.strip_width <= init.layout.strip_width);
}

#[test]
fn zero_duration_timeout_stops_phases_at_once() {
    let inst = Instance {
        strip_height: 4,
        min_separation: 0,
        items: vec![rect(0, 3, 2), rect(1, 2, 2)],
    };
    let layout = construct(&inst).unwrap();
    let mut sep = Separator::new(
        inst.duplicate(),
        layout,
        Rng::seed_from_u64(1),
        greedy_sep_config(),
    );
    let cfg = ExploreConfig {
        time_limit_ms: 0,
        max_conseq_failed_attempts: Some(4),
        inner_steps: 64,
        shrink_num: 9,
        shrink_den: 10,
        separator: greedy_sep_config(),
    };
    let mut term = BasicTerminator::new();
    let out = exploration_phase(&mut sep, &mut DummySolListener, &mut term, &cfg);
    // The phase returned before taking a single Separator step.
    assert_eq!(sep.step_count, 0);
    assert!(!out.solutions.is_empty());
}

#[test]
fn run_until_reaches_feasibility() {
    let inst = Instance {
        strip_height: 3,
        min_separation: 0,
        items: vec![rect(0, 3, 2), rect(1, 2, 2)],
    };
    let mut layout = construct(&inst).unwrap();
    // Restart from a cramped but solvable width with both items stacked at
    // the origin.
    layout.strip_width = 5;
    for p in layout.poses.iter_mut() {
        p.x = 0;
        p.y = 0;
    }
    assert!(!is_feasible(&inst, &layout));
    let mut sep = Separator::new(
        inst.duplicate(),
        layout,
        Rng::seed_from_u64(9),
        greedy_sep_config(),
    );
    let mut term = BasicTerminator::new();
    term.new_timeout(10_000);
    let reached = sep.run_until(&mut term);
    assert!(reached);
    assert!(is_feasible(&inst, &sep.layout));
}

#[test]
fn separator_density_matches_model() {
    let inst = Instance {
        strip_height: 4,
        min_separation: 0,
        items: vec![rect(0, 4, 3), rect(1, 2, 2)],
    };
    let layout = construct(&inst).unwrap();
    let expected = stripnest::model::density_ppm(&inst, &layout);
    let sep = Separator::new(
        inst.duplicate(),
        layout,
        Rng::seed_from_u64(1),
        greedy_sep_config(),
    );
    assert_eq!(sep.density(&sep.instance), expected);
}

#[test]
fn well_formedness_check_is_exact() {
    let good = Instance {
        strip_height: 4,
        min_separation: 1,
        items: vec![rect(0, 3, 2), rect(1, 2, 2)],
    };
    assert!(good.check_wf());
    let zero_height = Instance { strip_height: 0, min_separation: 0, items: vec![] };
    assert!(!zero_height.check_wf());
    let zero_width_item = Instance {
        strip_height: 4,
        min_separation: 0,
        items: vec![rect(0, 0, 2)],
    };
    assert!(!zero_width_item.check_wf());
    let oversized_item = Instance {
        strip_height: 4,
        min_separation: 0,
        items: vec![rect(0, u64::MAX, 2)],
    };
    assert!(!oversized_item.check_wf());
}

#[test]
fn whole_run_end_to_end() {
    let inst = Instance {
        strip_height: 4,
        min_separation: 0,
        items: vec![rect(0, 3, 2), rect(1, 2, 2), rect(2, 2, 3)],
    };
    let expl = default_explore_config(200, 2);
    let cmpr = default_compress_config(200, 2);
    let mut term = BasicTerminator::new();
    let out = optimize(
        &inst,
        Some(7),
        &expl,
        &cmpr,
        &mut DummySolListener,
        &mut term,
    )
    .unwrap();
    assert_eq!(out.seed, 7);
    assert!(!out.explore.solutions.is_empty());
    assert!(out.explore.found_feasible);
    let fin = out.final_solution.expect("feasible exploration must yield a final solution");
    assert!(fin.feasible);
    assert!(is_feasible(&inst, &fin.layout));
}

#[test]
fn whole_run_rejects_impossible_item() {
    let inst = Instance {
        strip_height: 2,
        min_separation: 0,
        items: vec![rect(0, 2, 9)],
    };
    let expl = default_explore_config(50, 2);
    let cmpr = default_compress_config(50, 2);
    let mut term = BasicTerminator::new();
    match optimize(&inst, Some(1), &expl, &cmpr, &mut DummySolListener, &mut term) {
        Err(FatalError::ItemTooTall(idx)) => assert_eq!(idx, 0),
        _ => panic!("an item that can never fit must be fatal"),
    }
}

#[test]
fn whole_run_empty_instance() {
    let inst = Instance { strip_height: 4, min_separation: 0, items: vec![] };
    let expl = default_explore_config(100, 2);
    let cmpr = default_compress_config(100, 2);
    let mut term = BasicTerminator::new();
    let out = optimize(&inst, Some(2), &expl, &cmpr, &mut DummySolListener, &mut term).unwrap();
    assert!(out.explore.found_feasible);
    let fin = out.final_solution.unwrap();
    assert!(fin.feasible);
    assert_eq!(fin.layout.strip_width, 1);
}

#[test]
fn exclusive_export_modes_are_rejected() {
    assert!(validate_export_modes(ExportModes { live_svg: false, only_final_svg: false }).is_ok());
    assert!(validate_export_modes(ExportModes { live_svg: true, only_final_svg: false }).is_ok());
    assert!(validate_export_modes(ExportModes { live_svg: false, only_final_svg: true }).is_ok());
    match validate_export_modes(ExportModes { live_svg: true, only_final_svg: true }) {
        Err(FatalError::ExclusiveExportModes) => {},
        _ => panic!("both export modes together must be rejected"),
    }
}

#[test]
fn identical_seeds_give_identical_runs() {
    let inst = Instance {
        strip_height: 3,
        min_separation: 0,
        items: vec![rect(0, 3, 2), rect(1, 2, 2), rect(2, 2, 1)],
    };
    // Drive the deterministic core directly: same seed, same instance, same
    // configuration, same step budget.
    let cfg = SeparatorConfig {
        n_workers: 3,
        samples_per_worker: 8,
        jitter: 1,
        accept_num: 1,
        accept_den: 50,
    };
    let mut results: Vec<(Vec<Pose>, u64)> = Vec::new();
    for _ in 0..2 {
        let mut layout = construct(&inst).unwrap();
        layout.strip_width = 5;
        let mut sep = Separator::new(inst.duplicate(), layout, Rng::seed_from_u64(1234), cfg);
        sep.run_steps(300);
        results.push((sep.layout.poses.clone(), sep.rng.state));
    }
    assert_eq!(results[0], results[1]);
}
