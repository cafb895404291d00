//! Iterative local-search optimizer for the irregular strip-packing problem:
//! place rigid items in a strip of fixed height and variable width, free of
//! overlap and with the least width used.
//!
//! The model is integral: item shapes are axis-aligned rectangles on an
//! integer grid, rotation is a quarter turn, and every score is an exact
//! integer, so each component carries a full functional contract.
//!
//! The run proceeds bottom-up: the construction heuristic builds an initial
//! layout, the exploration phase drives the Separator to a feasible and
//! then denser layout, and the compression phase shrinks the strip width,
//! each under its own fresh deadline, reporting snapshots to the injected
//! listener throughout.
pub mod builder;
pub mod compress;
pub mod config;
pub mod eval;
pub mod explore;
pub mod listener;
pub mod model;
pub mod quantify;
pub mod rng;
pub mod sample;
pub mod separator;
pub mod svg_exporter;
pub mod terminator;

use crate::builder::{construct, spec_first_unfit, BuildError};
use crate::compress::compression_phase;
use crate::config::{CompressConfig, ExploreConfig};
use crate::explore::{exploration_phase, ExploreOutcome};
use crate::listener::{Solution, SolutionListener};
use crate::model::{lemma_same_problem_layout, lemma_same_problem_wf, Instance};
use crate::rng::{resolve_seed, Rng};
use crate::separator::Separator;
use crate::terminator::Terminator;
use vstd::prelude::*;

verus! {

/// A configuration error found before any search begins: fatal, with no
/// partial recovery.
#[derive(Clone, Copy, PartialEq, Eq, Structural, Debug)]
pub enum FatalError {
    /// The item at this index can never fit the strip height.
    ItemTooTall(usize),
    /// The live-view and only-final export modes are both set.
    ExclusiveExportModes,
}

/// The export modes an embedder may ask for.
#[derive(Clone, Copy, PartialEq, Eq, Structural, Debug)]
pub struct ExportModes {
    /// Keep one live view file up to date with every report.
    pub live_svg: bool,
    /// Write only the final layout.
    pub only_final_svg: bool,
}

/// Checks an export-mode choice: the live view and the only-final mode
/// exclude one another.
pub fn validate_export_modes(m: ExportModes) -> (r: Result<(), FatalError>)
    ensures
        r is Err <==> (m.live_svg && m.only_final_svg),
        r is Err ==> r->Err_0 == FatalError::ExclusiveExportModes,
{
    if m.live_svg && m.only_final_svg {
        Result::Err(FatalError::ExclusiveExportModes)
    } else {
        Result::Ok(())
    }
}

/// What a whole run returns: the resolved root seed (for the log and for
/// reproduction), the exploration record, and the compressed final
/// solution when exploration found a feasible layout at all.
pub struct RunOutcome {
    /// The resolved root seed, echoed back so the run can be reproduced.
    pub seed: u64,
    /// The exploration phase's record.
    pub explore: ExploreOutcome,
    /// The compressed final solution; present exactly when exploration
    /// found a feasible layout.
    pub final_solution: Option<Solution>,
    /// Failed shrink attempts of the compression phase.
    pub failed_shrinks: u64,
}

/// One whole optimization run: construct, explore, compress. Fails exactly
/// when some item can never fit the strip; otherwise the outcome carries a
/// final solution exactly when exploration found a feasible layout, and
/// that solution is feasible and no wider than the recorded feasible
/// layout it compressed.
#[verifier::rlimit(100)]
pub fn optimize<T: Terminator, L: SolutionListener>(
    inst: &Instance,
    seed: Option<u64>,
    expl_cfg: &ExploreConfig,
    cmpr_cfg: &CompressConfig,
    listener: &mut L,
    term: &mut T,
) -> (r: Result<RunOutcome, FatalError>)
    requires
        inst.wf(),
        expl_cfg.wf(),
        cmpr_cfg.wf(),
    ensures
        r is Err <==> spec_first_unfit(inst.items@, inst.strip_height, inst.items.len() as int)
            != -1,
        r matches Result::Err(e) ==> e is ItemTooTall,
        r matches Result::Ok(out) ==> {
            &&& (seed is Some ==> out.seed == seed->0)
            &&& out.explore.solutions.len() >= 1
            &&& (forall|a: int|
                0 <= a < out.explore.solutions.len() ==> (
                #[trigger] out.explore.solutions[a]).wf(*inst))
            &&& (out.final_solution is Some <==> out.explore.found_feasible)
            &&& (out.final_solution matches Option::Some(s) ==> s.wf(*inst) && s.feasible && (
            exists|a: int|
                0 <= a < out.explore.solutions.len() && (
                #[trigger] out.explore.solutions[a]).feasible && s.layout.strip_width
                    <= out.explore.solutions[a].layout.strip_width))
        },
{
    let root_seed = resolve_seed(seed);
    let mut rng = Rng::seed_from_u64(root_seed);
    let layout = match construct(inst) {
        Result::Ok(l) => l,
        Result::Err(BuildError::ItemTooTall(i)) => {
            return Result::Err(FatalError::ItemTooTall(i));
        },
    };
    let own_inst = inst.duplicate();
    proof {
        lemma_same_problem_wf(own_inst, *inst);
        lemma_same_problem_layout(own_inst, *inst, layout);
    }
    let expl_rng = rng.derive_child();
    let mut sep = Separator::new(own_inst, layout, expl_rng, expl_cfg.separator);
    let ghost sep_inst = sep.instance;
    let explored = exploration_phase(&mut sep, listener, term, expl_cfg);
    proof {
        assert forall|a: int| 0 <= a < explored.solutions.len() implies (
        #[trigger] explored.solutions[a]).wf(*inst) by {
            crate::listener::lemma_same_problem_solution(sep_inst, *inst, explored.solutions[a]);
        }
    }
    if !explored.found_feasible {
        return Result::Ok(
            RunOutcome {
                seed: root_seed,
                explore: explored,
                final_solution: Option::None,
                failed_shrinks: 0,
            },
        );
    }
    let mut j: usize = explored.solutions.len();
    let mut init_idx: usize = 0;
    let mut have_init: bool = false;
    while j > 0
        invariant
            j <= explored.solutions.len(),
            have_init ==> init_idx < explored.solutions.len() && explored.solutions[
                init_idx as int].feasible,
            !have_init ==> (forall|a: int|
                j <= a < explored.solutions.len() ==> !(#[trigger] explored.solutions[a]).feasible),
        decreases j,
    {
        j = j - 1;
        if !have_init && explored.solutions[j].feasible {
            init_idx = j;
            have_init = true;
        }
    }
    if !have_init {
        proof {
            let a = choose|a: int|
                0 <= a < explored.solutions.len() && (#[trigger] explored.solutions[a]).feasible;
            assert(false);
        }
    }
    let cmpr_rng = rng.derive_child();
    proof {
        reveal(Solution::wf);
        assert(explored.solutions[init_idx as int].layout.wf(sep_inst));
    }
    let mut sep2 = Separator::new(
        sep.instance,
        explored.solutions[init_idx].layout.duplicate(),
        cmpr_rng,
        cmpr_cfg.separator,
    );
    let compressed = compression_phase(
        &mut sep2,
        &explored.solutions[init_idx],
        listener,
        term,
        cmpr_cfg,
    );
    proof {
        crate::listener::lemma_same_problem_solution(sep_inst, *inst, compressed.solution);
    }
    Result::Ok(
        RunOutcome {
            seed: root_seed,
            explore: explored,
            final_solution: Option::Some(compressed.solution),
            failed_shrinks: compressed.failed_shrinks,
        },
    )
}

} // verus!
