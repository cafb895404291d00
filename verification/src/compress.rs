//! The compression phase: minimize the strip width of an already-feasible
//! layout under its own time budget. Each round proposes a width shrink of
//! the current step size, narrows the strip, and lets the Separator try to
//! regain feasibility; an accepted shrink keeps the narrower width, a
//! failure reverts it and decays the step per the configured policy — a
//! diminishing-step search, not bisection, because Separator success is not
//! monotone in width. The phase never returns a layout worse than its
//! input: the result is feasible and at most as wide.
use crate::config::{CompressConfig, ShrinkDecayStrategy};
use crate::listener::{ReportType, Solution, SolutionListener};
use crate::quantify::lemma_layout_loss_zero_iff_feasible;
use crate::separator::Separator;
use crate::terminator::Terminator;
use vstd::prelude::*;

verus! {

/// What compression returns: the final solution and how many proposed
/// shrinks failed (each failure decayed the step).
pub struct CompressOutcome {
    /// The final feasible solution, never wider than the phase's input.
    pub solution: Solution,
    /// Number of failed shrink attempts.
    pub failed_shrinks: u64,
}

/// The compression phase (see the module description).
#[verifier::rlimit(100)]
pub fn compression_phase<T: Terminator, L: SolutionListener>(
    sep: &mut Separator,
    init: &Solution,
    listener: &mut L,
    term: &mut T,
    cfg: &CompressConfig,
) -> (r: CompressOutcome)
    requires
        old(sep).wf(),
        cfg.wf(),
        init.wf(old(sep).instance),
        init.feasible,
    ensures
        final(sep).wf(),
        final(sep).instance == old(sep).instance,
        r.solution.wf(old(sep).instance),
        r.solution.feasible,
        r.solution.layout.strip_width <= init.layout.strip_width,
{
    proof {
        reveal(Solution::wf);
    }
    term.new_timeout(cfg.time_limit_ms);
    let mut best = Solution::snapshot(&sep.instance, &init.layout);
    let mut failed: u64 = 0;
    let w0 = init.layout.strip_width;
    let div = cfg.init_step_div;
    let mut step_w: u64 = if w0 / div >= 1 {
        w0 / div
    } else {
        1
    };
    let (dec_num, dec_den): (u64, u64) = match cfg.shrink_decay {
        ShrinkDecayStrategy::FailureBased(n, d) => (n, d),
    };
    let mut rounds: u64 = 0;
    while rounds < u64::MAX
        invariant
            cfg.wf(),
            sep.wf(),
            sep.instance == old(sep).instance,
            best.wf(old(sep).instance),
            best.feasible,
            best.layout.strip_width <= init.layout.strip_width,
            dec_num < dec_den <= 0x40000000,
            step_w <= 0x40000000,
        decreases u64::MAX - rounds,
    {
        if term.is_kill() {
            break ;
        }
        if step_w == 0 {
            break ;
        }
        let w = best.layout.strip_width;
        if w <= 1 {
            break ;
        }
        let neww = if w > step_w {
            w - step_w
        } else {
            1
        };
        if neww >= w {
            break ;
        }
        let mut trial = best.layout.duplicate();
        trial.strip_width = neww;
        proof {
            reveal(Solution::wf);
            assert(trial.wf(sep.instance));
        }
        sep.layout = trial;
        let regained: bool = if sep.layout.poses.len() == 0 {
            true
        } else {
            sep.run_steps(cfg.inner_steps);
            let l = sep.loss();
            l == 0
        };
        if regained {
            let s = Solution::snapshot(&sep.instance, &sep.layout);
            proof {
                reveal(Solution::wf);
                lemma_layout_loss_zero_iff_feasible(
                    sep.instance,
                    sep.layout.strip_width,
                    sep.layout.poses@,
                );
            }
            assert(s.feasible);
            listener.report(ReportType::CmprFeas, &s, &sep.instance);
            best = s;
        } else {
            failed = if failed < u64::MAX {
                failed + 1
            } else {
                failed
            };
            proof {
                assert(step_w * dec_num < step_w * dec_den) by (nonlinear_arith)
                    requires
                        dec_num < dec_den,
                        1 <= step_w,
                ;
                assert(step_w * dec_den <= 0x1000000000000000) by (nonlinear_arith)
                    requires
                        step_w <= 0x40000000,
                        dec_den <= 0x40000000,
                ;
                assert(step_w as int * dec_num as int / dec_den as int <= step_w as int)
                    by (nonlinear_arith)
                    requires
                        step_w * dec_num < step_w * dec_den,
                        1 <= dec_den,
                        0 <= step_w * dec_num,
                ;
            }
            step_w = step_w * dec_num / dec_den;
        }
        rounds = rounds + 1;
    }
    listener.report(ReportType::Final, &best, &sep.instance);
    CompressOutcome { solution: best, failed_shrinks: failed }
}

} // verus!
