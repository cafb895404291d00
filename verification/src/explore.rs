//! The exploration phase: drive the Separator from the constructed layout
//! toward a feasible, then progressively denser, layout under a time
//! budget. On feasibility the layout is recorded and a controlled width
//! reduction is attempted; after too many consecutive failed attempts the
//! strip is widened slightly and the counter reset. The phase returns the
//! ordered sequence of recorded solutions — the recorded feasible ones of
//! never-increasing width, hence (density being antitone in width, see
//! `crate::model::lemma_density_antitone`) of never-decreasing density.
//! When no feasible layout was found the diagnostic flag is unset and the
//! record holds the reported still-searching layouts, or, when nothing was
//! reported at all, the best (lowest-loss) infeasible layout seen.
use crate::config::ExploreConfig;
use crate::listener::{ReportType, Solution, SolutionListener};
use crate::model::COORD_LIMIT;
use crate::quantify::lemma_layout_loss_zero_iff_feasible;
use crate::separator::Separator;
use crate::terminator::Terminator;
use vstd::prelude::*;

verus! {

/// What exploration returns: the recorded solutions in order, and whether
/// any of them is feasible.
pub struct ExploreOutcome {
    /// The recorded solutions, oldest first.
    pub solutions: Vec<Solution>,
    /// Whether any feasible layout was found; when unset every recorded
    /// solution is infeasible.
    pub found_feasible: bool,
}

/// The exploration phase (see the module description).
#[verifier::rlimit(100)]
pub fn exploration_phase<T: Terminator, L: SolutionListener>(
    sep: &mut Separator,
    listener: &mut L,
    term: &mut T,
    cfg: &ExploreConfig,
) -> (r: ExploreOutcome)
    requires
        old(sep).wf(),
        cfg.wf(),
    ensures
        final(sep).wf(),
        final(sep).instance == old(sep).instance,
        r.solutions.len() >= 1,
        forall|a: int| 0 <= a < r.solutions.len() ==> (#[trigger] r.solutions[a]).wf(old(sep).instance),
        forall|a: int, b: int|
            0 <= a < b < r.solutions.len() && r.solutions[a].feasible && r.solutions[b].feasible
                ==> (#[trigger] r.solutions[b]).layout.strip_width <= (
            #[trigger] r.solutions[a]).layout.strip_width,
        r.found_feasible == (exists|a: int|
            0 <= a < r.solutions.len() && (#[trigger] r.solutions[a]).feasible),
{
    term.new_timeout(cfg.time_limit_ms);
    let mut out: Vec<Solution> = Vec::new();
    let mut found: bool = false;
    let mut best_w: u64 = u64::MAX;
    let mut fails: u64 = 0;
    let mut best_inf: Option<Solution> = Option::None;
    let mut best_inf_loss: u128 = u128::MAX;
    let mut rounds: u64 = 0;
    while rounds < u64::MAX
        invariant
            cfg.wf(),
            sep.wf(),
            sep.instance == old(sep).instance,
            forall|a: int| 0 <= a < out.len() ==> (#[trigger] out[a]).wf(old(sep).instance),
            forall|a: int|
                0 <= a < out.len() && (#[trigger] out[a]).feasible ==> best_w <= out[
                    a].layout.strip_width,
            forall|a: int, b: int|
                0 <= a < b < out.len() && out[a].feasible && out[b].feasible ==> (
                #[trigger] out[b]).layout.strip_width <= (#[trigger] out[a]).layout.strip_width,
            found == (exists|a: int| 0 <= a < out.len() && (#[trigger] out[a]).feasible),
            best_inf matches Option::Some(s) ==> s.wf(old(sep).instance) && !s.feasible,
        decreases u64::MAX - rounds,
    {
        if term.is_kill() {
            break ;
        }
        if sep.layout.poses.len() == 0 {
            let s = Solution::snapshot(&sep.instance, &sep.layout);
            assert(s.feasible);
            listener.report(ReportType::ExplFeas, &s, &sep.instance);
            if s.layout.strip_width < best_w {
                let neww = s.layout.strip_width;
                out.push(s);
                best_w = neww;
                found = true;
                assert(out[out.len() - 1].feasible);
            }
            break ;
        }
        sep.run_steps(cfg.inner_steps);
        let l = sep.loss();
        if l == 0 {
            let s = Solution::snapshot(&sep.instance, &sep.layout);
            proof {
                lemma_layout_loss_zero_iff_feasible(
                    sep.instance,
                    sep.layout.strip_width,
                    sep.layout.poses@,
                );
            }
            assert(s.feasible);
            if s.layout.strip_width < best_w {
                let kind = if found {
                    ReportType::ExplImproving
                } else {
                    ReportType::ExplFeas
                };
                listener.report(kind, &s, &sep.instance);
                let neww = s.layout.strip_width;
                out.push(s);
                best_w = neww;
                found = true;
                assert(out[out.len() - 1].feasible);
            } else {
                listener.report(ReportType::ExplFeas, &s, &sep.instance);
            }
            fails = 0;
            let w = sep.layout.strip_width;
            proof {
                assert(w * cfg.shrink_den <= 0x1000000000000000) by (nonlinear_arith)
                    requires
                        w <= 0x40000000,
                        cfg.shrink_den <= 0x40000000,
                ;
                assert(w * cfg.shrink_num < w * cfg.shrink_den) by (nonlinear_arith)
                    requires
                        cfg.shrink_num < cfg.shrink_den,
                        1 <= w <= 0x40000000,
                        cfg.shrink_den <= 0x40000000,
                ;
                assert(w as int * cfg.shrink_num as int / cfg.shrink_den as int <= w as int)
                    by (nonlinear_arith)
                    requires
                        w * cfg.shrink_num < w * cfg.shrink_den,
                        1 <= cfg.shrink_den,
                        0 <= w * cfg.shrink_num,
                ;
            }
            let shr = w * cfg.shrink_num / cfg.shrink_den;
            let neww = if shr >= 1 {
                shr
            } else {
                1
            };
            sep.layout.strip_width = neww;
        } else {
            if l < best_inf_loss {
                let s = Solution::snapshot(&sep.instance, &sep.layout);
                proof {
                    lemma_layout_loss_zero_iff_feasible(
                        sep.instance,
                        sep.layout.strip_width,
                        sep.layout.poses@,
                    );
                }
                assert(!s.feasible);
                best_inf = Option::Some(s);
                best_inf_loss = l;
            }
            fails = if fails < u64::MAX {
                fails + 1
            } else {
                fails
            };
            match cfg.max_conseq_failed_attempts {
                Option::Some(maxf) => {
                    if fails > maxf {
                        let s = Solution::snapshot(&sep.instance, &sep.layout);
                        proof {
                            lemma_layout_loss_zero_iff_feasible(
                                sep.instance,
                                sep.layout.strip_width,
                                sep.layout.poses@,
                            );
                        }
                        assert(!s.feasible);
                        listener.report(ReportType::ExplInfeas, &s, &sep.instance);
                        let ghost prev = out@;
                        out.push(s);
                        assert(!out[out.len() - 1].feasible);
                        proof {
                            if found {
                                let a = choose|a: int|
                                    0 <= a < prev.len() && (#[trigger] prev[a]).feasible;
                                assert(out@[a].feasible);
                            } else {
                                assert forall|a: int|
                                    0 <= a < out.len() implies !(#[trigger] out[a]).feasible by {
                                    if a < prev.len() {
                                        assert(!prev[a].feasible);
                                    }
                                }
                            }
                        }
                        let w = sep.layout.strip_width;
                        let grown = w + w / 16 + 1;
                        let neww = if grown <= COORD_LIMIT {
                            grown
                        } else {
                            COORD_LIMIT
                        };
                        sep.layout.strip_width = neww;
                        fails = 0;
                    }
                },
                Option::None => {},
            }
        }
        rounds = rounds + 1;
    }
    if out.len() == 0 {
        match best_inf {
            Option::Some(s) => {
                out.push(s);
                assert(!out[0].feasible);
            },
            Option::None => {
                let s = Solution::snapshot(&sep.instance, &sep.layout);
                if s.feasible {
                    found = true;
                }
                out.push(s);
                assert(found == out[0].feasible);
            },
        }
    }
    ExploreOutcome { solutions: out, found_feasible: found }
}

} // verus!
