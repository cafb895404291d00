//! The local-search engine. A Separator owns a layout, a generator and a
//! configuration, and `step` perturbs one item's placement: it draws a batch
//! of candidate poses, evaluates the whole batch (fanned out over the
//! configured workers), and commits the best candidate when it strictly
//! improves — or, with the configured small probability, even when it does
//! not, to escape local minima. A step never fails; the whole step is a
//! function of the state before it, so runs are reproducible.
use crate::eval::{best_candidate, spec_best_range, spec_cands_bounded};
use crate::model::{lemma_item_count_bounded, Instance, Layout, Pose, COORD_LIMIT};
use crate::quantify::{layout_loss, pose_loss, spec_layout_loss, spec_pose_loss};
use crate::rng::{spec_next_state, spec_next_value, Rng};
use crate::sample::{
    anchor_candidates, random_candidates, spec_anchor_list, spec_random_list,
    spec_slot,
};
use vstd::pervasive::VecAdditionalExecFns;
use vstd::prelude::*;

verus! {

/// Tuning of one Separator: worker fan-out, batch size, perturbation
/// magnitude and the escape-acceptance probability. Immutable.
#[derive(Clone, Copy, PartialEq, Eq, Structural, Debug)]
pub struct SeparatorConfig {
    /// Number of workers a step's candidate batch is fanned out over.
    pub n_workers: usize,
    /// Candidates drawn per worker and per sampling mode.
    pub samples_per_worker: usize,
    /// Magnitude of the local jitter around the current pose; zero disables
    /// the jittered half of the batch.
    pub jitter: u64,
    /// Numerator of the probability of accepting a non-improving candidate.
    pub accept_num: u64,
    /// Denominator of that probability.
    pub accept_den: u64,
}

impl SeparatorConfig {
    /// Bounds that keep batch sizes and probability draws well defined.
    pub open spec fn wf(self) -> bool {
        &&& 1 <= self.n_workers <= 0x10000
        &&& 1 <= self.samples_per_worker <= 0x1000
        &&& self.jitter <= COORD_LIMIT
        &&& 1 <= self.accept_den
        &&& self.accept_num <= self.accept_den
    }
}

/// The indices `0..n` with `i` left out: the items a perturbed item is
/// anchored against.
pub open spec fn spec_others(n: int, i: int) -> Seq<usize>
    decreases n,
{
    if n <= 0 {
        Seq::empty()
    } else if n - 1 == i {
        spec_others(n - 1, i)
    } else {
        spec_others(n - 1, i).push((n - 1) as usize)
    }
}

/// Every entry of the others list indexes an item, and the list holds one
/// entry per item but the left-out one.
pub proof fn lemma_others_props(n: int, i: int)
    requires
        0 <= n,
    ensures
        forall|k: int|
            0 <= k < spec_others(n, i).len() ==> (#[trigger] spec_others(n, i)[k]) < n,
        spec_others(n, i).len() == if 0 <= i < n {
            n - 1
        } else {
            n
        },
    decreases n,
{
    if n > 0 {
        lemma_others_props(n - 1, i);
        assert forall|k: int| 0 <= k < spec_others(n, i).len() implies (#[trigger] spec_others(
            n,
            i,
        )[k]) < n by {
            if k < spec_others(n - 1, i).len() {
                assert(spec_others(n, i)[k] == spec_others(n - 1, i)[k]);
            }
        }
    }
}

/// Builds the others list of `spec_others(n, i)`.
pub fn others_list(n: usize, i: usize) -> (r: Vec<usize>)
    ensures
        r@ == spec_others(n as int, i as int),
        forall|k: int| 0 <= k < r.len() ==> (#[trigger] r[k]) < n,
{
    let mut r: Vec<usize> = Vec::new();
    let mut j: usize = 0;
    while j < n
        invariant
            j <= n,
            r@ == spec_others(j as int, i as int),
            forall|k: int| 0 <= k < r.len() ==> (#[trigger] r[k]) < j,
        decreases n - j,
    {
        if j != i {
            r.push(j);
        }
        j = j + 1;
    }
    r
}

/// Draws the whole candidate batch of one step for item `i`: the current
/// pose, the anchors against every other item, the uniform random half and,
/// when jitter is configured, the jittered half.
#[verifier::rlimit(100)]
fn build_step_cands(
    inst: &Instance,
    layout: &Layout,
    cfg: SeparatorConfig,
    rng: &mut Rng,
    i: usize,
) -> (r: Vec<Pose>)
    requires
        inst.wf(),
        layout.wf(*inst),
        cfg.wf(),
        i < layout.poses.len(),
    ensures
        (r@, final(rng).state) == spec_step_cands(
            *inst,
            layout.strip_width,
            layout.poses@,
            cfg,
            old(rng).state,
            i as int,
        ),
        spec_cands_bounded(r@),
        forall|q: int|
            0 <= q < r.len() ==> ((#[trigger] r[q]).rotated ==> inst.items[i as int].rotatable),
        1 <= r.len() <= 0x40000000,
        r@[0] == layout.poses@[i as int],
{
    proof {
        lemma_item_count_bounded(*inst);
    }
    let n = layout.poses.len();
    let center = layout.poses[i];
    let others = others_list(n, i);
    let ghost it = inst.items[i as int];
    let ghost xm = spec_slot(layout.strip_width, it.width);
    let ghost ym = spec_slot(inst.strip_height, it.height);
    let mut cands: Vec<Pose> = Vec::new();
    cands.push(center);
    let mut anchors = anchor_candidates(inst, layout, i, &others);
    let ghost n_anchors = anchors.len() as int;
    cands.append(&mut anchors);
    proof {
        assert(cfg.n_workers * cfg.samples_per_worker <= 0x10000000) by (nonlinear_arith)
            requires
                cfg.n_workers <= 0x10000,
                cfg.samples_per_worker <= 0x1000,
        ;
    }
    let k = cfg.n_workers * cfg.samples_per_worker;
    let ghost s0 = rng.state;
    let mut uni = random_candidates(inst, layout, i, center, 0, k, rng);
    cands.append(&mut uni);
    if cfg.jitter > 0 {
        let mut jit = random_candidates(inst, layout, i, center, cfg.jitter, k, rng);
        cands.append(&mut jit);
    }
    proof {
        reveal(spec_step_cands);
        let others_s = spec_others(n as int, i as int);
        let anchors_s = spec_anchor_list(
            *inst,
            layout.strip_width,
            layout.poses@,
            i as int,
            others_s,
            others_s.len() as int,
        );
        let (uni_s, s1) = spec_random_list(it, xm, ym, center, 0, old(rng).state, k as int);
        if cfg.jitter > 0 {
            let (jit_s, s2) = spec_random_list(it, xm, ym, center, cfg.jitter, s1, k as int);
            assert(cands@ =~= seq![center] + anchors_s + uni_s + jit_s);
        } else {
            assert(cands@ =~= seq![center] + anchors_s + uni_s);
        }
        assert((cands@, rng.state) == spec_step_cands(
            *inst,
            layout.strip_width,
            layout.poses@,
            cfg,
            old(rng).state,
            i as int,
        ));
        lemma_others_props(n as int, i as int);
        crate::sample::lemma_anchor_list_len(
            *inst,
            layout.strip_width,
            layout.poses@,
            i as int,
            others_s,
            others_s.len() as int,
        );
        assert(n_anchors == 3 + 4 * (n - 1));
        assert(cands.len() <= 0x40000000);
    }
    cands
}

/// The candidate batch of one step for item `i`, and the generator state
/// after drawing it: the current pose first, then the anchors, then the
/// uniform random half, then (when jitter is configured) the jittered half.
#[verifier::opaque]
pub open spec fn spec_step_cands(
    inst: Instance,
    width: u64,
    poses: Seq<Pose>,
    cfg: SeparatorConfig,
    rng: u64,
    i: int,
) -> (Seq<Pose>, u64) {
    let it = inst.items[i];
    let xm = spec_slot(width, it.width);
    let ym = spec_slot(inst.strip_height, it.height);
    let center = poses[i];
    let others = spec_others(poses.len() as int, i);
    let anchors = spec_anchor_list(inst, width, poses, i, others, others.len() as int);
    let k = cfg.n_workers * cfg.samples_per_worker;
    let (uni, s1) = spec_random_list(it, xm, ym, center, 0, rng, k as int);
    let base = seq![center] + anchors + uni;
    if cfg.jitter > 0 {
        let (jit, s2) = spec_random_list(it, xm, ym, center, cfg.jitter, s1, k as int);
        (base + jit, s2)
    } else {
        (base, s1)
    }
}

/// The whole step as a function of the state before it: the poses, the
/// generator state and the step counter after the step.
#[verifier::opaque]
pub open spec fn spec_step_state(
    inst: Instance,
    width: u64,
    poses: Seq<Pose>,
    cfg: SeparatorConfig,
    rng: u64,
    count: u64,
) -> (Seq<Pose>, u64, u64) {
    let i = (count % (poses.len() as u64)) as int;
    let (cands, s1) = spec_step_cands(inst, width, poses, cfg, rng, i);
    let b = spec_best_range(inst, width, poses, i, cands, 0, cands.len() as int);
    let improving = spec_pose_loss(inst, width, poses, i, cands[b]) < spec_pose_loss(
        inst,
        width,
        poses,
        i,
        cands[0],
    );
    let escape = !improving && cfg.accept_num > 0;
    let accept = improving || (escape && spec_next_value(s1) % cfg.accept_den < cfg.accept_num);
    let s2 = if escape {
        spec_next_state(s1)
    } else {
        s1
    };
    let poses2 = if accept {
        poses.update(i, cands[b])
    } else {
        poses
    };
    (poses2, s2, count.wrapping_add(1))
}

/// A run of up to `k` steps, stopping early once the layout is feasible.
#[verifier::opaque]
pub open spec fn spec_run(
    inst: Instance,
    width: u64,
    poses: Seq<Pose>,
    cfg: SeparatorConfig,
    rng: u64,
    count: u64,
    k: int,
) -> (Seq<Pose>, u64, u64)
    decreases k,
{
    if k <= 0 || spec_layout_loss(inst, width, poses) == 0 {
        (poses, rng, count)
    } else {
        let (p2, r2, c2) = spec_step_state(inst, width, poses, cfg, rng, count);
        spec_run(inst, width, p2, cfg, r2, c2, k - 1)
    }
}

/// The local-search engine: shared instance, owned layout, owned generator,
/// immutable configuration.
#[derive(Clone, Debug)]
pub struct Separator {
    /// The problem statement the layout is placed against.
    pub instance: Instance,
    /// The layout this Separator exclusively owns and perturbs.
    pub layout: Layout,
    /// The deterministic generator feeding the candidate draws.
    pub rng: Rng,
    /// Tuning of the search.
    pub config: SeparatorConfig,
    /// Number of steps taken; selects the item a step perturbs.
    pub step_count: u64,
}

impl Separator {
    /// The engine's invariant: instance, layout and configuration are well
    /// formed and belong together.
    pub open spec fn wf(self) -> bool {
        &&& self.instance.wf()
        &&& self.layout.wf(self.instance)
        &&& self.config.wf()
    }

    /// A new engine over the given layout.
    pub fn new(instance: Instance, layout: Layout, rng: Rng, config: SeparatorConfig) -> (r:
        Separator)
        requires
            instance.wf(),
            layout.wf(instance),
            config.wf(),
        ensures
            r.instance == instance,
            r.layout == layout,
            r.rng == rng,
            r.config == config,
            r.step_count == 0,
            r.wf(),
    {
        Separator { instance, layout, rng, config, step_count: 0 }
    }

    /// Total loss of the owned layout: zero exactly when it is feasible.
    pub fn loss(&self) -> (r: u128)
        requires
            self.wf(),
        ensures
            r == spec_layout_loss(self.instance, self.layout.strip_width, self.layout.poses@),
    {
        layout_loss(&self.instance, &self.layout)
    }

    /// Density of the owned layout in parts per million.
    pub fn density(&self, inst: &Instance) -> (r: u64)
        requires
            self.wf(),
            *inst == self.instance,
        ensures
            r as int == if crate::model::spec_density_ppm(self.instance, self.layout.strip_width)
                > u64::MAX as int {
                u64::MAX as int
            } else {
                crate::model::spec_density_ppm(self.instance, self.layout.strip_width)
            },
    {
        crate::model::density_ppm(inst, &self.layout)
    }

    /// One local-search step (see the module description). Never fails; lack
    /// of progress is visible only through the caller's own attempt counting.
    #[verifier::rlimit(100)]
    pub fn step(&mut self)
        requires
            old(self).wf(),
            old(self).layout.poses.len() >= 1,
        ensures
            final(self).wf(),
            final(self).instance == old(self).instance,
            final(self).config == old(self).config,
            final(self).layout.strip_width == old(self).layout.strip_width,
            final(self).layout.poses.len() == old(self).layout.poses.len(),
            (final(self).layout.poses@, final(self).rng.state, final(self).step_count)
                == spec_step_state(
                old(self).instance,
                old(self).layout.strip_width,
                old(self).layout.poses@,
                old(self).config,
                old(self).rng.state,
                old(self).step_count,
            ),
    {
        let n = self.layout.poses.len();
        let i = (self.step_count % (n as u64)) as usize;
        let center = self.layout.poses[i];
        let ghost s0 = self.rng.state;
        let cands = build_step_cands(&self.instance, &self.layout, self.config, &mut self.rng, i);
        let ghost s_mid = self.rng.state;
        let (b, best_loss) = best_candidate(
            &self.instance,
            &self.layout,
            i,
            &cands,
            self.config.n_workers,
        );
        let cur_loss = pose_loss(&self.instance, &self.layout, i, center);
        assert(cands@[0] == center);
        let improving = best_loss < cur_loss;
        let accept: bool = if improving {
            true
        } else if self.config.accept_num > 0 {
            self.rng.next_ratio(self.config.accept_num, self.config.accept_den)
        } else {
            false
        };
        proof {
            reveal(spec_step_state);
            let spec_escape = !improving && self.config.accept_num > 0;
            assert(self.rng.state == if spec_escape {
                spec_next_state(s_mid)
            } else {
                s_mid
            });
            assert(accept == (improving || (spec_escape && spec_next_value(s_mid)
                % self.config.accept_den < self.config.accept_num)));
        }
        if accept {
            let chosen = cands[b];
            self.layout.poses.set(i, chosen);
        }
        self.step_count = self.step_count.wrapping_add(1);
        proof {
            reveal(spec_step_state);
            let st = spec_step_state(
                old(self).instance,
                old(self).layout.strip_width,
                old(self).layout.poses@,
                old(self).config,
                old(self).rng.state,
                old(self).step_count,
            );
            assert(self.layout.poses@ == st.0);
            assert(self.rng.state == st.1);
            assert(self.step_count == st.2);
        }
    }

    /// Runs up to `max_steps` steps, stopping early once the layout is
    /// feasible. Deterministic: the state after the run is a function of the
    /// state before it and the bound.
    pub fn run_steps(&mut self, max_steps: usize)
        requires
            old(self).wf(),
            old(self).layout.poses.len() >= 1,
        ensures
            final(self).wf(),
            final(self).instance == old(self).instance,
            final(self).config == old(self).config,
            final(self).layout.strip_width == old(self).layout.strip_width,
            final(self).layout.poses.len() == old(self).layout.poses.len(),
            (final(self).layout.poses@, final(self).rng.state, final(self).step_count)
                == spec_run(
                old(self).instance,
                old(self).layout.strip_width,
                old(self).layout.poses@,
                old(self).config,
                old(self).rng.state,
                old(self).step_count,
                max_steps as int,
            ),
    {
        let mut k: usize = 0;
        while k < max_steps
            invariant
                self.wf(),
                self.layout.poses.len() >= 1,
                self.instance == old(self).instance,
                self.config == old(self).config,
                self.layout.strip_width == old(self).layout.strip_width,
                self.layout.poses.len() == old(self).layout.poses.len(),
                k <= max_steps,
                spec_run(
                    old(self).instance,
                    old(self).layout.strip_width,
                    old(self).layout.poses@,
                    old(self).config,
                    old(self).rng.state,
                    old(self).step_count,
                    max_steps as int,
                ) == spec_run(
                    self.instance,
                    self.layout.strip_width,
                    self.layout.poses@,
                    self.config,
                    self.rng.state,
                    self.step_count,
                    (max_steps - k) as int,
                ),
            decreases max_steps - k,
        {
            proof {
                reveal_with_fuel(spec_run, 2);
            }
            let l = layout_loss(&self.instance, &self.layout);
            if l == 0 {
                return ;
            }
            self.step();
            k = k + 1;
        }
        proof {
            reveal_with_fuel(spec_run, 2);
        }
    }

    /// Loops steps until the layout is fully feasible or the terminator
    /// reports the kill; reports whether feasibility was reached. The
    /// Separator has no give-up concept of its own: lack of progress is
    /// visible only through the caller's attempt counting.
    pub fn run_until<T: crate::terminator::Terminator>(&mut self, term: &mut T) -> (r: bool)
        requires
            old(self).wf(),
            old(self).layout.poses.len() >= 1,
        ensures
            final(self).wf(),
            final(self).instance == old(self).instance,
            final(self).config == old(self).config,
            final(self).layout.strip_width == old(self).layout.strip_width,
            final(self).layout.poses.len() == old(self).layout.poses.len(),
            r == (spec_layout_loss(
                final(self).instance,
                final(self).layout.strip_width,
                final(self).layout.poses@,
            ) == 0),
    {
        let mut rounds: u64 = 0;
        while rounds < u64::MAX
            invariant
                self.wf(),
                self.layout.poses.len() >= 1,
                self.instance == old(self).instance,
                self.config == old(self).config,
                self.layout.strip_width == old(self).layout.strip_width,
                self.layout.poses.len() == old(self).layout.poses.len(),
            decreases u64::MAX - rounds,
        {
            if term.is_kill() {
                break ;
            }
            let l = layout_loss(&self.instance, &self.layout);
            if l == 0 {
                return true;
            }
            self.step();
            rounds = rounds + 1;
        }
        let l = layout_loss(&self.instance, &self.layout);
        l == 0
    }
}

/// The greedy guarantee: with the escape acceptance disabled, a step never
/// worsens the perturbed item. It commits the batch's best candidate only
/// when that candidate strictly beats the item's current pose, so the
/// item's own Quantify loss (evaluated against the unchanged other items)
/// never increases, and no other item's pose moves at all.
/// The candidate batch always starts with the item's current pose.
#[verifier::rlimit(100)]
proof fn lemma_step_cands_head(
    inst: Instance,
    width: u64,
    poses: Seq<Pose>,
    cfg: SeparatorConfig,
    rng: u64,
    i: int,
)
    ensures
        spec_step_cands(inst, width, poses, cfg, rng, i).0.len() >= 1,
        spec_step_cands(inst, width, poses, cfg, rng, i).0[0] == poses[i],
{
    reveal(spec_step_cands);
}

#[verifier::rlimit(100)]
pub proof fn lemma_greedy_step_never_worsens(
    inst: Instance,
    width: u64,
    poses: Seq<Pose>,
    cfg: SeparatorConfig,
    rng: u64,
    count: u64,
)
    requires
        cfg.accept_num == 0,
        1 <= poses.len() <= 0x1000000,
    ensures
        ({
            let i = (count % (poses.len() as u64)) as int;
            let p2 = spec_step_state(inst, width, poses, cfg, rng, count).0;
            &&& p2.len() == poses.len()
            &&& (forall|j: int| 0 <= j < poses.len() && j != i ==> p2[j] == poses[j])
            &&& spec_pose_loss(inst, width, poses, i, p2[i]) <= spec_pose_loss(
                inst,
                width,
                poses,
                i,
                poses[i],
            )
        }),
{
    reveal(spec_step_state);
    let i = (count % (poses.len() as u64)) as int;
    assert(0 <= i < poses.len()) by {
        assert(count % (poses.len() as u64) < poses.len() as u64);
    }
    let (cands, s1) = spec_step_cands(inst, width, poses, cfg, rng, i);
    lemma_step_cands_head(inst, width, poses, cfg, rng, i);
    assert(cands[0] == poses[i]);
    assert(cands.len() >= 1);
    let b = spec_best_range(inst, width, poses, i, cands, 0, cands.len() as int);
    crate::eval::lemma_best_range_props(inst, width, poses, i, cands, 0, cands.len() as int);
    assert(spec_pose_loss(inst, width, poses, i, cands[b]) <= spec_pose_loss(
        inst,
        width,
        poses,
        i,
        cands[0],
    ));
    let improving = spec_pose_loss(inst, width, poses, i, cands[b]) < spec_pose_loss(
        inst,
        width,
        poses,
        i,
        cands[0],
    );
    let p2 = spec_step_state(inst, width, poses, cfg, rng, count).0;
    assert(p2 == if improving {
        poses.update(i, cands[b])
    } else {
        poses
    });
    assert(p2.len() == poses.len());
    assert(spec_pose_loss(inst, width, poses, i, p2[i]) <= spec_pose_loss(
        inst,
        width,
        poses,
        i,
        poses[i],
    ));
}

/// Reproducibility: two separators in equal states make equal runs — the
/// poses they accept, the generator states they reach and the counters they
/// end with coincide step for step. A run's outcome is a function of the
/// seed, the instance, the layout and the configuration alone.
pub proof fn lemma_run_reproducible(
    inst: Instance,
    width: u64,
    poses1: Seq<Pose>,
    poses2: Seq<Pose>,
    cfg: SeparatorConfig,
    rng1: u64,
    rng2: u64,
    count1: u64,
    count2: u64,
    k: int,
)
    requires
        poses1 == poses2,
        rng1 == rng2,
        count1 == count2,
    ensures
        spec_run(inst, width, poses1, cfg, rng1, count1, k) == spec_run(
            inst,
            width,
            poses2,
            cfg,
            rng2,
            count2,
            k,
        ),
{
}

} // verus!
