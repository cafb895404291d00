//! Deterministic random-number chain. One root seed — given, or drawn once
//! from the system — feeds a splitmix-style generator; every phase or worker
//! derives an independently seeded child at creation, so streams stay
//! reproducible regardless of scheduling.
use vstd::prelude::*;

verus! {

/// Odd increment of the splitmix state walk.
pub const GOLDEN_GAMMA: u64 = 0x9E3779B97F4A7C15;

/// Finalizing mix of one state word into one output word.
pub open spec fn spec_mix(z0: u64) -> u64 {
    let z1 = (z0 ^ (z0 >> 30)).wrapping_mul(0xBF58476D1CE4E5B9);
    let z2 = (z1 ^ (z1 >> 27)).wrapping_mul(0x94D049BB133111EB);
    z2 ^ (z2 >> 31)
}

/// The state after one draw.
pub open spec fn spec_next_state(s: u64) -> u64 {
    s.wrapping_add(GOLDEN_GAMMA)
}

/// The value of one draw from state `s`.
pub open spec fn spec_next_value(s: u64) -> u64 {
    spec_mix(spec_next_state(s))
}

/// A deterministic generator: the whole stream is a function of the state.
#[derive(Clone, Copy, PartialEq, Eq, Structural, Debug)]
pub struct Rng {
    /// Current state; every future draw is determined by it.
    pub state: u64,
}

impl Rng {
    /// A generator seeded with the given word.
    pub fn seed_from_u64(seed: u64) -> (r: Rng)
        ensures
            r.state == seed,
    {
        Rng { state: seed }
    }

    /// Draws one word; the result and the successor state are functions of
    /// the state alone.
    pub fn next_u64(&mut self) -> (r: u64)
        ensures
            final(self).state == spec_next_state(old(self).state),
            r == spec_next_value(old(self).state),
    {
        let z0 = self.state.wrapping_add(GOLDEN_GAMMA);
        self.state = z0;
        let z1 = (z0 ^ (z0 >> 30)).wrapping_mul(0xBF58476D1CE4E5B9);
        let z2 = (z1 ^ (z1 >> 27)).wrapping_mul(0x94D049BB133111EB);
        z2 ^ (z2 >> 31)
    }

    /// Draws a value below `n`.
    pub fn next_below(&mut self, n: u64) -> (r: u64)
        requires
            n > 0,
        ensures
            final(self).state == spec_next_state(old(self).state),
            r == spec_next_value(old(self).state) % n,
            r < n,
    {
        let v = self.next_u64();
        v % n
    }

    /// Draws a value in the inclusive range `[lo, hi]`.
    pub fn next_in_range(&mut self, lo: u64, hi: u64) -> (r: u64)
        requires
            lo <= hi,
            hi - lo < u64::MAX,
        ensures
            final(self).state == spec_next_state(old(self).state),
            r == lo + spec_next_value(old(self).state) as int % (hi - lo + 1),
            lo <= r <= hi,
    {
        let span = hi - lo + 1;
        let v = self.next_below(span);
        lo + v
    }

    /// Decides an event of probability `num / den`.
    pub fn next_ratio(&mut self, num: u64, den: u64) -> (r: bool)
        requires
            den > 0,
        ensures
            final(self).state == spec_next_state(old(self).state),
            r == (spec_next_value(old(self).state) % den < num),
    {
        let v = self.next_below(den);
        v < num
    }

    /// Spawns an independently seeded child generator: its seed is one draw
    /// of this generator, taken exactly once at creation.
    pub fn derive_child(&mut self) -> (r: Rng)
        ensures
            final(self).state == spec_next_state(old(self).state),
            r.state == spec_next_value(old(self).state),
    {
        let seed = self.next_u64();
        Rng { state: seed }
    }
}

/// Relies on `rand::random::<u64>`: one word from the thread-local system
/// generator. Nothing is promised of the value: the root seed it becomes is
/// always echoed back to the caller, which keeps the run reproducible.
#[verifier::external_body]
fn system_random_u64() -> (r: u64) {
    rand::random::<u64>()
}

/// Resolves the optional configured seed: an explicit seed is used as given;
/// with none, one is drawn from the system. The resolved seed is the result,
/// so the caller can log it and reproduce the run.
pub fn resolve_seed(configured: Option<u64>) -> (r: u64)
    ensures
        configured is Some ==> r == configured->0,
{
    match configured {
        Option::Some(s) => s,
        Option::None => system_random_u64(),
    }
}

} // verus!
