//! Cooperative termination: a shared deadline plus an external cancel
//! signal, polled at the top of every local-search iteration. Arming a new
//! timeout replaces the previous deadline and clears any latched cancel, so
//! each phase starts with a clean slate. Once a poll has reported the kill,
//! the decision is latched: it never reverts.
//!
//! The decision logic is a pure function of the terminator state and the
//! polled clock value; only the clock read itself and the shared atomic
//! cancel flag are taken on trust.
use vstd::prelude::*;

verus! {

/// One capability interface over both terminator shapes: polled kill,
/// fresh per-phase deadlines, and the current deadline for diagnostics.
pub trait Terminator: Sized {
    /// Whether the terminator has decided to stop the run.
    spec fn done(&self) -> bool;

    /// The deadline it is armed with, in milliseconds on the shared clock.
    spec fn armed_deadline(&self) -> Option<u64>;

    /// Polls the deadline and the cancel signal. Once it has reported the
    /// kill, it keeps reporting it; polling never changes the deadline.
    fn is_kill(&mut self) -> (r: bool)
        ensures
            r == final(self).done(),
            old(self).done() ==> r,
            final(self).armed_deadline() == old(self).armed_deadline(),
    ;

    /// Arms a deadline the given number of milliseconds from now, replacing
    /// any previous deadline and clearing any latched cancel or kill.
    fn new_timeout(&mut self, d_ms: u64)
        ensures
            !final(self).done(),
            final(self).armed_deadline() is Some,
    ;

    /// The armed deadline, in milliseconds on the shared clock, if any.
    fn timeout_at(&self) -> (r: Option<u64>)
        ensures
            r == self.armed_deadline(),
    ;
}

/// Relies on `web_time::SystemTime::now`: milliseconds since the Unix
/// epoch, read from the system clock (zero if the clock reads before the
/// epoch). Nothing is promised of the value; every decision taken from it
/// is a verified function of the value handed back.
#[verifier::external_body]
fn now_millis() -> (r: u64) {
    match web_time::SystemTime::now().duration_since(web_time::UNIX_EPOCH) {
        Ok(d) => d.as_millis() as u64,
        Err(_) => 0,
    }
}

/// The deadline-only terminator: an optional deadline, an injectable cancel
/// flag, and the latch. All state is plain, so the kill decision against a
/// given clock value is exact.
#[derive(Clone, Copy, PartialEq, Eq, Structural, Debug)]
pub struct BasicTerminator {
    /// The armed deadline in clock milliseconds, if any.
    pub deadline: Option<u64>,
    /// Whether an external cancel has been signalled since the last arming.
    pub cancelled: bool,
    /// Whether a poll has already reported the kill.
    pub latched: bool,
}

impl BasicTerminator {
    /// The kill decision against the clock value `now`: latched, cancelled,
    /// or past the armed deadline.
    pub open spec fn spec_killed_at(self, now: u64) -> bool {
        self.latched || self.cancelled || match self.deadline {
            Option::Some(d) => now >= d,
            Option::None => false,
        }
    }

    /// A terminator that never fires until armed or cancelled.
    pub fn new() -> (r: BasicTerminator)
        ensures
            r.deadline is None,
            !r.cancelled,
            !r.latched,
    {
        BasicTerminator { deadline: Option::None, cancelled: false, latched: false }
    }

    /// Polls the kill decision against an explicit clock value and latches
    /// it: exactly `spec_killed_at(now)`.
    pub fn check_at(&mut self, now: u64) -> (r: bool)
        ensures
            r == old(self).spec_killed_at(now),
            final(self).latched == r,
            final(self).deadline == old(self).deadline,
            final(self).cancelled == old(self).cancelled,
    {
        let k = self.latched || self.cancelled || match self.deadline {
            Option::Some(d) => now >= d,
            Option::None => false,
        };
        self.latched = k;
        k
    }

    /// Arms a deadline `d_ms` past the explicit clock value `now`,
    /// replacing (never extending) the previous deadline and clearing any
    /// previously latched cancel, so the phase starts with a clean slate.
    pub fn new_timeout_at(&mut self, now: u64, d_ms: u64)
        ensures
            final(self).deadline == Option::Some(
                if now as int + d_ms as int > u64::MAX as int {
                    u64::MAX
                } else {
                    (now + d_ms) as u64
                },
            ),
            !final(self).cancelled,
            !final(self).latched,
    {
        let d = if now <= u64::MAX - d_ms {
            now + d_ms
        } else {
            u64::MAX
        };
        self.deadline = Option::Some(d);
        self.cancelled = false;
        self.latched = false;
    }

    /// Injects the external cancel signal.
    pub fn signal_cancel(&mut self)
        ensures
            final(self).cancelled,
            final(self).deadline == old(self).deadline,
            final(self).latched == old(self).latched,
    {
        self.cancelled = true;
    }

    /// Drops the armed deadline.
    pub fn clear_timeout(&mut self)
        ensures
            final(self).deadline is None,
            final(self).cancelled == old(self).cancelled,
            final(self).latched == old(self).latched,
    {
        self.deadline = Option::None;
    }
}

impl Terminator for BasicTerminator {
    open spec fn done(&self) -> bool {
        self.latched
    }

    open spec fn armed_deadline(&self) -> Option<u64> {
        self.deadline
    }

    fn is_kill(&mut self) -> (r: bool)
        ensures
            r == final(self).done(),
            old(self).done() ==> r,
            final(self).armed_deadline() == old(self).armed_deadline(),
            old(self).cancelled ==> r,
            final(self).cancelled == old(self).cancelled,
    {
        let now = now_millis();
        self.check_at(now)
    }

    fn new_timeout(&mut self, d_ms: u64)
        ensures
            !final(self).done(),
            final(self).armed_deadline() is Some,
            !final(self).cancelled,
    {
        let now = now_millis();
        self.new_timeout_at(now, d_ms);
    }

    fn timeout_at(&self) -> (r: Option<u64>)
        ensures
            r == self.armed_deadline(),
    {
        self.deadline
    }
}

/// The shared external cancel flag: one atomic word that a signal handler
/// (or any other thread) may set while a run polls it. Several concurrently
/// spawned runs may share one flag; each owns its own deadline. The word's
/// value depends on what other threads have stored, so nothing is promised
/// of a load; the callers treat either answer correctly.
pub struct CancelFlag {
    /// The shared word, held through a counted handle.
    pub inner: std::sync::Arc<std::sync::atomic::AtomicBool>,
}

impl CancelFlag {
    /// A new, unset flag.
    pub fn new() -> (r: CancelFlag) {
        CancelFlag {
            inner: std::sync::Arc::new(std::sync::atomic::AtomicBool::new(false)),
        }
    }

    /// Relies on `Arc::clone`: a second handle on the same word.
    #[verifier::external_body]
    pub fn duplicate(&self) -> (r: CancelFlag) {
        CancelFlag { inner: std::sync::Arc::clone(&self.inner) }
    }

    /// Reads the word.
    pub fn load(&self) -> (r: bool) {
        self.inner.load(std::sync::atomic::Ordering::SeqCst)
    }

    /// Writes the word.
    pub fn store(&self, v: bool) {
        self.inner.store(v, std::sync::atomic::Ordering::SeqCst)
    }
}

/// The deadline-plus-signal terminator: the plain deadline state joined
/// with a shared atomic cancel flag that a signal handler sets.
pub struct CtrlCTerminator {
    /// The plain deadline-and-latch state.
    pub base: BasicTerminator,
    /// The shared cancel flag, polled on every kill check.
    pub flag: CancelFlag,
}

impl CtrlCTerminator {
    /// A terminator polling the given shared flag.
    pub fn new(flag: CancelFlag) -> (r: CtrlCTerminator)
        ensures
            r.base.deadline is None,
            !r.base.cancelled,
            !r.base.latched,
    {
        CtrlCTerminator { base: BasicTerminator::new(), flag }
    }

    /// Clears the shared cancel signal without touching the deadline.
    pub fn reset_ctrlc(&mut self)
        ensures
            !final(self).base.cancelled,
            final(self).base.deadline == old(self).base.deadline,
            final(self).base.latched == old(self).base.latched,
    {
        self.flag.store(false);
        self.base.cancelled = false;
    }
}

impl Terminator for CtrlCTerminator {
    open spec fn done(&self) -> bool {
        self.base.latched
    }

    open spec fn armed_deadline(&self) -> Option<u64> {
        self.base.deadline
    }

    fn is_kill(&mut self) -> (r: bool)
        ensures
            r == final(self).done(),
            old(self).done() ==> r,
            final(self).armed_deadline() == old(self).armed_deadline(),
            old(self).base.cancelled ==> r,
    {
        if self.flag.load() {
            self.base.signal_cancel();
        }
        let now = now_millis();
        self.base.check_at(now)
    }

    fn new_timeout(&mut self, d_ms: u64)
        ensures
            !final(self).done(),
            final(self).armed_deadline() is Some,
            !final(self).base.cancelled,
    {
        self.flag.store(false);
        let now = now_millis();
        self.base.new_timeout_at(now, d_ms);
    }

    fn timeout_at(&self) -> (r: Option<u64>)
        ensures
            r == self.armed_deadline(),
    {
        self.base.deadline
    }
}

/// A fresh timeout starts clean and fires exactly by the clock: polled at
/// any instant before the deadline — the arming instant included, for a
/// positive duration — the kill is false; polled at the deadline or past
/// it, it is true; and any previously latched cancel or kill is cleared by
/// the arming, so each phase starts with a clean slate.
pub proof fn lemma_fresh_timeout_clean(t1: BasicTerminator, now: u64, d: u64)
    requires
        d > 0,
        now as int + d as int <= u64::MAX as int,
        t1.deadline == Option::Some((now + d) as u64),
        !t1.cancelled,
        !t1.latched,
    ensures
        !t1.spec_killed_at(now),
        forall|p: u64| p < now + d ==> !t1.spec_killed_at(p),
        forall|p: u64| p >= now + d ==> t1.spec_killed_at(p),
{
}

} // verus!
