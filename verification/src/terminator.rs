//! A shared, thread-safe cancellation token with deadline support.
//!
//! Two independent shutdown signals are combined at read time: an explicit
//! stop request (monotonic: once set it stays set until `reset`) and an
//! optional deadline that is armed at most once per run. The deadline guards
//! the run's single global time limit against being overwritten by a nested
//! phase-specific timeout request.

use std::sync::Arc;
use vstd::prelude::*;
use vstd::rwlock::RwLock;
use vstd::rwlock::RwLockPredicate;

verus! {

/// Adds two durations in milliseconds, capping at the largest representable
/// value instead of wrapping.
pub open spec fn sat_add_ms(a: u64, b: u64) -> u64 {
    if a + b > u64::MAX { u64::MAX } else { (a + b) as u64 }
}

/// The cancellation state of one optimization run: a monotonic stop flag and
/// an optional absolute deadline in milliseconds on the caller's clock.
#[derive(Clone, Copy, Debug)]
pub struct TerminatorState {
    /// Set when a stop was requested from outside; cleared only by `reset`.
    pub stop_requested: bool,
    /// Absolute deadline in milliseconds; `None` while no deadline is armed.
    pub deadline_ms: Option<u64>,
}

impl TerminatorState {
    /// The state of a fresh terminator: no stop requested, no deadline armed.
    pub open spec fn spec_initial() -> TerminatorState {
        TerminatorState { stop_requested: false, deadline_ms: None }
    }

    /// The state after a stop request: the flag is set, the deadline is kept.
    pub open spec fn spec_request_stop(self) -> TerminatorState {
        TerminatorState { stop_requested: true, ..self }
    }

    /// The state after arming a deadline of `duration_ms` at time `now_ms`:
    /// the deadline becomes `now_ms + duration_ms` if none was armed yet, and
    /// is left untouched otherwise.
    pub open spec fn spec_arm(self, now_ms: u64, duration_ms: u64) -> TerminatorState {
        if self.deadline_ms is Some {
            self
        } else {
            TerminatorState { deadline_ms: Some(sat_add_ms(now_ms, duration_ms)), ..self }
        }
    }

    /// Whether the run must stop at time `now_ms`: a stop was requested, or a
    /// deadline is armed and has passed.
    pub open spec fn spec_should_stop(self, now_ms: u64) -> bool {
        self.stop_requested || match self.deadline_ms {
            Some(d) => now_ms > d,
            None => false,
        }
    }

    /// A fresh state: no stop requested, no deadline armed.
    pub fn new() -> (r: TerminatorState)
        ensures
            r == TerminatorState::spec_initial(),
    {
        TerminatorState { stop_requested: false, deadline_ms: None }
    }

    /// Records a stop request; the deadline is not affected.
    pub fn request_stop(&mut self)
        ensures
            *final(self) == old(self).spec_request_stop(),
    {
        self.stop_requested = true;
    }

    /// Arms the deadline to `now_ms + duration_ms`, but only if no deadline
    /// is currently armed; otherwise the call changes nothing.
    pub fn arm_deadline_at(&mut self, now_ms: u64, duration_ms: u64)
        ensures
            *final(self) == old(self).spec_arm(now_ms, duration_ms),
    {
        if self.deadline_ms.is_none() {
            let d = if now_ms > u64::MAX - duration_ms {
                u64::MAX
            } else {
                now_ms + duration_ms
            };
            self.deadline_ms = Some(d);
        }
    }

    /// Whether the run must stop at time `now_ms`.
    pub fn should_stop_at(&self, now_ms: u64) -> (r: bool)
        ensures
            r == self.spec_should_stop(now_ms),
    {
        if self.stop_requested {
            return true;
        }
        match self.deadline_ms {
            Some(d) => now_ms > d,
            None => false,
        }
    }

    /// Clears both the stop flag and the deadline, returning to the initial
    /// state so the terminator can be reused across independent runs.
    pub fn reset(&mut self)
        ensures
            *final(self) == TerminatorState::spec_initial(),
    {
        self.stop_requested = false;
        self.deadline_ms = None;
    }

    /// The currently armed deadline, if any, for diagnostic purposes.
    pub fn deadline(&self) -> (r: Option<u64>)
        ensures
            r == self.deadline_ms,
    {
        self.deadline_ms
    }
}

/// Requesting a stop twice has the same observable effect as requesting it
/// once: the stop request is idempotent.
pub proof fn lemma_request_stop_idempotent(s: TerminatorState)
    ensures
        s.spec_request_stop().spec_request_stop() == s.spec_request_stop(),
{
}

/// Once a stop is requested, every later read of the combined stop condition
/// observes it, whatever the clock says and whether a deadline is armed.
pub proof fn lemma_stop_request_observed(s: TerminatorState, now_ms: u64)
    ensures
        s.spec_request_stop().spec_should_stop(now_ms),
{
}

/// A deadline is armed at most once: arming a second deadline after a first
/// one leaves the state exactly as the first arming left it, and the first
/// arming on a fresh state sets the deadline implied by its own arguments.
pub proof fn lemma_arm_deadline_once(s: TerminatorState, n1: u64, d1: u64, n2: u64, d2: u64)
    ensures
        s.spec_arm(n1, d1).spec_arm(n2, d2) == s.spec_arm(n1, d1),
        s.deadline_ms is None ==> s.spec_arm(n1, d1).deadline_ms == Some(sat_add_ms(n1, d1)),
{
}

/// Resetting returns to the initial state no matter what happened before.
pub proof fn lemma_reset_reusable(s: TerminatorState, now_ms: u64)
    ensures
        !TerminatorState::spec_initial().spec_should_stop(now_ms),
        TerminatorState::spec_initial().deadline_ms is None,
{
}

/// The invariant the shared cell maintains; every state is acceptable, the
/// lock serves only to serialize access from multiple threads.
pub struct AnyState;

impl RwLockPredicate<TerminatorState> for AnyState {
    open spec fn inv(self, v: TerminatorState) -> bool {
        true
    }
}

/// Relies on `std::time::SystemTime::now`: a reading of the system clock,
/// converted to whole milliseconds since the Unix epoch (0 if the clock is
/// set before the epoch). Nothing is promised of the value: the clock is not
/// monotonic and differs between machines and moments.
#[verifier::external_body]
pub(crate) fn current_time_millis() -> u64 {
    match std::time::SystemTime::now().duration_since(std::time::SystemTime::UNIX_EPOCH) {
        Ok(d) => {
            let ms = d.as_millis();
            if ms > u64::MAX as u128 {
                u64::MAX
            } else {
                ms as u64
            }
        },
        Err(_) => 0,
    }
}

/// Relies on `std::sync::Arc`'s `Clone`: the clone refers to the very same
/// shared allocation, so both handles see one cancellation state.
#[verifier::external_body]
fn share_cell(cell: &Arc<RwLock<TerminatorState, AnyState>>) -> (r: Arc<
    RwLock<TerminatorState, AnyState>,
>)
    ensures
        r == *cell,
{
    cell.clone()
}

/// A shared, thread-safe cancellation token. All handles obtained through
/// `get_handle` refer to one state cell; reads take a read-biased lock so
/// that high-frequency polling from the optimizer's inner loop stays cheap.
#[derive(Clone)]
pub struct NativeTerminator {
    cell: Arc<RwLock<TerminatorState, AnyState>>,
}

impl NativeTerminator {
    /// A fresh terminator: no stop requested, no deadline armed.
    pub fn new() -> NativeTerminator {
        NativeTerminator {
            cell: Arc::new(RwLock::new(TerminatorState::new(), Ghost(AnyState))),
        }
    }

    /// A snapshot of the shared state, taken under a read lock.
    fn snapshot(&self) -> TerminatorState {
        let handle = self.cell.acquire_read();
        let s = *handle.borrow();
        handle.release_read();
        s
    }

    /// Applies `TerminatorState::spec_request_stop` to the shared state:
    /// requests termination of the optimization. Any thread may call this at
    /// any time, any number of times, idempotently.
    pub fn terminate(&self) {
        let (mut s, write_handle) = self.cell.acquire_write();
        s.request_stop();
        write_handle.release_write(s);
    }

    /// Whether termination was requested or an armed deadline has passed,
    /// judged against the current clock.
    pub fn is_terminated(&self) -> bool {
        let s = self.snapshot();
        let now_ms = current_time_millis();
        s.should_stop_at(now_ms)
    }

    /// Same combined stop condition as `is_terminated`, under the name the
    /// optimizer polls from its inner search loop.
    pub fn kill(&self) -> bool {
        self.is_terminated()
    }

    /// Applies `TerminatorState::spec_arm` to the shared state at the current
    /// clock: arms the deadline to now plus `duration_ms`, unless a deadline
    /// is already armed, in which case the call is a no-op. This keeps the
    /// run's single global time limit safe from nested phase timeouts.
    pub fn new_timeout(&self, duration_ms: u64) {
        let now_ms = current_time_millis();
        let (mut s, write_handle) = self.cell.acquire_write();
        s.arm_deadline_at(now_ms, duration_ms);
        write_handle.release_write(s);
    }

    /// The currently armed deadline in milliseconds, if any.
    pub fn timeout_at(&self) -> Option<u64> {
        let s = self.snapshot();
        s.deadline()
    }

    /// Applies `TerminatorState::spec_initial` to the shared state: clears
    /// both the stop flag and the deadline for reuse across runs. Must not be
    /// called while a run referencing this terminator is still in flight.
    pub fn reset(&self) {
        let (mut s, write_handle) = self.cell.acquire_write();
        s.reset();
        write_handle.release_write(s);
    }

    /// Another handle to the same shared state, for use on another thread: a
    /// stop requested through one handle is observed through every other.
    pub fn get_handle(&self) -> (r: NativeTerminator)
        ensures
            r == *self,
    {
        NativeTerminator { cell: share_cell(&self.cell) }
    }
}

impl Default for NativeTerminator {
    /// A fresh terminator, as `new` returns.
    fn default() -> NativeTerminator {
        NativeTerminator::new()
    }
}

} // verus!
