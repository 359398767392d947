//! The discovery-session state machine.
//!
//! A session brackets a timed scan window: a start-scan call, a blocking
//! wait, a stop-scan call. The remote calls themselves are bus I/O and live
//! outside the library; the session here is the decision core, fed the
//! outcome of each call. Starting succeeds into `Discovering` and fails back
//! into `Idle`; stopping succeeds into `Idle`, while a failed stop leaves the
//! session `Indeterminate` — the controller never verifies the actual
//! adapter state, so a caller must not read a failed stop as "still
//! scanning".

use vstd::prelude::*;

verus! {

/// How long one remote call may take before it times out, in milliseconds.
pub const CALL_TIMEOUT_MS: u64 = 5000;

/// How long the scan window between start and stop lasts, in milliseconds.
pub const SCAN_WINDOW_MS: u64 = 30000;

/// The object path of the adapter against which scans are controlled.
pub fn scan_adapter_path() -> (r: &'static str)
    ensures
        r@ == "/org/bluez/hci0"@,
{
    "/org/bluez/hci0"
}

/// The session's state: scanning is off, on, or — after a failed stop —
/// unknown.
#[derive(Clone, Copy, PartialEq, Eq, Structural, Debug)]
pub enum SessionState {
    Idle,
    Discovering,
    Indeterminate,
}

/// The state after a start-scan call with the given outcome: success begins
/// discovering; failure leaves the state as it was.
pub open spec fn spec_after_start(s: SessionState, call_ok: bool) -> SessionState {
    if call_ok {
        SessionState::Discovering
    } else {
        s
    }
}

/// The state after a stop-scan call with the given outcome: success returns
/// to idle; failure leaves the adapter's true state unknown.
pub open spec fn spec_after_stop(s: SessionState, call_ok: bool) -> SessionState {
    if call_ok {
        SessionState::Idle
    } else {
        SessionState::Indeterminate
    }
}

/// One discovery session against one adapter. At most one session drives an
/// adapter at a time; the scan window has no early cancellation.
pub struct DiscoverySession {
    pub state: SessionState,
}

impl DiscoverySession {
    /// A fresh session, not scanning.
    pub fn new() -> (s: Self)
        ensures
            s.state == SessionState::Idle,
    {
        DiscoverySession { state: SessionState::Idle }
    }

    /// The current state.
    pub fn current_state(&self) -> (s: SessionState)
        ensures
            s == self.state,
    {
        self.state
    }

    /// Records the outcome of the start-scan remote call. Only an idle
    /// session may start; on failure the error stays with the caller and the
    /// session stays idle.
    pub fn on_start_outcome(&mut self, call_ok: bool)
        requires
            old(self).state == SessionState::Idle,
        ensures
            final(self).state == spec_after_start(old(self).state, call_ok),
    {
        if call_ok {
            self.state = SessionState::Discovering;
        }
    }

    /// Records the outcome of the stop-scan remote call. Only a discovering
    /// session may stop; a failed stop leaves the session indeterminate.
    pub fn on_stop_outcome(&mut self, call_ok: bool)
        requires
            old(self).state == SessionState::Discovering,
        ensures
            final(self).state == spec_after_stop(old(self).state, call_ok),
    {
        if call_ok {
            self.state = SessionState::Idle;
        } else {
            self.state = SessionState::Indeterminate;
        }
    }
}

/// A successful start followed at once by a successful stop walks the
/// session idle → discovering → idle; the wait between the two calls plays
/// no part in the state machine's correctness.
pub proof fn lemma_start_stop_without_wait()
    ensures
        spec_after_start(SessionState::Idle, true) == SessionState::Discovering,
        spec_after_stop(spec_after_start(SessionState::Idle, true), true) == SessionState::Idle,
{
}

} // verus!
