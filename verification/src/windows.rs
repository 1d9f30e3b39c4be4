//! Console-event backend: exactly one watchable interrupt condition exists,
//! and the process-wide state is a single boolean flag.
//!
//! The platform accepts a single global callback, so the design cannot
//! multiplex watchers at the handler level the way the bitmask does on the
//! POSIX family: `register` rejects every request other than the one
//! supported identifier alone.

use vstd::prelude::*;

verus! {

use crate::Error;
use crate::Flag;

/// The single watchable interrupt condition on the console-event platform.
#[derive(Clone, Copy, PartialEq, Eq, Structural, Debug)]
pub enum Signal {
    SIGINT,
}

/// The process-wide signal state: one flag recording that the interrupt
/// event occurred, and whether the global callback is installed.
///
/// In a running process the flag lives in a single static atomic boolean;
/// here it is an explicit value, so every transition the handler and the
/// handles may perform is stated exactly.
pub struct SignalState {
    flag: bool,
    installed: bool,
}

impl SignalState {
    /// Whether the interrupt event is pending.
    pub closed spec fn pending(self) -> bool {
        self.flag
    }

    /// Whether the global callback is installed.
    pub closed spec fn handler_installed(self) -> bool {
        self.installed
    }

    /// The state at process start: nothing pending, nothing installed.
    pub fn new() -> (s: SignalState)
        ensures
            !s.pending(),
            !s.handler_installed(),
    {
        SignalState { flag: false, installed: false }
    }

    /// Whether the interrupt event is pending, as executable code.
    pub fn pending_flag(&self) -> (b: bool)
        ensures
            b == self.pending(),
    {
        self.flag
    }

    /// Whether the global callback is installed, as executable code.
    pub fn handler_installed_flag(&self) -> (b: bool)
        ensures
            b == self.handler_installed(),
    {
        self.installed
    }
}

/// The interrupt-context procedure: records that the event occurred by
/// setting the flag, and reports the event as handled. A flag that is
/// already set stays set, so repeated deliveries coalesce.
pub fn os_handler(state: &mut SignalState) -> (handled: bool)
    ensures
        final(state).pending(),
        final(state).handler_installed() == old(state).handler_installed(),
        handled,
{
    state.flag = true;
    true
}

/// A watcher of the single interrupt condition. Copies share the same view.
#[derive(Clone, Copy, Debug)]
pub struct SignalBool {}

impl SignalBool {
    /// Register the interrupt condition to set the internal flag when
    /// received.
    ///
    /// Succeeds exactly when the request names the one supported identifier
    /// and nothing else; the global callback is then installed. Any other
    /// combination is rejected with [`Error::InvalidSignalSet`] before
    /// anything is installed. The pending flag is never touched.
    pub fn new(state: &mut SignalState, signals: &[Signal], _flag: Flag) -> (r: Result<
        SignalBool,
        Error,
    >)
        ensures
            r is Ok <==> (signals@.len() == 1 && signals@[0] == Signal::SIGINT),
            r is Ok ==> final(state).handler_installed() && final(state).pending() == old(
                state,
            ).pending(),
            r is Err ==> (r->Err_0) == Error::InvalidSignalSet && *final(state) == *old(state),
    {
        if signals.len() != 1 {
            return Err(Error::InvalidSignalSet);
        }
        let s = signals[0];
        if !(s == Signal::SIGINT) {
            return Err(Error::InvalidSignalSet);
        }
        state.installed = true;
        Ok(SignalBool {})
    }

    /// Check whether the interrupt condition has been caught. Read-only.
    pub fn caught(&self, state: &SignalState) -> (r: bool)
        ensures
            r == state.pending(),
    {
        state.pending_flag()
    }

    /// Reset the internal flag to false. The installed callback is untouched.
    pub fn reset(&self, state: &mut SignalState)
        ensures
            !final(state).pending(),
            final(state).handler_installed() == old(state).handler_installed(),
    {
        state.flag = false;
    }
}

} // verus!
