//! Catch operating-system interrupt signals and record them as bits of a
//! process-wide flag word, without spawning helper threads.
//!
//! A watcher registers interest in a set of signal identifiers and receives a
//! [`unix::SignalBool`] (or [`windows::SignalBool`]) handle. The interrupt
//! handler's only job is to set one bit of the shared word; the handle later
//! observes (`caught`) and clears (`reset`) exactly the bits it was built
//! with. Repeated deliveries of one signal coalesce into a single bit.

use vstd::prelude::*;

pub mod unix;
pub mod windows;

verus! {

/// Controls whether a blocking system call interrupted by a caught signal is
/// restarted by the operating system or returns early.
#[derive(Clone, Copy, PartialEq, Eq, Structural, Debug)]
pub enum Flag {
    /// Blocking syscalls are interrupted and return early.
    Interrupt,
    /// Blocking syscalls are restarted once the handler has run.
    Restart,
}

/// Why a registration request was refused.
#[derive(Clone, Copy, PartialEq, Eq, Structural, Debug)]
pub enum Error {
    /// A requested identifier's bit position does not fit the shared word.
    UnsupportedSignal,
    /// The platform cannot represent the requested combination of identifiers.
    InvalidSignalSet,
    /// The operating system refused to install a handler; carries the native
    /// error code.
    OsInstallFailure(i32),
}

} // verus!
