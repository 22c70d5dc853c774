//! Mirrors, byte for byte, what a running process writes to a chosen set of
//! its output descriptors, by watching its system calls from outside.
//!
//! - [`platform`] reads a stopped task's registers as a call number and
//!   arguments.
//! - [`engine`] holds the decisions: the state machine over the stops that the
//!   debugging facility reports, the choice of the calls to mirror, and the
//!   sink that each descriptor is bound to.
//! - [`tracer`] applies the engine to a live target.
//! - [`laws`] states what holds of whole runs.
//! - [`sys`] holds the calls into the operating system, which are trusted.
//!
//! The caller owns the loop: it waits for the next stop, asks
//! [`tracer::handle_stop`] what to do, hands the captured bytes to the sink,
//! and resumes the task.

pub mod engine;
pub mod error;
pub mod laws;
pub mod platform;
pub mod sys;
pub mod tracer;

pub use engine::{Selection, Sink, Step, StopEvent, TraceState, WaitReport};
pub use error::CatpError;
pub use platform::{PlatformRegs, SysWriteArgs};

use vstd::prelude::*;

verus! {

/// What a run is asked to do.
#[derive(Clone, Copy, Debug, PartialEq, Eq)]
pub struct CatpArgs {
    /// PID of the process to print
    pub pid: u32,
    /// Print more verbose information to the diagnostic sink
    pub verbose: bool,
}

} // verus!
