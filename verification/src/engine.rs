//! The trace loop's decisions: what a stop means in the current state, which
//! intercepted calls are mirrored, and where their bytes go.
//!
//! Nothing here touches the target. Each function maps plain values to plain
//! values, so that the caller's loop only waits, performs what a [`Step`]
//! asks for, and comes back with the next stop.

use crate::error::{CatpError, ECHILD};
use crate::platform::{PlatformRegs, SysWriteArgs, STDERR_FILENO, STDOUT_FILENO, SYS_WRITE};
use nix::sys::signal::Signal;
use vstd::prelude::*;

verus! {

/// The role of a local destination.
#[derive(Clone, Copy, Debug, PartialEq, Eq)]
pub enum Sink {
    Primary,
    Secondary,
}

/// The descriptors of the target that are mirrored, each bound to the sink
/// that receives its bytes.
#[derive(Clone, Copy, Debug, PartialEq, Eq)]
pub struct Selection {
    /// The descriptor mirrored to the primary sink.
    pub primary: i32,
    /// The descriptor mirrored to the secondary sink, if one is.
    pub secondary: Option<i32>,
}

impl Selection {
    /// The sink bound to `descriptor`. A descriptor bound twice goes to the
    /// primary sink.
    pub open spec fn sink_of(self, descriptor: i32) -> Option<Sink> {
        if descriptor == self.primary {
            Some(Sink::Primary)
        } else if self.secondary == Some(descriptor) {
            Some(Sink::Secondary)
        } else {
            None
        }
    }

    /// Whether writes to `descriptor` are mirrored at all.
    pub open spec fn selects(self, descriptor: i32) -> bool {
        self.sink_of(descriptor) is Some
    }

    /// Standard output to the primary sink, standard error to the secondary.
    pub fn standard() -> (selection: Selection)
        ensures
            selection.primary == STDOUT_FILENO,
            selection.secondary == Some(STDERR_FILENO),
    {
        Selection { primary: STDOUT_FILENO, secondary: Some(STDERR_FILENO) }
    }

    /// One descriptor only, mirrored to the primary sink.
    pub fn single(descriptor: i32) -> (selection: Selection)
        ensures
            selection.primary == descriptor,
            selection.secondary.is_none(),
    {
        Selection { primary: descriptor, secondary: None }
    }

    /// Looks up the sink bound to `descriptor`.
    pub fn sink_for(&self, descriptor: i32) -> (sink: Option<Sink>)
        ensures
            sink == self.sink_of(descriptor),
    {
        if descriptor == self.primary {
            Some(Sink::Primary)
        } else {
            match self.secondary {
                Some(other) => {
                    if other == descriptor {
                        Some(Sink::Secondary)
                    } else {
                        None
                    }
                },
                None => None,
            }
        }
    }
}

impl Default for Selection {
    /// The target's primary output descriptor alone.
    fn default() -> (selection: Selection)
        ensures
            selection.primary == STDOUT_FILENO,
            selection.secondary.is_none(),
    {
        Selection { primary: STDOUT_FILENO, secondary: None }
    }
}

/// Where bytes owned by the target live. The description holds only while the
/// target stays stopped at the boundary at which it was decoded.
#[derive(Clone, Copy, Debug, PartialEq, Eq)]
pub struct RemoteBuffer {
    pub address: usize,
    pub length: usize,
}

/// An intercepted write to a selected descriptor.
#[derive(Clone, Copy, Debug, PartialEq, Eq)]
pub struct WriteCall {
    /// The sink bound to the descriptor.
    pub sink: Sink,
    /// The descriptor the target writes to.
    pub descriptor: i32,
    /// The bytes the target hands to the call.
    pub buffer: RemoteBuffer,
}

/// The write that `regs` shows and `selection` mirrors, if there is one: the
/// call number is that of the write call and its descriptor argument is bound
/// to a sink.
pub open spec fn selected_write<R: PlatformRegs>(selection: Selection, regs: &R) -> Option<
    WriteCall,
> {
    if regs.sysno() == SYS_WRITE && selection.selects(regs.fd()) {
        Some(
            WriteCall {
                sink: selection.sink_of(regs.fd())->0,
                descriptor: regs.fd(),
                buffer: RemoteBuffer { address: regs.ptr(), length: regs.len() },
            },
        )
    } else {
        None
    }
}

/// Decodes the registers captured at a syscall entry and decides whether the
/// call is mirrored.
pub fn select_write<R: PlatformRegs>(selection: &Selection, regs: &R) -> (call: Option<WriteCall>)
    ensures
        call == selected_write(*selection, regs),
{
    if regs.get_sysno() != SYS_WRITE {
        return None;
    }
    let descriptor = regs.get_fd();
    match selection.sink_for(descriptor) {
        Some(sink) => Some(
            WriteCall {
                sink,
                descriptor,
                buffer: RemoteBuffer { address: regs.get_ptr(), length: regs.get_len() },
            },
        ),
        None => None,
    }
}

/// Where the engine stands with the target.
#[derive(Clone, Copy, Debug, PartialEq, Eq)]
pub enum TraceState {
    /// Attached; the stop that attaching itself causes has not been consumed.
    /// A syscall-boundary stop that arrives this early is still counted, which
    /// `in_syscall` records.
    AwaitingFirstStop { in_syscall: bool },
    /// Outside a call: the next syscall-boundary stop is an entry.
    InSyscallEntry,
    /// Inside a call: the next syscall-boundary stop is the matching exit.
    InSyscallExit,
    /// The target is gone; the run is over.
    Terminated,
}

impl TraceState {
    /// The state right after a successful attach.
    pub open spec fn initial() -> TraceState {
        TraceState::AwaitingFirstStop { in_syscall: false }
    }

    /// Whether the task is between the entry and the exit of a call.
    pub open spec fn inside_syscall(self) -> bool {
        match self {
            TraceState::AwaitingFirstStop { in_syscall } => in_syscall,
            TraceState::InSyscallEntry => false,
            TraceState::InSyscallExit => true,
            TraceState::Terminated => false,
        }
    }

    /// The state after one syscall-boundary stop: entry and exit change places.
    pub open spec fn crossed(self) -> TraceState {
        match self {
            TraceState::AwaitingFirstStop { in_syscall } => TraceState::AwaitingFirstStop {
                in_syscall: !in_syscall,
            },
            TraceState::InSyscallEntry => TraceState::InSyscallExit,
            TraceState::InSyscallExit => TraceState::InSyscallEntry,
            TraceState::Terminated => TraceState::Terminated,
        }
    }

    /// The state after the first stop has been consumed.
    pub open spec fn released(self) -> TraceState {
        match self {
            TraceState::AwaitingFirstStop { in_syscall } => if in_syscall {
                TraceState::InSyscallExit
            } else {
                TraceState::InSyscallEntry
            },
            _ => self,
        }
    }

    /// The state to begin a run in, once attached.
    pub fn start() -> (state: TraceState)
        ensures
            state == TraceState::initial(),
    {
        TraceState::AwaitingFirstStop { in_syscall: false }
    }

    /// Whether the stop that attaching causes is still to come.
    pub fn is_awaiting_first_stop(&self) -> (awaiting: bool)
        ensures
            awaiting == (*self is AwaitingFirstStop),
    {
        match self {
            TraceState::AwaitingFirstStop { .. } => true,
            _ => false,
        }
    }

    /// Whether the next syscall-boundary stop is an exit.
    pub fn is_inside_syscall(&self) -> (inside: bool)
        ensures
            inside == self.inside_syscall(),
    {
        match self {
            TraceState::AwaitingFirstStop { in_syscall } => *in_syscall,
            TraceState::InSyscallExit => true,
            _ => false,
        }
    }

    /// Whether the run is over.
    pub fn is_terminated(&self) -> (terminated: bool)
        ensures
            terminated == (*self is Terminated),
    {
        match self {
            TraceState::Terminated => true,
            _ => false,
        }
    }
}

/// What the wait primitive returned, variant for variant.
#[derive(Clone, Copy, Debug, PartialEq, Eq)]
pub enum WaitReport {
    Exited { pid: i32, code: i32 },
    Signaled { pid: i32, signal: Signal, core_dumped: bool },
    Stopped { pid: i32, signal: Signal },
    PtraceEvent { pid: i32, signal: Signal, event: i32 },
    PtraceSyscall { pid: i32 },
    Continued { pid: i32 },
    StillAlive,
    /// Waiting failed with this error number.
    Failed { errno: i32 },
}

/// One notification from the debugging facility, as the engine reads it.
#[derive(Clone, Copy, Debug, PartialEq, Eq)]
pub enum StopEvent {
    /// The task `pid` reached the entry or the exit of a system call.
    SyscallStop { pid: i32 },
    /// The task `pid` was stopped by `signal`.
    SignalStop { pid: i32, signal: Signal },
    /// The target exited or was terminated.
    Exited,
    /// No child is left to wait for.
    NoChildren,
}

impl StopEvent {
    /// Whether the event ends the run.
    pub open spec fn is_terminal(self) -> bool {
        self is Exited || self is NoChildren
    }
}

/// How a report of the wait primitive is read. A syscall-boundary stop and a
/// stop by signal are the two events the loop goes on after. Having no child
/// left is the expected end, and so is every other status; only another error
/// number is a failure.
pub open spec fn classified(report: WaitReport) -> Result<StopEvent, CatpError> {
    match report {
        WaitReport::PtraceSyscall { pid } => Ok(StopEvent::SyscallStop { pid }),
        WaitReport::Stopped { pid, signal } => Ok(StopEvent::SignalStop { pid, signal }),
        WaitReport::Failed { errno } => if errno == ECHILD {
            Ok(StopEvent::NoChildren)
        } else {
            Err(CatpError::WaitFailure { errno })
        },
        _ => Ok(StopEvent::Exited),
    }
}

/// Reads a report of the wait primitive as an event, or as the failure of the
/// run.
pub fn classify(report: WaitReport) -> (event: Result<StopEvent, CatpError>)
    ensures
        event == classified(report),
{
    match report {
        WaitReport::PtraceSyscall { pid } => Ok(StopEvent::SyscallStop { pid }),
        WaitReport::Stopped { pid, signal } => Ok(StopEvent::SignalStop { pid, signal }),
        WaitReport::Failed { errno } => {
            if errno == ECHILD {
                Ok(StopEvent::NoChildren)
            } else {
                Err(CatpError::WaitFailure { errno })
            }
        },
        _ => Ok(StopEvent::Exited),
    }
}

/// How a stopped task is set running again: until its next syscall boundary,
/// delivering `signal` if there is one.
#[derive(Clone, Copy, Debug, PartialEq, Eq)]
pub struct Resume {
    pub pid: i32,
    pub signal: Option<Signal>,
}

/// The bytes of one mirrored write, to be handed to the sink of `call`.
#[derive(Debug, PartialEq, Eq)]
pub struct Capture {
    pub call: WriteCall,
    pub bytes: Vec<u8>,
}

/// A capture, with its bytes as a sequence.
pub struct CaptureView {
    pub call: WriteCall,
    pub bytes: Seq<u8>,
}

impl View for Capture {
    type V = CaptureView;

    open spec fn view(&self) -> CaptureView {
        CaptureView { call: self.call, bytes: self.bytes@ }
    }
}

/// What the engine decided at one stop. The caller first hands `output` to its
/// sink, then resumes the task as `resume` says; without a `resume` the run is
/// over.
#[derive(Debug, PartialEq, Eq)]
pub struct Step {
    pub state: TraceState,
    pub resume: Option<Resume>,
    pub output: Option<Capture>,
}

/// A step, with the bytes of its output as a sequence.
pub struct StepView {
    pub state: TraceState,
    pub resume: Option<Resume>,
    pub output: Option<CaptureView>,
}

/// The view of a capture that may be absent.
pub open spec fn output_view(output: Option<Capture>) -> Option<CaptureView> {
    match output {
        Some(capture) => Some(capture@),
        None => None,
    }
}

impl View for Step {
    type V = StepView;

    open spec fn view(&self) -> StepView {
        StepView { state: self.state, resume: self.resume, output: output_view(self.output) }
    }
}

/// The step that ends the run: nothing is resumed and nothing is routed.
pub open spec fn finished() -> StepView {
    StepView { state: TraceState::Terminated, resume: None, output: None }
}

/// The step taken at a stop by signal.
///
/// While the first stop is awaited, the trace options are applied to the
/// stopped task, and `options_applied` tells whether that succeeded. If it
/// did, this was the stop that attaching causes: it is consumed and the task
/// resumes with no signal. In every other case the signal is delivered on
/// resume and the state stays as it is. No stop by signal routes any output.
/// Once the run is over, a stop changes nothing and nothing is resumed.
pub open spec fn signal_step(state: TraceState, pid: i32, signal: Signal, options_applied: bool)
    -> StepView {
    if state is Terminated {
        finished()
    } else if state is AwaitingFirstStop && options_applied {
        StepView {
            state: state.released(),
            resume: Some(Resume { pid, signal: None }),
            output: None,
        }
    } else {
        StepView { state, resume: Some(Resume { pid, signal: Some(signal) }), output: None }
    }
}

/// The step taken at a syscall-boundary stop, where `capture` is what was
/// recovered from the task at that stop.
///
/// At an entry the capture is routed; at an exit nothing is, whatever the task
/// shows. Either way entry and exit change places and the task resumes with
/// no signal. Once the run is over, a stop changes nothing and nothing is
/// resumed.
pub open spec fn syscall_step(state: TraceState, pid: i32, capture: Option<CaptureView>)
    -> StepView {
    if state is Terminated {
        finished()
    } else {
        StepView {
            state: state.crossed(),
            resume: Some(Resume { pid, signal: None }),
            output: if state.inside_syscall() {
                None
            } else {
                capture
            },
        }
    }
}

/// One stop, with what the target presents at it.
pub enum Observation<R> {
    /// The task `pid` is at a syscall boundary with the registers `regs`, and
    /// `memory` are the bytes that lie where the buffer argument points.
    SyscallStop { pid: i32, regs: R, memory: Seq<u8> },
    /// The task `pid` was stopped by `signal`. Should the trace options be
    /// applied at this stop, `options_applied` tells whether they are taken.
    SignalStop { pid: i32, signal: Signal, options_applied: bool },
    /// The target exited or was terminated.
    Exited,
    /// No child is left to wait for.
    NoChildren,
}

impl<R> Observation<R> {
    /// The event that the facility reports at this stop.
    pub open spec fn event(self) -> StopEvent {
        match self {
            Observation::SyscallStop { pid, .. } => StopEvent::SyscallStop { pid },
            Observation::SignalStop { pid, signal, .. } => StopEvent::SignalStop { pid, signal },
            Observation::Exited => StopEvent::Exited,
            Observation::NoChildren => StopEvent::NoChildren,
        }
    }

    /// Whether the observation ends the run.
    pub open spec fn is_terminal(self) -> bool {
        self.event().is_terminal()
    }
}

/// What inspecting a task recovers: the selected write that its registers
/// show, with the bytes at its buffer.
pub open spec fn captured<R: PlatformRegs>(selection: Selection, regs: R, memory: Seq<u8>)
    -> Option<CaptureView> {
    match selected_write(selection, &regs) {
        Some(call) => Some(CaptureView { call, bytes: memory }),
        None => None,
    }
}

/// The engine's step at one observation.
pub open spec fn observe<R: PlatformRegs>(
    selection: Selection,
    state: TraceState,
    observation: Observation<R>,
) -> StepView {
    match observation {
        Observation::SyscallStop { pid, regs, memory } => syscall_step(
            state,
            pid,
            captured(selection, regs, memory),
        ),
        Observation::SignalStop { pid, signal, options_applied } => signal_step(
            state,
            pid,
            signal,
            options_applied,
        ),
        Observation::Exited => finished(),
        Observation::NoChildren => finished(),
    }
}

impl Step {
    /// Ends the run.
    pub fn finish() -> (step: Step)
        ensures
            step@ == finished(),
    {
        Step { state: TraceState::Terminated, resume: None, output: None }
    }

    /// Takes the step that a stop by signal calls for.
    pub fn at_signal(state: TraceState, pid: i32, signal: Signal, options_applied: bool) -> (step:
        Step)
        ensures
            step@ == signal_step(state, pid, signal, options_applied),
    {
        match state {
            TraceState::Terminated => Step::finish(),
            TraceState::AwaitingFirstStop { in_syscall } => {
                if options_applied {
                    let next = if in_syscall {
                        TraceState::InSyscallExit
                    } else {
                        TraceState::InSyscallEntry
                    };
                    Step { state: next, resume: Some(Resume { pid, signal: None }), output: None }
                } else {
                    Step { state, resume: Some(Resume { pid, signal: Some(signal) }), output: None }
                }
            },
            _ => Step { state, resume: Some(Resume { pid, signal: Some(signal) }), output: None },
        }
    }

    /// Takes the step that a syscall-boundary stop calls for.
    pub fn at_syscall(state: TraceState, pid: i32, capture: Option<Capture>) -> (step: Step)
        ensures
            step@ == syscall_step(state, pid, output_view(capture)),
    {
        let resume = Some(Resume { pid, signal: None });
        match state {
            TraceState::Terminated => Step::finish(),
            TraceState::AwaitingFirstStop { in_syscall } => {
                let next = TraceState::AwaitingFirstStop { in_syscall: !in_syscall };
                if in_syscall {
                    Step { state: next, resume, output: None }
                } else {
                    Step { state: next, resume, output: capture }
                }
            },
            TraceState::InSyscallEntry => Step {
                state: TraceState::InSyscallExit,
                resume,
                output: capture,
            },
            TraceState::InSyscallExit => Step {
                state: TraceState::InSyscallEntry,
                resume,
                output: None,
            },
        }
    }
}

} // verus!
