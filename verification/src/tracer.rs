//! The engine at work on a live target: attaching, inspecting a stopped task,
//! recovering the bytes of a write, and setting the task running again.
//!
//! The functions here call the debugging facility and cannot promise what it
//! answers. Each is paired with a function that takes the answer as an
//! argument and says exactly what follows from it.

use crate::engine::{
    captured, observe, output_view, select_write, selected_write, signal_step, syscall_step,
    Capture, Observation, Resume, Selection, Step, StopEvent, TraceState,
};
use crate::error::{attach_condition, attach_condition_of, CatpError, RemoteReadError};
use crate::platform::{PlatformRegs, SysWriteArgs, UserRegs};
use crate::sys::{
    ptrace_attach, ptrace_getregs, ptrace_setoptions, ptrace_syscall, vm_readv, TRACE_SYSGOOD,
};
use vstd::prelude::*;

verus! {

/// What an answer to the attach request means: control of the target, which
/// then awaits its first stop, or an `AttachFailure` that names the condition.
pub open spec fn attach_concluded(outcome: Result<(), i32>) -> Result<TraceState, CatpError> {
    match outcome {
        Ok(_) => Ok(TraceState::initial()),
        Err(errno) => Err(
            CatpError::AttachFailure { condition: attach_condition_of(errno), errno },
        ),
    }
}

/// Reads the answer to an attach request.
pub fn conclude_attach(outcome: Result<(), i32>) -> (attached: Result<TraceState, CatpError>)
    ensures
        attached == attach_concluded(outcome),
{
    match outcome {
        Ok(_) => Ok(TraceState::start()),
        Err(errno) => Err(CatpError::AttachFailure { condition: attach_condition(errno), errno }),
    }
}

/// Requests debugging control of the process `pid`.
///
/// On success the target is stopped and its first stop is pending. A rejected
/// request is an `AttachFailure` that carries the error number of the
/// rejection and names the condition which that number stands for; then there
/// is no state to run a loop on. Which of the two happens is for the
/// operating system to decide.
pub fn attach(pid: u32) -> (attached: Result<TraceState, CatpError>)
    ensures
        match attached {
            Ok(state) => state == TraceState::initial(),
            Err(error) => error matches CatpError::AttachFailure { condition, errno }
                && condition == attach_condition_of(errno),
        },
{
    conclude_attach(ptrace_attach(#[verifier::truncate] (pid as i32)))
}

/// What an answer to a register fetch means.
pub open spec fn registers_concluded(outcome: Result<UserRegs, i32>) -> Result<
    UserRegs,
    CatpError,
> {
    match outcome {
        Ok(regs) => Ok(regs),
        Err(errno) => Err(CatpError::RegisterReadFailure { errno }),
    }
}

/// Reads the answer to a register fetch.
pub fn conclude_registers(outcome: Result<UserRegs, i32>) -> (regs: Result<UserRegs, CatpError>)
    ensures
        regs == registers_concluded(outcome),
{
    match outcome {
        Ok(regs) => Ok(regs),
        Err(errno) => Err(CatpError::RegisterReadFailure { errno }),
    }
}

/// Fetches the registers of the stopped task `pid`.
pub fn read_registers(pid: i32) -> (regs: Result<UserRegs, CatpError>)
    ensures
        regs matches Err(error) ==> error is RegisterReadFailure,
{
    conclude_registers(ptrace_getregs(pid))
}

/// What an answer to a cross-process transfer into `buffer` means: the
/// buffer, if the transfer covered all of it. A transfer that fell short is an
/// error like a rejected one, never a truncated success.
pub open spec fn transfer_concluded(buffer: Vec<u8>, outcome: Result<usize, i32>) -> Result<
    Vec<u8>,
    CatpError,
> {
    match outcome {
        Ok(transferred) => if transferred == buffer@.len() {
            Ok(buffer)
        } else {
            Err(
                CatpError::RemoteReadFailure {
                    cause: RemoteReadError::Short {
                        transferred,
                        requested: buffer@.len() as usize,
                    },
                },
            )
        },
        Err(errno) => Err(
            CatpError::RemoteReadFailure { cause: RemoteReadError::Rejected { errno } },
        ),
    }
}

/// Reads the answer to a cross-process transfer into `buffer`.
pub fn conclude_transfer(buffer: Vec<u8>, outcome: Result<usize, i32>) -> (bytes: Result<
    Vec<u8>,
    CatpError,
>)
    ensures
        bytes == transfer_concluded(buffer, outcome),
{
    match outcome {
        Ok(transferred) => {
            let requested = buffer.len();
            if transferred == requested {
                Ok(buffer)
            } else {
                Err(
                    CatpError::RemoteReadFailure {
                        cause: RemoteReadError::Short { transferred, requested },
                    },
                )
            }
        },
        Err(errno) => Err(
            CatpError::RemoteReadFailure { cause: RemoteReadError::Rejected { errno } },
        ),
    }
}

/// Reads `len` bytes at `ptr` in the address space of the stopped task `pid`,
/// in a single transfer.
///
/// The result has exactly `len` bytes or is a `RemoteReadFailure`.
pub fn vm_read_data(pid: i32, ptr: usize, len: usize) -> (bytes: Result<Vec<u8>, CatpError>)
    ensures
        match bytes {
            Ok(data) => data@.len() == len,
            Err(error) => error is RemoteReadFailure,
        },
{
    let mut buffer = vec![0u8; len];
    let outcome = vm_readv(pid, ptr, &mut buffer);
    conclude_transfer(buffer, outcome)
}

/// Recovers the bytes that the stopped task `pid` holds at `ptr`.
pub fn read_data(pid: i32, ptr: usize, len: usize) -> (bytes: Result<Vec<u8>, CatpError>)
    ensures
        match bytes {
            Ok(data) => data@.len() == len,
            Err(error) => error is RemoteReadFailure,
        },
{
    vm_read_data(pid, ptr, len)
}

/// Applies the trace options to the stopped task `pid` and tells whether the
/// facility took them.
fn apply_trace_options(pid: i32) -> (applied: bool) {
    ptrace_setoptions(pid, TRACE_SYSGOOD).is_ok()
}

/// Recovers what `regs`, captured from the task `pid` at a syscall entry,
/// show of a mirrored write.
///
/// Registers that show no write to a selected descriptor give no capture, and
/// the task's memory is not read. Otherwise the capture is of that call, with
/// as many bytes as the call's length argument says, unless reading them
/// fails.
pub fn capture_write<R: PlatformRegs>(selection: &Selection, pid: i32, regs: &R) -> (capture:
    Result<Option<Capture>, CatpError>)
    ensures
        selected_write(*selection, regs) is None ==> capture == Ok::<Option<Capture>, CatpError>(
            None,
        ),
        match capture {
            Ok(found) => output_view(found) == captured(
                *selection,
                *regs,
                match found {
                    Some(capture) => capture.bytes@,
                    None => Seq::empty(),
                },
            ),
            Err(error) => error is RemoteReadFailure,
        },
        capture matches Ok(Some(found)) ==> found.bytes@.len() == regs.len(),
{
    match select_write(selection, regs) {
        Some(call) => {
            let bytes = read_data(pid, call.buffer.address, call.buffer.length)?;
            Ok(Some(Capture { call, bytes }))
        },
        None => Ok(None),
    }
}

/// Decides what to do about one stop, consulting the stopped task where the
/// decision needs it.
///
/// Whatever the facility answers, a step that is returned is the engine's
/// step at some observation with this event: at a stop by signal, with some
/// answer to applying the trace options; at a syscall-boundary stop, with
/// some registers and as many bytes at the buffer as the registers' length
/// argument says.
///
/// The task is inspected only at a syscall entry, and only then can the call
/// fail: with a `RegisterReadFailure` or a `RemoteReadFailure`. A terminal
/// event ends the run in every state, and a stop by signal always yields a
/// step that resumes the task. The trace options are applied only while the
/// first stop is awaited.
pub fn handle_stop(selection: &Selection, state: TraceState, event: StopEvent) -> (outcome: Result<
    Step,
    CatpError,
>)
    ensures
        !(event is SyscallStop) || state is Terminated || state.inside_syscall()
            ==> outcome is Ok,
        outcome matches Err(error) ==> error is RegisterReadFailure || error is RemoteReadFailure,
        outcome matches Ok(step) ==> exists|observation: Observation<UserRegs>|
            {
                &&& observation.event() == event
                &&& observation matches Observation::SyscallStop { regs, memory, .. }
                    ==> memory.len() == regs.len()
                &&& #[trigger] observe(*selection, state, observation) == step@
            },
        event matches StopEvent::SignalStop { pid, signal } ==> state is AwaitingFirstStop || (
        outcome matches Ok(step) && step@ == signal_step(state, pid, signal, false)),
        event matches StopEvent::SyscallStop { pid } ==> !(state is Terminated
            || state.inside_syscall()) || (outcome matches Ok(step) && step@ == syscall_step(
            state,
            pid,
            None,
        )),
{
    match event {
        StopEvent::Exited => {
            let step = Step::finish();
            proof {
                let seen = Observation::<UserRegs>::Exited;
                assert(seen.event() == event && observe(*selection, state, seen) == step@);
            }
            Ok(step)
        },
        StopEvent::NoChildren => {
            let step = Step::finish();
            proof {
                let seen = Observation::<UserRegs>::NoChildren;
                assert(seen.event() == event && observe(*selection, state, seen) == step@);
            }
            Ok(step)
        },
        StopEvent::SignalStop { pid, signal } => {
            let options_applied = if state.is_awaiting_first_stop() {
                apply_trace_options(pid)
            } else {
                false
            };
            let step = Step::at_signal(state, pid, signal, options_applied);
            proof {
                let seen = Observation::<UserRegs>::SignalStop { pid, signal, options_applied };
                assert(seen.event() == event && observe(*selection, state, seen) == step@);
            }
            Ok(step)
        },
        StopEvent::SyscallStop { pid } => {
            if state.is_terminated() || state.is_inside_syscall() {
                let step = Step::at_syscall(state, pid, None);
                proof {
                    let regs = UserRegs { orig_rax: 0, rdi: 0, rsi: 0, rdx: 0 };
                    let seen = Observation::SyscallStop { pid, regs, memory: Seq::<u8>::empty() };
                    assert(seen.event() == event && observe(*selection, state, seen) == step@);
                }
                Ok(step)
            } else {
                let regs = read_registers(pid)?;
                let capture = capture_write(selection, pid, &regs)?;
                let ghost memory = match output_view(capture) {
                    Some(found) => found.bytes,
                    None => Seq::new(regs.len() as nat, |i: int| 0u8),
                };
                let step = Step::at_syscall(state, pid, capture);
                proof {
                    let seen = Observation::SyscallStop { pid, regs, memory };
                    assert(seen.event() == event && observe(*selection, state, seen) == step@);
                }
                Ok(step)
            }
        },
    }
}

/// What an answer to a resume request means.
pub open spec fn resume_concluded(outcome: Result<(), i32>) -> Result<(), CatpError> {
    match outcome {
        Ok(_) => Ok(()),
        Err(errno) => Err(CatpError::ResumeFailure { errno }),
    }
}

/// Reads the answer to a resume request.
pub fn conclude_resume(outcome: Result<(), i32>) -> (resumed: Result<(), CatpError>)
    ensures
        resumed == resume_concluded(outcome),
{
    match outcome {
        Ok(_) => Ok(()),
        Err(errno) => Err(CatpError::ResumeFailure { errno }),
    }
}

/// Sets a stopped task running until its next syscall boundary, delivering
/// the signal that `order` names.
pub fn resume(order: Resume) -> (resumed: Result<(), CatpError>)
    ensures
        resumed matches Err(error) ==> error is ResumeFailure,
{
    conclude_resume(ptrace_syscall(order.pid, order.signal))
}

} // verus!
