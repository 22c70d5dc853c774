//! What holds of whole runs.
//!
//! A run is modelled as the sequence of stops that the debugging facility
//! reports, each with what the target presents at that stop. The engine's
//! steps are folded over the sequence, and the laws relate what is routed to
//! what the target wrote.

use crate::engine::{
    captured, finished, observe, selected_write, CaptureView, Observation, Resume, Selection, Sink,
    StepView, TraceState,
};
use crate::platform::{PlatformRegs, SysWriteArgs, SYS_WRITE};
use nix::sys::signal::Signal;
use vstd::prelude::*;

verus! {

/// Where a run stands: the engine's state, and the captures routed so far in
/// the order in which they were intercepted.
pub struct RunView {
    pub state: TraceState,
    pub outputs: Seq<CaptureView>,
}

/// `outputs` with the output of one more step.
pub open spec fn appended(outputs: Seq<CaptureView>, output: Option<CaptureView>) -> Seq<
    CaptureView,
> {
    match output {
        Some(capture) => outputs.push(capture),
        None => outputs,
    }
}

/// The run from `state` over `stream`, one step per observation.
pub open spec fn run<R: PlatformRegs>(
    selection: Selection,
    state: TraceState,
    stream: Seq<Observation<R>>,
) -> RunView
    decreases stream.len(),
{
    if stream.len() == 0 {
        RunView { state, outputs: Seq::empty() }
    } else {
        let before = run(selection, state, stream.drop_last());
        let step = observe(selection, before.state, stream.last());
        RunView { state: step.state, outputs: appended(before.outputs, step.output) }
    }
}

/// The bytes that `sink` has received once `outputs` were routed: the bytes of
/// its captures, one after the other.
pub open spec fn routed(outputs: Seq<CaptureView>, sink: Sink) -> Seq<u8>
    decreases outputs.len(),
{
    if outputs.len() == 0 {
        Seq::empty()
    } else if outputs.last().call.sink == sink {
        routed(outputs.drop_last(), sink) + outputs.last().bytes
    } else {
        routed(outputs.drop_last(), sink)
    }
}

/// Whether the target is inside a call after the stops of `stream`, if it was
/// `inside` one before: every syscall-boundary stop crosses a boundary.
pub open spec fn inside_after<R>(stream: Seq<Observation<R>>, inside: bool) -> bool
    decreases stream.len(),
{
    if stream.len() == 0 {
        inside
    } else if stream.last() is SyscallStop {
        !inside_after(stream.drop_last(), inside)
    } else {
        inside_after(stream.drop_last(), inside)
    }
}

/// The selected writes that the target entered during `stream`, each with its
/// bytes, in call order. A syscall-boundary stop is an entry exactly if the
/// target was outside a call before it.
pub open spec fn entry_captures<R: PlatformRegs>(
    selection: Selection,
    stream: Seq<Observation<R>>,
    inside: bool,
) -> Seq<CaptureView>
    decreases stream.len(),
{
    if stream.len() == 0 {
        Seq::empty()
    } else {
        let earlier = entry_captures(selection, stream.drop_last(), inside);
        match stream.last() {
            Observation::SyscallStop { pid, regs, memory } => if inside_after(
                stream.drop_last(),
                inside,
            ) {
                earlier
            } else {
                appended(earlier, captured(selection, regs, memory))
            },
            _ => earlier,
        }
    }
}

/// Whether no observation of `stream` ends the run.
pub open spec fn live<R>(stream: Seq<Observation<R>>) -> bool {
    forall|i: int| 0 <= i < stream.len() ==> !(#[trigger] stream[i]).is_terminal()
}

/// A run over a stream with one more observation is the run over the stream,
/// followed by the engine's step at that observation.
pub proof fn law_run_step_by_step<R: PlatformRegs>(
    selection: Selection,
    state: TraceState,
    stream: Seq<Observation<R>>,
    observation: Observation<R>,
)
    ensures
        run(selection, state, stream.push(observation)).state == observe(
            selection,
            run(selection, state, stream).state,
            observation,
        ).state,
        run(selection, state, stream.push(observation)).outputs == appended(
            run(selection, state, stream).outputs,
            observe(selection, run(selection, state, stream).state, observation).output,
        ),
{
    assert(stream.push(observation).drop_last() == stream);
    assert(stream.push(observation).last() == observation);
}

/// Termination: when the target exits, or no child is left, the run is over
/// and nothing more is routed, whatever the state was and whether or not any
/// write was mirrored before.
pub proof fn law_terminal_event_ends_run<R: PlatformRegs>(
    selection: Selection,
    state: TraceState,
    stream: Seq<Observation<R>>,
    last: Observation<R>,
)
    requires
        last.is_terminal(),
    ensures
        observe(selection, state, last) == finished(),
        run(selection, state, stream.push(last)).state == TraceState::Terminated,
        run(selection, state, stream.push(last)).outputs == run(selection, state, stream).outputs,
{
    law_run_step_by_step(selection, state, stream, last);
}

/// Suppressed first stop: the stop by signal that follows the attach routes
/// no output and always resumes the task. If the trace options are taken, the
/// stop is consumed, the signal is not delivered, and the next
/// syscall-boundary stop is read as an entry. If they are not, the signal is
/// delivered and the first stop stays awaited.
pub proof fn law_first_stop_suppressed<R: PlatformRegs>(
    selection: Selection,
    pid: i32,
    signal: Signal,
    options_applied: bool,
)
    ensures
        ({
            let step = observe(
                selection,
                TraceState::initial(),
                Observation::<R>::SignalStop { pid, signal, options_applied },
            );
            &&& step.output is None
            &&& options_applied ==> step.state == TraceState::InSyscallEntry && step.resume == Some(
                Resume { pid, signal: None },
            )
            &&& !options_applied ==> step.state == TraceState::initial() && step.resume == Some(
                Resume { pid, signal: Some(signal) },
            )
        }),
{
}

/// Signals pass through: at any stop by signal after the first stop was
/// consumed, the signal is delivered on resume, the state stays, and nothing
/// is routed.
pub proof fn law_signal_forwarded<R: PlatformRegs>(
    selection: Selection,
    state: TraceState,
    pid: i32,
    signal: Signal,
    options_applied: bool,
)
    requires
        state is InSyscallEntry || state is InSyscallExit,
    ensures
        observe(
            selection,
            state,
            Observation::<R>::SignalStop { pid, signal, options_applied },
        ) == (StepView {
            state,
            resume: Some(Resume { pid, signal: Some(signal) }),
            output: None,
        }),
{
}

/// Alignment: over a stream that no terminal observation interrupts, the
/// engine is inside a call exactly when the target is, and what it has routed
/// are exactly the selected writes that the target entered, each with the
/// bytes it held at the entry, in call order. Stops by signal, and the first
/// stop among them, change neither.
pub proof fn law_outputs_are_entry_captures<R: PlatformRegs>(
    selection: Selection,
    state: TraceState,
    stream: Seq<Observation<R>>,
)
    requires
        !(state is Terminated),
        live(stream),
    ensures
        !(run(selection, state, stream).state is Terminated),
        run(selection, state, stream).state.inside_syscall() == inside_after(
            stream,
            state.inside_syscall(),
        ),
        run(selection, state, stream).outputs == entry_captures(
            selection,
            stream,
            state.inside_syscall(),
        ),
    decreases stream.len(),
{
    if stream.len() > 0 {
        assert(live(stream.drop_last())) by {
            assert forall|i: int| 0 <= i < stream.drop_last().len() implies !(
            #[trigger] stream.drop_last()[i]).is_terminal() by {
                assert(stream.drop_last()[i] == stream[i]);
            }
        }
        law_outputs_are_entry_captures(selection, state, stream.drop_last());
        assert(!stream[stream.len() - 1].is_terminal());
    }
}

/// Filtering: whatever the stream, every capture that a run routes is a write
/// that some syscall-boundary stop of the stream showed, to a descriptor of
/// the selection, bound for the sink of that descriptor, with the bytes that
/// lay at its buffer at that stop. Calls other than the write call, and writes
/// to other descriptors, reach no sink.
pub proof fn law_only_selected_writes_are_routed<R: PlatformRegs>(
    selection: Selection,
    state: TraceState,
    stream: Seq<Observation<R>>,
    i: int,
)
    requires
        0 <= i < run(selection, state, stream).outputs.len(),
    ensures
        ({
            let capture = run(selection, state, stream).outputs[i];
            &&& selection.sink_of(capture.call.descriptor) == Some(capture.call.sink)
            &&& exists|j: int|
                0 <= j < stream.len() && (#[trigger] stream[j] matches Observation::SyscallStop {
                    regs,
                    memory,
                    ..
                } && regs.sysno() == SYS_WRITE && regs.fd() == capture.call.descriptor
                    && selected_write(selection, &regs) == Some(capture.call) && memory
                    == capture.bytes)
        }),
    decreases stream.len(),
{
    let before = run(selection, state, stream.drop_last());
    let step = observe(selection, before.state, stream.last());
    if i < before.outputs.len() {
        law_only_selected_writes_are_routed(selection, state, stream.drop_last(), i);
        let capture = before.outputs[i];
        let j = choose|j: int|
            0 <= j < stream.drop_last().len() && (
            #[trigger] stream.drop_last()[j] matches Observation::SyscallStop { regs, memory, .. }
                && regs.sysno() == SYS_WRITE && regs.fd() == capture.call.descriptor
                && selected_write(selection, &regs) == Some(capture.call) && memory
                == capture.bytes);
        assert(stream[j] == stream.drop_last()[j]);
    } else {
        assert(stream[stream.len() - 1] == stream.last());
    }
}

/// Filtering, seen from the target: if no call that the stream shows is a
/// write to a descriptor of the selection, no sink receives anything, in
/// whatever state the run began.
pub proof fn law_unselected_calls_reach_no_sink<R: PlatformRegs>(
    selection: Selection,
    state: TraceState,
    stream: Seq<Observation<R>>,
)
    requires
        forall|j: int|
            0 <= j < stream.len() ==> (#[trigger] stream[j] matches Observation::SyscallStop {
                regs,
                ..
            } ==> regs.sysno() != SYS_WRITE || !selection.selects(regs.fd())),
    ensures
        run(selection, state, stream).outputs.len() == 0,
{
    if run(selection, state, stream).outputs.len() > 0 {
        law_only_selected_writes_are_routed(selection, state, stream, 0);
    }
}

/// One system call of the target, as the facility shows it: the registers and
/// the bytes at the buffer argument when the call is entered, and again when
/// it is left.
pub struct Call<R> {
    pub regs: R,
    pub buffer: Seq<u8>,
    pub regs_at_exit: R,
    pub buffer_at_exit: Seq<u8>,
}

/// The stops of an undisturbed target `pid`: the stop by `signal` that
/// attaching causes, at which the trace options are taken, and then for each
/// call its entry and its exit.
pub open spec fn stops_of<R>(pid: i32, signal: Signal, calls: Seq<Call<R>>) -> Seq<Observation<R>>
    decreases calls.len(),
{
    if calls.len() == 0 {
        seq![Observation::SignalStop { pid, signal, options_applied: true }]
    } else {
        stops_of(pid, signal, calls.drop_last()).push(
            Observation::SyscallStop {
                pid,
                regs: calls.last().regs,
                memory: calls.last().buffer,
            },
        ).push(
            Observation::SyscallStop {
                pid,
                regs: calls.last().regs_at_exit,
                memory: calls.last().buffer_at_exit,
            },
        )
    }
}

/// The bytes that the calls write to the descriptor bound to `sink`: the
/// buffers of the write calls to it, in call order.
pub open spec fn bytes_written<R: PlatformRegs>(
    selection: Selection,
    calls: Seq<Call<R>>,
    sink: Sink,
) -> Seq<u8>
    decreases calls.len(),
{
    if calls.len() == 0 {
        Seq::empty()
    } else if calls.last().regs.sysno() == SYS_WRITE && selection.sink_of(calls.last().regs.fd())
        == Some(sink) {
        bytes_written(selection, calls.drop_last(), sink) + calls.last().buffer
    } else {
        bytes_written(selection, calls.drop_last(), sink)
    }
}

/// Fidelity: for a target that makes the calls `calls` and then exits, each
/// sink receives exactly the bytes that the target wrote to the descriptor
/// bound to it, in call order, and the run ends without a stop left to
/// handle. What the target shows when a call is left does not matter.
pub proof fn law_fidelity<R: PlatformRegs>(
    selection: Selection,
    pid: i32,
    signal: Signal,
    calls: Seq<Call<R>>,
    sink: Sink,
)
    ensures
        run(selection, TraceState::initial(), stops_of(pid, signal, calls)).state
            == TraceState::InSyscallEntry,
        routed(run(selection, TraceState::initial(), stops_of(pid, signal, calls)).outputs, sink)
            == bytes_written(selection, calls, sink),
        run(
            selection,
            TraceState::initial(),
            stops_of(pid, signal, calls).push(Observation::Exited),
        ).state == TraceState::Terminated,
        routed(
            run(
                selection,
                TraceState::initial(),
                stops_of(pid, signal, calls).push(Observation::Exited),
            ).outputs,
            sink,
        ) == bytes_written(selection, calls, sink),
    decreases calls.len(),
{
    let start = TraceState::initial();
    if calls.len() == 0 {
        let first = Observation::<R>::SignalStop { pid, signal, options_applied: true };
        law_run_step_by_step(selection, start, Seq::empty(), first);
        assert(Seq::<Observation<R>>::empty().push(first) == stops_of(pid, signal, calls));
    } else {
        let earlier = stops_of(pid, signal, calls.drop_last());
        let entry = Observation::SyscallStop {
            pid,
            regs: calls.last().regs,
            memory: calls.last().buffer,
        };
        let exit = Observation::SyscallStop {
            pid,
            regs: calls.last().regs_at_exit,
            memory: calls.last().buffer_at_exit,
        };
        law_fidelity(selection, pid, signal, calls.drop_last(), sink);
        law_run_step_by_step(selection, start, earlier, entry);
        law_run_step_by_step(selection, start, earlier.push(entry), exit);
        let before = run(selection, start, earlier).outputs;
        let after = run(selection, start, stops_of(pid, signal, calls)).outputs;
        match captured(selection, calls.last().regs, calls.last().buffer) {
            Some(capture) => {
                assert(after == before.push(capture));
                assert(after.drop_last() == before);
            },
            None => {
                assert(after == before);
            },
        }
    }
    law_terminal_event_ends_run(
        selection,
        start,
        stops_of(pid, signal, calls),
        Observation::Exited,
    );
}

} // verus!
