use catp::engine::{Selection, Sink, Step, TraceState};
use catp::platform::UserRegs;
use catp::tracer::capture_write;
use nix::sys::signal::Signal;
use nix::unistd::getpid;

/// One stop of a scripted target, whose memory is this process's own.
enum Stop {
    Signal { signal: Signal, options_applied: bool },
    Syscall { regs: UserRegs },
    Exited,
}

/// What a run left behind.
struct Mirrored {
    primary: Vec<u8>,
    secondary: Vec<u8>,
    state: TraceState,
    resumed: usize,
}

fn write_call(descriptor: u64, bytes: &[u8]) -> UserRegs {
    UserRegs { orig_rax: 1, rdi: descriptor, rsi: bytes.as_ptr() as u64, rdx: bytes.len() as u64 }
}

fn other_call(number: u64, descriptor: u64, bytes: &[u8]) -> UserRegs {
    UserRegs {
        orig_rax: number,
        rdi: descriptor,
        rsi: bytes.as_ptr() as u64,
        rdx: bytes.len() as u64,
    }
}

fn attach_stop() -> Stop {
    Stop::Signal { signal: Signal::SIGSTOP, options_applied: true }
}

/// The entry and the exit of one call.
fn call(regs: UserRegs) -> [Stop; 2] {
    [Stop::Syscall { regs }, Stop::Syscall { regs }]
}

/// Runs the engine over the script, as the loop does over a live target:
/// inspect at an entry, route the capture, resume.
fn mirror(selection: Selection, script: Vec<Stop>) -> Mirrored {
    let me = getpid().as_raw();
    let mut run = Mirrored {
        primary: Vec::new(),
        secondary: Vec::new(),
        state: TraceState::start(),
        resumed: 0,
    };
    for stop in script {
        let step = match stop {
            Stop::Signal { signal, options_applied } => {
                Step::at_signal(run.state, me, signal, options_applied)
            }
            Stop::Syscall { regs } => {
                let capture = if run.state.is_terminated() || run.state.is_inside_syscall() {
                    None
                } else {
                    capture_write(&selection, me, &regs).unwrap()
                };
                Step::at_syscall(run.state, me, capture)
            }
            Stop::Exited => Step::finish(),
        };
        if let Some(capture) = step.output {
            match capture.call.sink {
                Sink::Primary => run.primary.extend_from_slice(&capture.bytes),
                Sink::Secondary => run.secondary.extend_from_slice(&capture.bytes),
            }
        }
        run.state = step.state;
        match step.resume {
            Some(_) => run.resumed += 1,
            None => break,
        }
    }
    run
}

#[test]
fn hello_world_reaches_the_primary_sink_only() {
    let message = b"Hello, world!\n".to_vec();
    let mut script = vec![attach_stop()];
    script.extend(call(write_call(1, &message)));
    script.push(Stop::Exited);
    let run = mirror(Selection::standard(), script);
    assert_eq!(run.primary, b"Hello, world!\n".to_vec());
    assert_eq!(run.secondary, Vec::<u8>::new());
    assert_eq!(run.state, TraceState::Terminated);
    assert_eq!(run.resumed, 3);
}

#[test]
fn write_to_an_unselected_descriptor_reaches_no_sink() {
    let message = b"into a file\n".to_vec();
    let mut script = vec![attach_stop()];
    script.extend(call(write_call(3, &message)));
    script.extend(call(write_call(0, &message)));
    script.push(Stop::Exited);
    let run = mirror(Selection::standard(), script);
    assert_eq!(run.primary, Vec::<u8>::new());
    assert_eq!(run.secondary, Vec::<u8>::new());
    assert_eq!(run.state, TraceState::Terminated);
}

#[test]
fn several_writes_are_concatenated_in_call_order() {
    let first = b"one ".to_vec();
    let second = b"two ".to_vec();
    let third = b"three\n".to_vec();
    let mut script = vec![attach_stop()];
    script.extend(call(write_call(1, &first)));
    script.extend(call(write_call(1, &second)));
    script.extend(call(write_call(1, &third)));
    script.push(Stop::Exited);
    let run = mirror(Selection::standard(), script);
    assert_eq!(run.primary, b"one two three\n".to_vec());
    assert_eq!(run.secondary, Vec::<u8>::new());
}

#[test]
fn each_descriptor_goes_to_its_own_sink() {
    let out = b"out".to_vec();
    let err = b"err".to_vec();
    let more = b"put".to_vec();
    let mut script = vec![attach_stop()];
    script.extend(call(write_call(1, &out)));
    script.extend(call(write_call(2, &err)));
    script.extend(call(write_call(1, &more)));
    script.push(Stop::Exited);
    let run = mirror(Selection::standard(), script);
    assert_eq!(run.primary, b"output".to_vec());
    assert_eq!(run.secondary, b"err".to_vec());
}

#[test]
fn default_selection_leaves_the_secondary_sink_empty() {
    let out = b"out".to_vec();
    let err = b"err".to_vec();
    let mut script = vec![attach_stop()];
    script.extend(call(write_call(1, &out)));
    script.extend(call(write_call(2, &err)));
    script.push(Stop::Exited);
    let run = mirror(Selection::default(), script);
    assert_eq!(run.primary, b"out".to_vec());
    assert_eq!(run.secondary, Vec::<u8>::new());
}

#[test]
fn calls_other_than_write_are_not_mirrored() {
    let message = b"not written".to_vec();
    let mut script = vec![attach_stop()];
    script.extend(call(other_call(0, 1, &message)));
    script.extend(call(other_call(20, 1, &message)));
    script.extend(call(other_call(44, 2, &message)));
    script.push(Stop::Exited);
    let run = mirror(Selection::standard(), script);
    assert_eq!(run.primary, Vec::<u8>::new());
    assert_eq!(run.secondary, Vec::<u8>::new());
    assert_eq!(run.state, TraceState::Terminated);
}

#[test]
fn first_stop_routes_nothing_and_resumes() {
    let run = mirror(Selection::standard(), vec![attach_stop()]);
    assert_eq!(run.primary, Vec::<u8>::new());
    assert_eq!(run.secondary, Vec::<u8>::new());
    assert_eq!(run.state, TraceState::InSyscallEntry);
    assert_eq!(run.resumed, 1);
}

#[test]
fn exit_without_any_write_ends_the_run() {
    let run = mirror(Selection::standard(), vec![attach_stop(), Stop::Exited]);
    assert_eq!(run.primary, Vec::<u8>::new());
    assert_eq!(run.secondary, Vec::<u8>::new());
    assert_eq!(run.state, TraceState::Terminated);
    assert_eq!(run.resumed, 1);
}

#[test]
fn exit_before_the_first_stop_ends_the_run() {
    let run = mirror(Selection::standard(), vec![Stop::Exited]);
    assert_eq!(run.state, TraceState::Terminated);
    assert_eq!(run.resumed, 0);
}

#[test]
fn exit_inside_a_call_ends_the_run() {
    let message = b"last words".to_vec();
    let script = vec![
        attach_stop(),
        Stop::Syscall { regs: write_call(1, &message) },
        Stop::Exited,
    ];
    let run = mirror(Selection::standard(), script);
    assert_eq!(run.primary, b"last words".to_vec());
    assert_eq!(run.state, TraceState::Terminated);
}

#[test]
fn signals_between_the_boundaries_keep_the_alignment() {
    let first = b"before ".to_vec();
    let second = b"after\n".to_vec();
    let interrupt = Stop::Signal { signal: Signal::SIGUSR1, options_applied: false };
    let script = vec![
        attach_stop(),
        Stop::Syscall { regs: write_call(1, &first) },
        interrupt,
        Stop::Syscall { regs: write_call(1, &first) },
        Stop::Signal { signal: Signal::SIGCHLD, options_applied: false },
        Stop::Syscall { regs: write_call(1, &second) },
        Stop::Syscall { regs: write_call(1, &second) },
        Stop::Exited,
    ];
    let run = mirror(Selection::standard(), script);
    assert_eq!(run.primary, b"before after\n".to_vec());
    assert_eq!(run.secondary, Vec::<u8>::new());
    assert_eq!(run.resumed, 7);
}

#[test]
fn exit_stop_is_not_read_even_if_the_buffer_changed() {
    let at_entry = b"entry".to_vec();
    let at_exit = b"exit!".to_vec();
    let script = vec![
        attach_stop(),
        Stop::Syscall { regs: write_call(2, &at_entry) },
        Stop::Syscall { regs: write_call(2, &at_exit) },
        Stop::Exited,
    ];
    let run = mirror(Selection::standard(), script);
    assert_eq!(run.primary, Vec::<u8>::new());
    assert_eq!(run.secondary, b"entry".to_vec());
}

#[test]
fn empty_write_is_mirrored_as_no_bytes() {
    let nothing: Vec<u8> = Vec::new();
    let tail = b"tail".to_vec();
    let mut script = vec![attach_stop()];
    script.extend(call(write_call(1, &nothing)));
    script.extend(call(write_call(1, &tail)));
    script.push(Stop::Exited);
    let run = mirror(Selection::standard(), script);
    assert_eq!(run.primary, b"tail".to_vec());
}

#[test]
fn nothing_is_handled_after_the_end() {
    let message = b"too late".to_vec();
    let mut script = vec![attach_stop(), Stop::Exited];
    script.extend(call(write_call(1, &message)));
    let run = mirror(Selection::standard(), script);
    assert_eq!(run.primary, Vec::<u8>::new());
    assert_eq!(run.state, TraceState::Terminated);
    assert_eq!(run.resumed, 1);
}
