//! The calls into the operating system's debugging facility.
//!
//! Every item in this file is taken on trust: its contract is what the rest of
//! the library knows of the call it makes. None promises that a call
//! succeeds, since that depends on the target and on the caller's privilege.

use crate::platform::UserRegs;
use nix::sys::ptrace;
use nix::sys::signal::Signal;
use nix::sys::uio::{process_vm_readv, RemoteIoVec};
use nix::unistd::Pid;
use std::io::IoSliceMut;
use vstd::prelude::*;

verus! {

/// `nix::sys::signal::Signal`, an operating system signal. The library never
/// looks inside one: it hands on the signal that a stop was reported with.
#[verifier::external_type_specification]
#[verifier::external_body]
pub struct ExSignal(Signal);

/// The bits of `nix::sys::ptrace::Options::PTRACE_O_TRACESYSGOOD`, the option
/// under which the facility reports a syscall boundary as a stop of its own
/// kind.
pub const TRACE_SYSGOOD: i32 = 1;

/// Calls `nix::sys::ptrace::attach` on the process `pid`. On rejection the
/// result is the error number; nothing is claimed about which outcome occurs.
#[verifier::external_body]
pub(crate) fn ptrace_attach(pid: i32) -> (outcome: Result<(), i32>) {
    match ptrace::attach(Pid::from_raw(pid)) {
        Ok(()) => Ok(()),
        Err(errno) => Err(errno as i32),
    }
}

/// Calls `nix::sys::ptrace::setoptions` on the stopped task `pid` with the
/// option bits `options`. On rejection the result is the error number; nothing
/// is claimed about which outcome occurs.
#[verifier::external_body]
pub(crate) fn ptrace_setoptions(pid: i32, options: i32) -> (outcome: Result<(), i32>) {
    match ptrace::setoptions(Pid::from_raw(pid), ptrace::Options::from_bits_retain(options)) {
        Ok(()) => Ok(()),
        Err(errno) => Err(errno as i32),
    }
}

/// Calls `nix::sys::ptrace::getregs` on the stopped task `pid` and hands out
/// the four registers that carry a call's number and first three arguments.
/// On rejection the result is the error number; nothing is claimed about the
/// registers' values.
#[verifier::external_body]
pub(crate) fn ptrace_getregs(pid: i32) -> (outcome: Result<UserRegs, i32>) {
    match ptrace::getregs(Pid::from_raw(pid)) {
        Ok(regs) => Ok(
            UserRegs { orig_rax: regs.orig_rax, rdi: regs.rdi, rsi: regs.rsi, rdx: regs.rdx },
        ),
        Err(errno) => Err(errno as i32),
    }
}

/// Calls `nix::sys::ptrace::syscall` on the stopped task `pid`: the task runs
/// on to its next syscall boundary, and `signal` is delivered to it if there
/// is one. On rejection the result is the error number.
#[verifier::external_body]
pub(crate) fn ptrace_syscall(pid: i32, signal: Option<Signal>) -> (outcome: Result<(), i32>) {
    match ptrace::syscall(Pid::from_raw(pid), signal) {
        Ok(()) => Ok(()),
        Err(errno) => Err(errno as i32),
    }
}

/// Calls `nix::sys::uio::process_vm_readv` once, asking for as many bytes as
/// `buffer` holds, from `address` on in the address space of `pid`, into
/// `buffer`. The result is the number of bytes the call reports as
/// transferred, or the error number. The buffer keeps its length; nothing is
/// claimed about its bytes or about the number.
#[verifier::external_body]
pub(crate) fn vm_readv(pid: i32, address: usize, buffer: &mut Vec<u8>) -> (outcome: Result<
    usize,
    i32,
>)
    ensures
        final(buffer)@.len() == old(buffer)@.len(),
{
    let remote = [RemoteIoVec { base: address, len: buffer.len() }];
    let mut local = [IoSliceMut::new(buffer.as_mut_slice())];
    match process_vm_readv(Pid::from_raw(pid), &mut local, &remote) {
        Ok(transferred) => Ok(transferred),
        Err(errno) => Err(errno as i32),
    }
}

} // verus!
