//! Decoding of a stopped task's registers at a syscall boundary.
//!
//! Which register holds what differs from one instruction set to the next.
//! The rest of the library reads registers only through [`PlatformRegs`], so
//! that another instruction set is another implementation of that trait.

use vstd::prelude::*;

verus! {

/// A captured register set, read as a call number and argument slots.
///
/// Implement this trait to add new architectures.
pub trait PlatformRegs {
    /// The value in argument slot `no` of the intercepted call.
    spec fn arg(&self, no: int) -> usize;

    /// The number of the intercepted call.
    spec fn sysno(&self) -> usize;

    /// Reads argument slot `no`. The write call has three arguments, and
    /// only the slots 0, 1 and 2 can be asked for.
    fn get_args(&self, no: usize) -> (value: usize)
        requires
            no < 3,
        ensures
            value == self.arg(no as int),
    ;

    /// Reads the number of the intercepted call.
    fn get_sysno(&self) -> (number: usize)
        ensures
            number == self.sysno(),
    ;
}

/// The arguments of the write call, by their meaning.
pub trait SysWriteArgs {
    /// The descriptor written to.
    spec fn fd(&self) -> i32;

    /// The number of bytes handed to the call.
    spec fn len(&self) -> usize;

    /// The address of the first of those bytes in the caller's memory.
    spec fn ptr(&self) -> usize;

    /// Reads the descriptor argument.
    fn get_fd(&self) -> (fd: i32)
        ensures
            fd == self.fd(),
    ;

    /// Reads the length argument.
    fn get_len(&self) -> (len: usize)
        ensures
            len == self.len(),
    ;

    /// Reads the buffer address argument.
    fn get_ptr(&self) -> (ptr: usize)
        ensures
            ptr == self.ptr(),
    ;
}

/// The descriptor that an argument slot holds: its low 32 bits, read as a
/// signed number.
pub open spec fn descriptor_in(slot: usize) -> i32 {
    slot as i32
}

/// The arithmetic of [`descriptor_in`]: the slot is reduced modulo 2^32, and
/// the upper half of that range stands for the negative numbers.
pub proof fn law_descriptor_is_low_word(slot: usize)
    ensures
        (slot as int) % 0x1_0000_0000 < 0x8000_0000 ==> descriptor_in(slot) == (slot as int)
            % 0x1_0000_0000,
        (slot as int) % 0x1_0000_0000 >= 0x8000_0000 ==> descriptor_in(slot) == (slot as int)
            % 0x1_0000_0000 - 0x1_0000_0000,
{
    let wide = slot as u64;
    assert(wide % 0x1_0000_0000 < 0x8000_0000 ==> wide as i32 == wide % 0x1_0000_0000)
        by (bit_vector);
    assert(wide % 0x1_0000_0000 >= 0x8000_0000 ==> wide as i32 == wide % 0x1_0000_0000
        - 0x1_0000_0000) by (bit_vector);
    assert(wide as i32 == slot as i32) by (bit_vector)
        requires
            wide == slot as u64,
    ;
}

/// Every register set decodes the write call alike: descriptor, buffer
/// address and length are the argument slots 0, 1 and 2.
impl<T: PlatformRegs> SysWriteArgs for T {
    open spec fn fd(&self) -> i32 {
        descriptor_in(self.arg(0))
    }

    open spec fn len(&self) -> usize {
        self.arg(2)
    }

    open spec fn ptr(&self) -> usize {
        self.arg(1)
    }

    fn get_fd(&self) -> (fd: i32) {
        #[verifier::truncate]
        (self.get_args(0) as i32)
    }

    fn get_len(&self) -> (len: usize) {
        self.get_args(2)
    }

    fn get_ptr(&self) -> (ptr: usize) {
        self.get_args(1)
    }
}

/// The number of the write call on x86-64 Linux.
pub const SYS_WRITE: usize = 1;

/// The descriptor of a process's standard output.
pub const STDOUT_FILENO: i32 = 1;

/// The descriptor of a process's standard error.
pub const STDERR_FILENO: i32 = 2;

/// The registers of an x86-64 Linux task that carry a call's number and its
/// first three arguments.
#[derive(Clone, Copy, Debug, PartialEq, Eq)]
pub struct UserRegs {
    pub orig_rax: u64,
    pub rdi: u64,
    pub rsi: u64,
    pub rdx: u64,
}

/// The machine word that a 64-bit register is read as.
pub open spec fn word(register: u64) -> usize {
    register as usize
}

/// A register value that fits the machine word is read unchanged.
pub proof fn law_fitting_register_is_unchanged(register: u64)
    requires
        register <= usize::MAX,
    ensures
        word(register) == register,
{
}

/// On x86-64 Linux the call number is in `orig_rax`, and the first three
/// arguments are in `rdi`, `rsi` and `rdx`.
impl PlatformRegs for UserRegs {
    open spec fn arg(&self, no: int) -> usize {
        if no == 0 {
            word(self.rdi)
        } else if no == 1 {
            word(self.rsi)
        } else {
            word(self.rdx)
        }
    }

    open spec fn sysno(&self) -> usize {
        word(self.orig_rax)
    }

    fn get_args(&self, no: usize) -> (value: usize) {
        if no == 0 {
            #[verifier::truncate]
            (self.rdi as usize)
        } else if no == 1 {
            #[verifier::truncate]
            (self.rsi as usize)
        } else {
            #[verifier::truncate]
            (self.rdx as usize)
        }
    }

    fn get_sysno(&self) -> (number: usize) {
        #[verifier::truncate]
        (self.orig_rax as usize)
    }
}

} // verus!
