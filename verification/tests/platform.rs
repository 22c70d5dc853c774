use catp::platform::{
    PlatformRegs, SysWriteArgs, UserRegs, STDERR_FILENO, STDOUT_FILENO, SYS_WRITE,
};

fn regs(orig_rax: u64, rdi: u64, rsi: u64, rdx: u64) -> UserRegs {
    UserRegs { orig_rax, rdi, rsi, rdx }
}

#[test]
fn argument_slots_are_rdi_rsi_rdx() {
    let r = regs(1, 10, 20, 30);
    assert_eq!(r.get_args(0), 10);
    assert_eq!(r.get_args(1), 20);
    assert_eq!(r.get_args(2), 30);
}

#[test]
fn call_number_is_orig_rax() {
    assert_eq!(regs(1, 10, 20, 30).get_sysno(), 1);
    assert_eq!(regs(231, 0, 0, 0).get_sysno(), 231);
}

#[test]
fn write_arguments_are_descriptor_address_length() {
    let r = regs(1, 2, 0x7ffd_1234_5678, 14);
    assert_eq!(r.get_fd(), 2);
    assert_eq!(r.get_ptr(), 0x7ffd_1234_5678);
    assert_eq!(r.get_len(), 14);
}

#[test]
fn descriptor_is_the_low_word_of_the_slot() {
    assert_eq!(regs(1, 0x1_0000_0001, 0, 0).get_fd(), 1);
    assert_eq!(regs(1, 0xdead_beef_0000_0002, 0, 0).get_fd(), 2);
    assert_eq!(regs(1, 0x7fff_ffff, 0, 0).get_fd(), i32::MAX);
}

#[test]
fn descriptor_upper_half_is_negative() {
    assert_eq!(regs(1, 0xffff_ffff_ffff_ffff, 0, 0).get_fd(), -1);
    assert_eq!(regs(1, 0xffff_ffff, 0, 0).get_fd(), -1);
    assert_eq!(regs(1, 0x8000_0000, 0, 0).get_fd(), i32::MIN);
}

#[test]
fn full_width_registers_are_read_unchanged() {
    let r = regs(u64::MAX, 0, u64::MAX, u64::MAX - 1);
    assert_eq!(r.get_sysno(), usize::MAX);
    assert_eq!(r.get_ptr(), usize::MAX);
    assert_eq!(r.get_len(), usize::MAX - 1);
}

#[test]
fn constants_are_those_of_the_platform() {
    assert_eq!(SYS_WRITE as i64, nix::libc::SYS_write as i64);
    assert_eq!(STDOUT_FILENO, nix::libc::STDOUT_FILENO);
    assert_eq!(STDERR_FILENO, nix::libc::STDERR_FILENO);
}
