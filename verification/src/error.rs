//! The conditions that end a run abnormally.

use vstd::prelude::*;

verus! {

/// Error number the operating system gives when the caller lacks the privilege
/// for a request, or the target is already being traced.
pub const EPERM: i32 = 1;

/// Error number the operating system gives when no process has the requested
/// identifier.
pub const ESRCH: i32 = 3;

/// Error number the operating system gives when the caller has no child left
/// to wait for.
pub const ECHILD: i32 = 10;

/// Why the operating system refused to hand over control of the target.
#[derive(Clone, Copy, Debug, PartialEq, Eq)]
pub enum AttachCondition {
    /// Insufficient privilege, or the target is already traced.
    PermissionDenied,
    /// No process has the requested identifier.
    NoSuchProcess,
}

/// Why a cross-process memory transfer did not deliver the requested bytes.
#[derive(Clone, Copy, Debug, PartialEq, Eq)]
pub enum RemoteReadError {
    /// The operating system rejected the transfer: the target is gone, the
    /// address is not mapped, or the privilege was lost since attaching.
    Rejected { errno: i32 },
    /// The transfer ended before the requested length was reached.
    Short { transferred: usize, requested: usize },
}

/// A condition that is fatal to the run. None is retried.
#[derive(Clone, Copy, Debug, PartialEq, Eq)]
pub enum CatpError {
    /// The request for debugging control of the target was rejected.
    AttachFailure { condition: AttachCondition, errno: i32 },
    /// The registers of a stopped task could not be fetched.
    RegisterReadFailure { errno: i32 },
    /// The bytes of an intercepted write could not be recovered.
    RemoteReadFailure { cause: RemoteReadError },
    /// A local sink did not take the bytes.
    LocalWriteFailure,
    /// Waiting for the next stop failed for a reason other than having no
    /// child left.
    WaitFailure { errno: i32 },
    /// The stopped task could not be set running again.
    ResumeFailure { errno: i32 },
}

/// The condition that an error number of a refused attach request stands for:
/// `NoSuchProcess` for `ESRCH`, `PermissionDenied` for every other rejection.
pub open spec fn attach_condition_of(errno: i32) -> AttachCondition {
    if errno == ESRCH {
        AttachCondition::NoSuchProcess
    } else {
        AttachCondition::PermissionDenied
    }
}

/// Names the condition behind the error number of a refused attach request.
pub fn attach_condition(errno: i32) -> (condition: AttachCondition)
    ensures
        condition == attach_condition_of(errno),
{
    if errno == ESRCH {
        AttachCondition::NoSuchProcess
    } else {
        AttachCondition::PermissionDenied
    }
}

impl CatpError {
    /// The name of the operation that failed.
    pub open spec fn operation_name(self) -> Seq<char> {
        match self {
            CatpError::AttachFailure { .. } => "attach"@,
            CatpError::RegisterReadFailure { .. } => "getregs"@,
            CatpError::RemoteReadFailure { .. } => "read_data"@,
            CatpError::LocalWriteFailure => "write"@,
            CatpError::WaitFailure { .. } => "wait"@,
            CatpError::ResumeFailure { .. } => "syscall"@,
        }
    }

    /// Names the operation that failed, so that the failure can be diagnosed
    /// from the error alone.
    pub fn operation(&self) -> (name: &'static str)
        ensures
            name@ == self.operation_name(),
    {
        match self {
            CatpError::AttachFailure { .. } => "attach",
            CatpError::RegisterReadFailure { .. } => "getregs",
            CatpError::RemoteReadFailure { .. } => "read_data",
            CatpError::LocalWriteFailure => "write",
            CatpError::WaitFailure { .. } => "wait",
            CatpError::ResumeFailure { .. } => "syscall",
        }
    }
}

} // verus!
