use vstd::prelude::*;

pub mod platform;
pub mod status;

pub use platform::PlatformCodes;
pub use status::{BlockingStep, QueryReport, WaitError, judge_poll, next_blocking_step};

verus! {

/// Opaque identifier of a child process: on POSIX systems, its process ID.
///
/// A handle owns no OS resource. It stays meaningful only while the process
/// it names has not been fully reaped; after that the number may be recycled.
#[derive(Clone, Copy, Debug, PartialEq, Eq)]
pub struct Handle(u32);

impl View for Handle {
    type V = u32;

    closed spec fn view(&self) -> u32 {
        self.0
    }
}

impl Handle {
    /// A handle for the process with the given process ID.
    pub fn from_pid(pid: u32) -> (r: Handle)
        ensures
            r@ == pid,
    {
        Handle(pid)
    }

    /// The process ID this handle names.
    pub fn pid(&self) -> (r: u32)
        ensures
            r == self@,
    {
        self.0
    }
}

} // verus!
