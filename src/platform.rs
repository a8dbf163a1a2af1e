use vstd::prelude::*;

verus! {

/// The numbers a status query is judged by on the platform at hand.
#[derive(Clone, Copy, Debug, PartialEq, Eq)]
pub struct PlatformCodes {
    /// Signal number the kernel writes into the status record when the
    /// child has changed state (exited).
    pub child_exited: i32,
    /// Error number of a call that a signal interrupted.
    pub interrupted: i32,
}

/// Relies on libc::SIGCHLD: the signal number reported for a child that
/// changed state, a positive number on every target libc supports.
#[verifier::external_body]
fn child_signal() -> (r: i32)
    ensures
        r > 0,
{
    libc::SIGCHLD
}

/// Relies on libc::EINTR: the error number of an interrupted call, which is
/// never zero.
#[verifier::external_body]
fn interrupted_errno() -> (r: i32)
    ensures
        r != 0,
{
    libc::EINTR
}

impl PlatformCodes {
    /// The codes of the platform this library was built for.
    pub fn native() -> (r: PlatformCodes)
        ensures
            r.child_exited > 0,
            r.interrupted != 0,
    {
        PlatformCodes { child_exited: child_signal(), interrupted: interrupted_errno() }
    }
}

} // verus!
