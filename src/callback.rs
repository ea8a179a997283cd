use vstd::prelude::*;

use crate::error::Error;

verus! {

/// Next VM action after an interrupt callback.
#[derive(Debug, Clone, Copy, PartialEq, Eq)]
pub enum VmState {
    Continue,
    /// Yield the current thread.
    Yield,
}

/// How a host callback ended.
#[derive(Debug, PartialEq, Eq)]
pub enum CallbackOutcome {
    /// It returned, leaving this many results on the stack.
    Returned(i32),
    /// It returned an error.
    Failed(Error),
    /// It panicked; the payload's message.
    Panicked(String),
}

/// What is raised through the VM when a callback does not return normally.
#[derive(Debug, PartialEq, Eq)]
pub enum Failure {
    Error(Error),
    Panic(String),
}

/// What the host sees once a raised failure comes back to host code.
#[derive(Debug, PartialEq, Eq)]
pub enum HostOutcome {
    /// A structured error returned to the caller.
    Error(Error),
    /// A panic that resumes unwinding in host code.
    ResumePanic(String),
}

/// What the trampoline makes of a callback's end: results pass through, an error or a panic is
/// raised as a VM error instead of unwinding across the native boundary.
pub fn callback_boundary(outcome: CallbackOutcome) -> (r: core::result::Result<i32, Failure>)
    ensures
        outcome matches CallbackOutcome::Returned(n) ==> r == Ok::<i32, Failure>(n),
        outcome matches CallbackOutcome::Failed(e) ==> r == Err::<i32, Failure>(Failure::Error(e)),
        outcome matches CallbackOutcome::Panicked(p) ==> r == Err::<i32, Failure>(Failure::Panic(p)),
{
    match outcome {
        CallbackOutcome::Returned(n) => Ok(n),
        CallbackOutcome::Failed(e) => Err(Failure::Error(e)),
        CallbackOutcome::Panicked(p) => Err(Failure::Panic(p)),
    }
}

/// Whether a script-level protected call stops `f`: errors always, panics only
/// when the instance is configured to catch them.
pub fn script_catches(f: &Failure, catch_rust_panics: bool) -> (r: bool)
    ensures
        *f is Error ==> r,
        *f is Panic ==> r == catch_rust_panics,
{
    match f {
        Failure::Error(_) => true,
        Failure::Panic(_) => catch_rust_panics,
    }
}

/// What a script sees when its protected call stops a failure: an error keeps
/// its kind, a panic becomes a runtime error carrying the payload.
pub fn script_error(f: Failure) -> (r: Error)
    ensures
        f matches Failure::Error(e) ==> r == e,
        f matches Failure::Panic(p) ==> r == Error::RuntimeError(p),
{
    match f {
        Failure::Error(e) => e,
        Failure::Panic(p) => Error::RuntimeError(p),
    }
}

/// What a failure becomes when it reaches host code: errors are returned, a
/// panic resumes unwinding there.
pub fn host_boundary(f: Failure) -> (r: HostOutcome)
    ensures
        f matches Failure::Error(e) ==> r == HostOutcome::Error(e),
        f matches Failure::Panic(p) ==> r == HostOutcome::ResumePanic(p),
{
    match f {
        Failure::Error(e) => HostOutcome::Error(e),
        Failure::Panic(p) => HostOutcome::ResumePanic(p),
    }
}

/// Callbacks that hold a shared handle to themselves refuse nested runs: with
/// the registration and the running call, two handles exist; more means the
/// callback is already running.
pub fn may_run_shared_callback(strong_count: usize) -> (r: bool)
    ensures
        r == (strong_count <= 2),
{
    strong_count <= 2
}

/// The action after an interrupt: a nested interrupt, or a yield request at a
/// point that cannot yield, continues.
pub fn interrupt_action(strong_count: usize, requested: VmState, yieldable: bool) -> (r: VmState)
    ensures
        r == (if strong_count <= 2 && requested == VmState::Yield && yieldable {
            VmState::Yield
        } else {
            VmState::Continue
        }),
{
    if !may_run_shared_callback(strong_count) {
        return VmState::Continue;
    }
    match requested {
        VmState::Yield => if yieldable {
            VmState::Yield
        } else {
            VmState::Continue
        },
        VmState::Continue => VmState::Continue,
    }
}

/// Guard of a mutable host callback: it may not be entered while it runs.
#[derive(Debug)]
pub struct MutCallbackGuard {
    running: bool,
}

impl MutCallbackGuard {
    /// Whether the callback is running now.
    pub closed spec fn is_running(&self) -> bool {
        self.running
    }

    /// A callback that is not running.
    pub fn new() -> (r: Self)
        ensures
            !r.is_running(),
    {
        MutCallbackGuard { running: false }
    }

    /// Enters the callback, or reports a recursive call.
    pub fn enter(&mut self) -> (r: core::result::Result<(), Error>)
        ensures
            old(self).is_running() ==> r == Err::<(), Error>(Error::RecursiveMutCallback)
                && final(self).is_running(),
            !old(self).is_running() ==> r is Ok && final(self).is_running(),
    {
        if self.running {
            return Err(Error::RecursiveMutCallback);
        }
        self.running = true;
        Ok(())
    }

    /// Leaves the callback.
    pub fn leave(&mut self)
        ensures
            !final(self).is_running(),
    {
        self.running = false;
    }
}

} // verus!
