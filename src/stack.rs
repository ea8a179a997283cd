use vstd::prelude::*;

use crate::value::Value;

verus! {

/// A scope-lifetime record of the value-stack top, restored when the scope ends
/// however many values the code in between pushed.
#[derive(Debug)]
pub struct StackGuard {
    top: usize,
}

impl StackGuard {
    pub closed spec fn spec_top(&self) -> nat {
        self.top as nat
    }

    /// Records the current top of `stack`.
    pub fn new(stack: &Vec<Value>) -> (r: Self)
        ensures
            r.spec_top() == stack@.len(),
    {
        StackGuard { top: stack.len() }
    }

    /// Records `top` as the height to restore, which may be below the current top.
    pub fn with_top(stack: &Vec<Value>, top: usize) -> (r: Self)
        requires
            top <= stack@.len(),
        ensures
            r.spec_top() == top,
    {
        StackGuard { top }
    }

    /// The recorded top.
    pub fn top(&self) -> (r: usize)
        ensures
            r == self.spec_top(),
    {
        self.top
    }

    /// Ends the scope: the values pushed above the recorded top are popped.
    /// Popping below the recorded top is a caller bug and is ruled out.
    pub fn restore(self, stack: &mut Vec<Value>)
        requires
            old(stack)@.len() >= self.spec_top(),
        ensures
            final(stack)@ == old(stack)@.subrange(0, self.spec_top() as int),
    {
        stack.truncate(self.top);
    }
}

/// What a protected frame leaves on `stack` once its operation ends: on success
/// the frame's results stay, on failure everything from the frame's base up is
/// removed, so the raised error never reaches frames the host did not protect.
pub fn unwind_to_base(stack: &mut Vec<Value>, base: usize, failed: bool)
    requires
        base <= old(stack)@.len(),
    ensures
        failed ==> final(stack)@ == old(stack)@.subrange(0, base as int),
        !failed ==> final(stack)@ == old(stack)@,
{
    if failed {
        stack.truncate(base);
    }
}

} // verus!
