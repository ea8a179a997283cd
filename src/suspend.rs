use vstd::prelude::*;

use crate::error::Error;
use crate::value::{Marker, ObjectId, Value};

verus! {

/// Where a host future stands after one poll.
#[derive(Debug, PartialEq, Eq)]
pub enum Poll {
    /// Done, with this many results on the stack, or with an error.
    Ready(core::result::Result<i32, Error>),
    /// Not ready yet.
    Pending,
}

/// What the coroutine that drives a host future does after a poll.
#[derive(Debug, PartialEq, Eq)]
pub enum AsyncStep {
    /// Return this many results to the script.
    Return(i32),
    /// Raise the error through the VM.
    Raise(Error),
    /// Push the pending marker and yield; the executor's next wake resumes
    /// the coroutine, which polls again.
    YieldPending,
}

/// What a resume of an async coroutine produced, read from its values.
#[derive(Debug, PartialEq, Eq)]
pub enum ResumeKind {
    /// The host future is not ready: poll again later.
    Pending,
    /// The script yielded this many values.
    Yielded(usize),
    /// The coroutine is being torn down.
    Terminated,
    /// The coroutine returned this many values.
    Finished(usize),
}

/// The marker the driver yields while its future is not ready.
pub fn poll_pending() -> (r: Value)
    ensures
        r == Value::Marker(Marker::Pending),
{
    Value::Marker(Marker::Pending)
}

/// The marker that leads values passed by an explicit yield.
pub fn poll_yield() -> (r: Value)
    ensures
        r == Value::Marker(Marker::Yield),
{
    Value::Marker(Marker::Yield)
}

/// The marker that tells a coroutine it is being torn down.
pub fn poll_terminate() -> (r: Value)
    ensures
        r == Value::Marker(Marker::Terminate),
{
    Value::Marker(Marker::Terminate)
}

/// The driver's decision after polling its future once.
pub fn poll_step(p: Poll) -> (r: AsyncStep)
    ensures
        p matches Poll::Ready(Ok(n)) ==> r == AsyncStep::Return(n),
        p matches Poll::Ready(Err(e)) ==> r == AsyncStep::Raise(e),
        p is Pending ==> r == AsyncStep::YieldPending,
{
    match p {
        Poll::Ready(Ok(n)) => AsyncStep::Return(n),
        Poll::Ready(Err(e)) => AsyncStep::Raise(e),
        Poll::Pending => AsyncStep::YieldPending,
    }
}

/// The count a yield frame carries: `[yield marker, value, count]` with a
/// count that is not negative.
pub open spec fn frame_count(values: Seq<Value>) -> Option<nat> {
    if values.len() == 3 && values[2] is Integer && values[2]->Integer_0 >= 0 {
        Some(values[2]->Integer_0 as nat)
    } else {
        None
    }
}

/// Reads the values a resume produced: a leading marker says pending, yield
/// (a frame carrying how many values were yielded) or teardown; anything else
/// is the coroutine's result.
pub fn classify_resume(values: &Vec<Value>) -> (r: ResumeKind)
    ensures
        values@.len() > 0 && values@[0] == Value::Marker(Marker::Pending) ==> r == ResumeKind::Pending,
        values@.len() > 0 && values@[0] == Value::Marker(Marker::Yield) ==> (frame_count(values@) matches Some(n)
            ==> r == ResumeKind::Yielded(n as usize)),
        values@.len() > 0 && values@[0] == Value::Marker(Marker::Yield) && frame_count(values@) is None
            ==> r == ResumeKind::Finished(values@.len() as usize),
        values@.len() > 0 && values@[0] == Value::Marker(Marker::Terminate) ==> r == ResumeKind::Terminated,
        (values@.len() == 0 || !(values@[0] is Marker)) ==> r == ResumeKind::Finished(values@.len() as usize),
{
    if values.len() == 0 {
        return ResumeKind::Finished(0);
    }
    match &values[0] {
        Value::Marker(Marker::Pending) => ResumeKind::Pending,
        Value::Marker(Marker::Yield) => {
            if values.len() == 3 {
                match &values[2] {
                    Value::Integer(n) => {
                        if *n >= 0 {
                            return ResumeKind::Yielded(*n as usize);
                        }
                    },
                    _ => {},
                }
            }
            ResumeKind::Finished(values.len())
        },
        Value::Marker(Marker::Terminate) => ResumeKind::Terminated,
        _ => ResumeKind::Finished(values.len()),
    }
}

/// The values a yield leaves for the driver: the yield marker, the one value
/// yielded (nil for none) or the table that packs them, and their count.
pub open spec fn yield_frame_spec(packed: Value, count: int) -> Seq<Value> {
    seq![Value::Marker(Marker::Yield), packed, Value::Integer(count as i64)]
}

/// Builds the frame of `yield_frame_spec`.
pub fn yield_frame(packed: Value, count: i64) -> (r: Vec<Value>)
    ensures
        r@ == yield_frame_spec(packed, count as int),
{
    let mut r: Vec<Value> = Vec::new();
    r.push(Value::Marker(Marker::Yield));
    r.push(packed);
    r.push(Value::Integer(count));
    r
}

/// Coroutines kept for reuse by async functions, up to a fixed number.
#[derive(Debug)]
pub struct ThreadPool {
    threads: Vec<ObjectId>,
    capacity: usize,
}

impl ThreadPool {
    /// The pooled coroutines, the next one to hand out last.
    pub closed spec fn view(&self) -> Seq<ObjectId> {
        self.threads@
    }

    /// Most coroutines the pool keeps.
    pub closed spec fn spec_capacity(&self) -> nat {
        self.capacity as nat
    }

    /// The pool holds no more than its capacity.
    pub closed spec fn wf(&self) -> bool {
        self.threads@.len() <= self.capacity
    }

    /// An empty pool holding at most `capacity` coroutines.
    pub fn new(capacity: usize) -> (r: Self)
        ensures
            r.wf(),
            r.view().len() == 0,
            r.spec_capacity() == capacity,
    {
        ThreadPool { threads: Vec::new(), capacity }
    }

    /// Number of pooled coroutines.
    pub fn len(&self) -> (r: usize)
        ensures
            r == self.view().len(),
    {
        self.threads.len()
    }

    /// Offers a finished coroutine, reset, for reuse. It is kept when the pool
    /// has room; otherwise it is left to the collector. True when kept.
    pub fn recycle(&mut self, t: ObjectId) -> (kept: bool)
        requires
            old(self).wf(),
        ensures
            final(self).wf(),
            final(self).spec_capacity() == old(self).spec_capacity(),
            kept == (old(self).view().len() < old(self).spec_capacity()),
            kept ==> final(self).view() == old(self).view().push(t),
            !kept ==> final(self).view() == old(self).view(),
    {
        if self.threads.len() < self.capacity {
            self.threads.push(t);
            true
        } else {
            false
        }
    }

    /// True when `t` is pooled.
    pub fn contains(&self, t: ObjectId) -> (r: bool)
        ensures
            r == self.view().contains(t),
    {
        let mut i: usize = 0;
        while i < self.threads.len()
            invariant
                i <= self.threads@.len(),
                forall|j: int| 0 <= j < i ==> self.threads@[j] != t,
            decreases self.threads.len() - i,
        {
            if self.threads[i].0 == t.0 {
                assert(self.threads@[i as int] == t);
                return true;
            }
            i = i + 1;
        }
        false
    }

    /// The most recently pooled coroutine, if any, left in the pool.
    pub fn peek(&self) -> (r: Option<ObjectId>)
        ensures
            self.view().len() == 0 ==> r is None,
            self.view().len() > 0 ==> r == Some(self.view().last()),
    {
        if self.threads.len() == 0 {
            None
        } else {
            Some(self.threads[self.threads.len() - 1])
        }
    }

    /// Takes the most recently pooled coroutine, if any.
    pub fn take(&mut self) -> (r: Option<ObjectId>)
        requires
            old(self).wf(),
        ensures
            final(self).wf(),
            final(self).spec_capacity() == old(self).spec_capacity(),
            old(self).view().len() == 0 ==> r is None && final(self).view() == old(self).view(),
            old(self).view().len() > 0 ==> r == Some(old(self).view().last()) && final(self).view()
                == old(self).view().drop_last(),
    {
        self.threads.pop()
    }
}

} // verus!
