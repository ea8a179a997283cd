use vstd::prelude::*;

use super::{table_size, Lua, MAX_TABLES, MAX_TABLE_SLOTS};
use crate::value::ObjectId;
use crate::callback::VmState;
use crate::error::{Error, Result};
use crate::lock::{LockOutcome, LockView};
use crate::refs::ValueRef;
use crate::stack::StackGuard;
use crate::value::{LightUserData, Value};

verus! {

/// Most values the stack holds.
pub const MAX_STACK: usize = 1_000_000;

impl Lua {
    /// Enters the instance on behalf of `who`. The holder may enter again
    /// (a callback calling back into the VM); another owner must wait. Never
    /// called while a collection callback runs.
    pub fn lock(&mut self, who: u64) -> (r: LockOutcome)
        requires
            old(self).wf(),
            !old(self).is_collecting(),
            old(self).lock_view().depth < usize::MAX,
        ensures
            Lua::keeps_objects(old(self), final(self)),
            Lua::keeps_env(old(self), final(self)),
            Lua::keeps_config(old(self), final(self)),
            final(self).wf(),
            final(self).lock_view() == crate::lock::after_lock(old(self).lock_view(), who),
            r == (match old(self).lock_view().owner {
                None => LockOutcome::Acquired,
                Some(o) => if o == who { LockOutcome::Reentered } else { LockOutcome::Busy },
            }),
            final(self).stack_view() == old(self).stack_view(),
            final(self).regs() == old(self).regs(),
            final(self).ref_table() == old(self).ref_table(),
            final(self).spec_id() == old(self).spec_id(),
            final(self).is_collecting() == old(self).is_collecting(),
    {
        self.lock.try_lock(who)
    }

    /// Who holds the lock, if anyone.
    pub fn lock_owner(&self) -> (r: Option<u64>)
        ensures
            r == self.lock_view().owner,
    {
        self.lock.owner()
    }

    /// How many entries the holder has not left yet.
    pub fn lock_depth(&self) -> (r: usize)
        ensures
            r == self.lock_view().depth,
    {
        self.lock.depth()
    }

    /// Leaves one entry taken by `who`.
    pub fn unlock(&mut self, who: u64)
        requires
            old(self).wf(),
            old(self).lock_view().owner == Some(who),
        ensures
            Lua::keeps_objects(old(self), final(self)),
            Lua::keeps_env(old(self), final(self)),
            Lua::keeps_config(old(self), final(self)),
            final(self).wf(),
            final(self).lock_view() == crate::lock::after_unlock(old(self).lock_view()),
            final(self).stack_view() == old(self).stack_view(),
            final(self).regs() == old(self).regs(),
            final(self).ref_table() == old(self).ref_table(),
            final(self).spec_id() == old(self).spec_id(),
            final(self).is_collecting() == old(self).is_collecting(),
    {
        self.lock.unlock(who)
    }

    /// Number of values on the stack.
    pub fn stack_top(&self) -> (r: usize)
        ensures
            r == self.stack_view().len(),
    {
        self.stack.len()
    }

    /// Pushes `v`; a full stack is an error.
    pub fn push(&mut self, v: Value) -> (r: Result<()>)
        ensures
            Lua::keeps_objects(old(self), final(self)),
            Lua::keeps_env(old(self), final(self)),
            Lua::keeps_config(old(self), final(self)),
            final(self).wf() == old(self).wf(),
            final(self).spec_id() == old(self).spec_id(),
            final(self).regs() == old(self).regs(),
            final(self).ref_table() == old(self).ref_table(),
            final(self).lock_view() == old(self).lock_view(),
            final(self).is_collecting() == old(self).is_collecting(),
            old(self).stack_view().len() < MAX_STACK ==> r is Ok && final(self).stack_view() == old(
                self,
            ).stack_view().push(v),
            old(self).stack_view().len() >= MAX_STACK ==> r is Err && r->Err_0 is RuntimeError
                && *final(self) == *old(self),
    {
        if self.stack.len() >= MAX_STACK {
            return Err(Error::runtime("stack overflow"));
        }
        self.stack.push(v);
        Ok(())
    }

    /// Records the stack top, to be restored when the scope ends.
    pub fn stack_guard(&self) -> (r: StackGuard)
        ensures
            r.spec_top() == self.stack_view().len(),
    {
        StackGuard::new(&self.stack)
    }

    /// Ends a scope begun with `stack_guard`: values pushed since are popped.
    pub fn restore(&mut self, guard: StackGuard)
        requires
            old(self).stack_view().len() >= guard.spec_top(),
        ensures
            Lua::keeps_objects(old(self), final(self)),
            Lua::keeps_env(old(self), final(self)),
            Lua::keeps_config(old(self), final(self)),
            final(self).stack_view() == old(self).stack_view().subrange(0, guard.spec_top() as int),
            final(self).wf() == old(self).wf(),
            final(self).spec_id() == old(self).spec_id(),
            final(self).regs() == old(self).regs(),
            final(self).ref_table() == old(self).ref_table(),
            final(self).lock_view() == old(self).lock_view(),
            final(self).is_collecting() == old(self).is_collecting(),
    {
        guard.restore(&mut self.stack);
    }

    /// Moves the value on top of the stack into the reference table and
    /// returns a handle to it.
    pub fn pop_ref(&mut self) -> (r: Result<ValueRef>)
        requires
            old(self).wf(),
            old(self).stack_view().len() > 0,
        ensures
            Lua::keeps_objects(old(self), final(self)),
            Lua::keeps_env(old(self), final(self)),
            Lua::keeps_config(old(self), final(self)),
            final(self).wf(),
            final(self).spec_id() == old(self).spec_id(),
            final(self).regs() == old(self).regs(),
            r is Ok <==> old(self).ref_table().can_push(&old(self).mem()),
            r is Err ==> r->Err_0 is MemoryError && *final(self) == *old(self),
            r matches Ok(h) ==> final(self).valid_ref(&h)
                && final(self).ref_value(&h) == old(self).stack_view().last()
                && final(self).stack_view() == old(self).stack_view().drop_last()
                && !old(self).ref_table().live().contains(h.spec_index())
                && final(self).ref_table().live() == old(self).ref_table().live().insert(h.spec_index()),
    {
        let v = self.stack[self.stack.len() - 1].duplicate();
        match self.refs.push_ref(&mut self.memory, v) {
            Ok(h) => {
                self.stack.pop();
                Ok(h)
            },
            Err(e) => Err(e),
        }
    }

    /// Whether a script-level protected call of this instance stops failure
    /// `f`: errors always, host panics only when the instance catches them.
    pub fn pcall_catches(&self, f: &crate::callback::Failure) -> (r: bool)
        ensures
            r == (*f is Error || self.options().catch_rust_panics),
    {
        crate::callback::script_catches(f, self.extra.options.catch_rust_panics)
    }

    /// Registers a hook run when a coroutine is created.
    pub fn set_thread_creation_callback(&mut self)
        ensures
            Lua::keeps_objects(old(self), final(self)),
            Lua::keeps_env(old(self), final(self)),
            Lua::keeps_config(old(self), final(self)),
            final(self).creation_hook(),
            final(self).collection_hook() == old(self).collection_hook(),
            final(self).wf() == old(self).wf(),
            final(self).spec_id() == old(self).spec_id(),
    {
        self.extra.thread_creation_callback = true;
    }

    /// Registers a hook run when a coroutine is collected.
    pub fn set_thread_collection_callback(&mut self)
        ensures
            Lua::keeps_objects(old(self), final(self)),
            Lua::keeps_env(old(self), final(self)),
            Lua::keeps_config(old(self), final(self)),
            final(self).collection_hook(),
            final(self).creation_hook() == old(self).creation_hook(),
            final(self).wf() == old(self).wf(),
            final(self).spec_id() == old(self).spec_id(),
    {
        self.extra.thread_collection_callback = true;
    }

    /// Removes both coroutine hooks.
    pub fn remove_thread_callbacks(&mut self)
        ensures
            Lua::keeps_objects(old(self), final(self)),
            Lua::keeps_env(old(self), final(self)),
            Lua::keeps_config(old(self), final(self)),
            !final(self).collection_hook(),
            !final(self).creation_hook(),
            final(self).wf() == old(self).wf(),
            final(self).spec_id() == old(self).spec_id(),
    {
        self.extra.thread_creation_callback = false;
        self.extra.thread_collection_callback = false;
    }

    /// Registers the periodic interrupt hook.
    pub fn set_interrupt(&mut self)
        ensures
            Lua::keeps_objects(old(self), final(self)),
            Lua::keeps_env(old(self), final(self)),
            Lua::keeps_config(old(self), final(self)),
            final(self).interrupt_hook(),
            final(self).wf() == old(self).wf(),
            final(self).spec_id() == old(self).spec_id(),
    {
        self.extra.interrupt_callback = true;
    }

    /// What the VM does after its periodic interrupt, at GC phase `gc` (negative
    /// outside collection): interrupts during collection, or with no hook set,
    /// continue; otherwise the hook's request `requested` stands, but a nested
    /// run continues and a yield happens only at a yieldable point.
    pub fn interrupt_action(&self, gc: i32, strong_count: usize, requested: crate::callback::VmState, yieldable: bool) -> (r: crate::callback::VmState)
        ensures
            (gc >= 0 || !self.interrupt_hook()) ==> r == crate::callback::VmState::Continue,
            gc < 0 && self.interrupt_hook() ==> r == (if strong_count <= 2 && requested
                == crate::callback::VmState::Yield && yieldable {
                crate::callback::VmState::Yield
            } else {
                crate::callback::VmState::Continue
            }),
    {
        if gc >= 0 || !self.extra.interrupt_callback {
            return crate::callback::VmState::Continue;
        }
        crate::callback::interrupt_action(strong_count, requested, yieldable)
    }

    /// Removes the interrupt hook.
    pub fn remove_interrupt(&mut self)
        ensures
            Lua::keeps_objects(old(self), final(self)),
            Lua::keeps_env(old(self), final(self)),
            Lua::keeps_config(old(self), final(self)),
            !final(self).interrupt_hook(),
            final(self).wf() == old(self).wf(),
            final(self).spec_id() == old(self).spec_id(),
    {
        self.extra.interrupt_callback = false;
    }

    /// Hands the host the coroutines collected since the last call, in the
    /// order they died, for it to run the collection hook once for each.
    /// While there are any, the instance counts as collecting until
    /// `finish_collection_callback`: the hook may not enter it.
    pub fn take_collected_threads(&mut self) -> (r: Vec<LightUserData>)
        requires
            old(self).wf(),
        ensures
            Lua::keeps_config(old(self), final(self)),
            Lua::keeps_env(old(self), final(self)),
            final(self).wf(),
            r@ == old(self).collected_threads(),
            final(self).collected_threads().len() == 0,
            final(self).is_collecting() == (old(self).is_collecting() || r@.len() > 0),
            final(self).ref_table() == old(self).ref_table(),
            final(self).regs() == old(self).regs(),
            final(self).stack_view() == old(self).stack_view(),
            final(self).collection_hook() == old(self).collection_hook(),
    {
        let mut out: Vec<LightUserData> = Vec::new();
        std::mem::swap(&mut out, &mut self.collected_threads);
        if out.len() > 0 {
            self.extra.running_gc = true;
        }
        out
    }

    /// True while a collection hook runs; the instance may not be entered then.
    pub fn running_gc(&self) -> (r: bool)
        ensures
            r == self.is_collecting(),
    {
        self.extra.running_gc
    }

    /// Ends the collection hooks' run begun by `take_collected_threads`.
    pub fn finish_collection_callback(&mut self)
        ensures
            Lua::keeps_objects(old(self), final(self)),
            Lua::keeps_env(old(self), final(self)),
            Lua::keeps_config(old(self), final(self)),
            !final(self).is_collecting(),
            final(self).wf() == old(self).wf(),
            final(self).spec_id() == old(self).spec_id(),
            final(self).ref_table() == old(self).ref_table(),
            final(self).regs() == old(self).regs(),
    {
        self.extra.running_gc = false;
    }
}


impl Lua {
    /// The value a yield of `args` carries: nil for none, the value itself
    /// for one.
    pub open spec fn yield_packed(args: Seq<Value>) -> Value {
        if args.len() == 0 { Value::Nil } else { args[0] }
    }

    /// Suspends the running async function: pushes the yield marker, then the
    /// one value yielded (nil for none) or a new table packing all of them,
    /// then their count, for the driver to hand to the resumer.
    pub fn yield_with(&mut self, args: Vec<Value>) -> (r: Result<()>)
        requires
            old(self).wf(),
        ensures
            Lua::keeps_env(old(self), final(self)),
            Lua::keeps_config(old(self), final(self)),
            final(self).wf(),
            final(self).regs() == old(self).regs(),
            final(self).ref_table().live() == old(self).ref_table().live(),
            r is Err ==> *final(self) == *old(self),
            old(self).stack_view().len() + 3 > MAX_STACK ==> r is Err && r->Err_0 is RuntimeError,
            old(self).stack_view().len() + 3 <= MAX_STACK && args@.len() <= 1 ==> r is Ok
                && final(self).stack_view() == old(self).stack_view() + crate::suspend::yield_frame_spec(
                Lua::yield_packed(args@),
                args@.len() as int,
            ) && Lua::keeps_objects(old(self), final(self)) && final(self).used() == old(self).used(),
            old(self).stack_view().len() + 3 <= MAX_STACK && args@.len() > MAX_TABLE_SLOTS ==> r is Err
                && r->Err_0 is RuntimeError,
            old(self).stack_view().len() + 3 <= MAX_STACK && 1 < args@.len() <= MAX_TABLE_SLOTS ==> {
                &&& r is Ok <==> old(self).can_hold(table_size(args@.len(), 0)) && old(self).table_count() < MAX_TABLES
                &&& r is Err ==> r->Err_0 is MemoryError
                &&& r is Ok ==> final(self).stack_view() == old(self).stack_view() + crate::suspend::yield_frame_spec(
                    Value::Table(ObjectId(old(self).table_count() as u64)),
                    args@.len() as int,
                ) && final(self).table_count() == old(self).table_count() + 1
                    && final(self).table_array(old(self).table_count() as int) == args@
            },
    {
        if self.stack.len() > MAX_STACK - 3 {
            return Err(Error::runtime("stack overflow"));
        }
        let n = args.len();
        let ghost args_view = args@;
        if n <= 1 {
            let mut args = args;
            let packed = if n == 0 { Value::Nil } else { args.pop().unwrap() };
            proof {
                assert(n == 1 ==> packed == args_view[0]);
            }
            let mut frame = crate::suspend::yield_frame(packed, n as i64);
            let ghost mid = *self;
            self.stack.append(&mut frame);
            proof {
                Lua::lemma_env_kept(old(self), &mid, self);
            }
            return Ok(());
        }
        if n > MAX_TABLE_SLOTS {
            return Err(Error::runtime("table overflow"));
        }
        let t = self.create_sequence_from(args)?;
        let packed = Value::Table(ObjectId((self.tables.len() - 1) as u64));
        let mut frame = crate::suspend::yield_frame(packed, n as i64);
        let ghost mid = *self;
        self.stack.append(&mut frame);
        proof {
            Lua::lemma_env_kept(old(self), &mid, self);
        }
        let ghost mid2 = *self;
        let _ = self.refs.drop_ref(t.0);
        proof {
            Lua::lemma_env_kept(old(self), &mid2, self);
            assert(self.refs.live() =~= old(self).refs.live());
        }
        Ok(())
    }

    /// Takes every value off the stack, bottom first: what a resumed
    /// coroutine hands back.
    pub fn take_values(&mut self) -> (r: Vec<Value>)
        ensures
            Lua::keeps_objects(old(self), final(self)),
            Lua::keeps_env(old(self), final(self)),
            Lua::keeps_config(old(self), final(self)),
            r@ == old(self).stack_view(),
            final(self).stack_view().len() == 0,
            final(self).wf() == old(self).wf(),
            final(self).spec_id() == old(self).spec_id(),
            final(self).regs() == old(self).regs(),
            final(self).ref_table() == old(self).ref_table(),
    {
        let mut out: Vec<Value> = Vec::new();
        std::mem::swap(&mut out, &mut self.stack);
        out
    }

    /// Whether the creation hook runs for a coroutine just created, given how
    /// many handles to the hook exist: not when none is set, nor when the hook
    /// is already running.
    pub fn runs_creation_hook(&self, strong_count: usize) -> (r: bool)
        ensures
            r == (self.creation_hook() && strong_count <= 2),
    {
        self.extra.thread_creation_callback && crate::callback::may_run_shared_callback(strong_count)
    }
}

/// The message carried by an error value the VM raised.
pub open spec fn error_message(v: Value) -> Seq<char> {
    match v {
        Value::String(s) => s@,
        _ => "error object is not a string"@,
    }
}

impl Lua {
    /// Room for `n` more values on the stack, or a stack overflow error.
    /// Protected frames reserve their room with this before they are entered.
    pub fn check_stack(&self, n: usize) -> (r: Result<()>)
        ensures
            r is Ok <==> self.stack_view().len() + n <= MAX_STACK,
            r is Err ==> r->Err_0 is RuntimeError,
    {
        if n > MAX_STACK || self.stack.len() > MAX_STACK - n {
            return Err(Error::runtime("stack overflow"));
        }
        Ok(())
    }

    /// Ends a protected frame that began at stack height `base`. On success
    /// the frame's results stay. On failure the VM left the raised error value
    /// on top; the frame is removed and the error comes back in the layer's
    /// taxonomy, so it never unwinds past the frame.
    pub fn finish_protected(&mut self, base: usize, status: i32) -> (r: Result<()>)
        requires
            base <= old(self).stack_view().len(),
            status == crate::error::LUA_OK || (crate::error::LUA_ERRRUN <= status <= crate::error::LUA_ERRERR
                && old(self).stack_view().len() == base + 1),
        ensures
            Lua::keeps_objects(old(self), final(self)),
            Lua::keeps_env(old(self), final(self)),
            Lua::keeps_config(old(self), final(self)),
            final(self).wf() == old(self).wf(),
            final(self).spec_id() == old(self).spec_id(),
            final(self).regs() == old(self).regs(),
            final(self).ref_table() == old(self).ref_table(),
            status == crate::error::LUA_OK ==> r is Ok && final(self).stack_view() == old(self).stack_view(),
            status != crate::error::LUA_OK ==> {
                let msg = error_message(old(self).stack_view().last());
                &&& final(self).stack_view() == old(self).stack_view().subrange(0, base as int)
                &&& status == crate::error::LUA_ERRSYNTAX ==> (r matches Err(Error::SyntaxError(m)) && m@ == msg)
                &&& status == crate::error::LUA_ERRMEM ==> (r matches Err(Error::MemoryError(m)) && m@ == msg)
                &&& (status == crate::error::LUA_ERRRUN || status == crate::error::LUA_ERRERR)
                    ==> (r matches Err(Error::RuntimeError(m)) && m@ == msg)
            },
    {
        if status == crate::error::LUA_OK {
            return Ok(());
        }
        let message = match self.stack.pop() {
            Some(Value::String(m)) => m,
            _ => {
                proof {
                    reveal_strlit("error object is not a string");
                }
                "error object is not a string".to_owned()
            },
        };
        crate::stack::unwind_to_base(&mut self.stack, base, true);
        Err(Error::from_status(status, message))
    }
}

} // verus!
