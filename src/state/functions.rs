use vstd::prelude::*;

use super::{Function, FunctionState, Lua};
use crate::error::{memory_error, Error, Result};
use crate::value::{ObjectId, Value};

verus! {

/// Most host functions one instance creates.
pub const MAX_FUNCTIONS: usize = 0x7fff_ffff;

/// Bytes accounted for a host function object.
pub const FUNCTION_SIZE: usize = 48;

impl Lua {

    /// Whether host function `id` takes mutable state.
    pub closed spec fn function_is_mut(&self, id: int) -> bool {
        self.functions@[id].mutable
    }

    /// Whether host function `id` is running now.
    pub closed spec fn function_running(&self, id: int) -> bool {
        self.functions@[id].running
    }

    /// The identity of the host function that `f` names, if it names one of this instance.
    pub open spec fn function_id(&self, f: &Function) -> Option<int> {
        if self.valid_ref(&f.0) && self.ref_value(&f.0) is Function && (self.ref_value(&f.0)->Function_0.0 as int)
            < self.function_count() {
            Some(self.ref_value(&f.0)->Function_0.0 as int)
        } else {
            None
        }
    }

    fn make_function(&mut self, mutable: bool) -> (r: Result<Function>)
        requires
            old(self).wf(),
        ensures
            Lua::keeps_config(old(self), final(self)),
            Lua::keeps_env(old(self), final(self)),
            final(self).wf(),
            r is Ok <==> old(self).can_hold(FUNCTION_SIZE as nat) && old(self).function_count() < MAX_FUNCTIONS,
            r is Err ==> r->Err_0 is MemoryError && *final(self) == *old(self),
            r matches Ok(f) ==> {
                &&& Lua::created(
                    old(self),
                    final(self),
                    &f.0,
                    Value::Function(ObjectId(old(self).function_count() as u64)),
                    FUNCTION_SIZE as nat,
                )
                &&& final(self).function_count() == old(self).function_count() + 1
                &&& final(self).function_id(&f) == Some(old(self).function_count() as int)
                &&& final(self).function_is_mut(old(self).function_count() as int) == mutable
                &&& !final(self).function_running(old(self).function_count() as int)
                &&& forall|i: int| 0 <= i < old(self).function_count() ==> final(self).function_is_mut(i)
                    == old(self).function_is_mut(i) && final(self).function_running(i) == old(self).function_running(i)
            },
    {
        if self.functions.len() >= MAX_FUNCTIONS {
            return Err(memory_error());
        }
        let oid = ObjectId(self.functions.len() as u64);
        match self.new_object(FUNCTION_SIZE, Value::Function(oid)) {
            Ok(h) => {
                let ghost mid = *self;
                self.functions.push(FunctionState { mutable, running: false });
                proof {
                    Lua::lemma_env_kept(old(self), &mid, self);
                }
                Ok(Function(h))
            },
            Err(e) => Err(e),
        }
    }

    /// A new host function object; the host keeps the callback under the
    /// function's identity.
    pub fn create_function(&mut self) -> (r: Result<Function>)
        requires
            old(self).wf(),
        ensures
            Lua::keeps_config(old(self), final(self)),
            Lua::keeps_env(old(self), final(self)),
            final(self).wf(),
            r is Ok <==> old(self).can_hold(FUNCTION_SIZE as nat) && old(self).function_count() < MAX_FUNCTIONS,
            r is Err ==> r->Err_0 is MemoryError && *final(self) == *old(self),
            r matches Ok(f) ==> final(self).function_id(&f) == Some(old(self).function_count() as int)
                && !final(self).function_is_mut(old(self).function_count() as int)
                && !final(self).function_running(old(self).function_count() as int),
    {
        self.make_function(false)
    }

    /// A new host function object whose callback takes mutable state: it may
    /// not be entered again while it runs.
    pub fn create_function_mut(&mut self) -> (r: Result<Function>)
        requires
            old(self).wf(),
        ensures
            Lua::keeps_config(old(self), final(self)),
            Lua::keeps_env(old(self), final(self)),
            final(self).wf(),
            r is Ok <==> old(self).can_hold(FUNCTION_SIZE as nat) && old(self).function_count() < MAX_FUNCTIONS,
            r is Err ==> r->Err_0 is MemoryError && *final(self) == *old(self),
            r matches Ok(f) ==> final(self).function_id(&f) == Some(old(self).function_count() as int)
                && final(self).function_is_mut(old(self).function_count() as int)
                && !final(self).function_running(old(self).function_count() as int),
    {
        self.make_function(true)
    }

    fn find_function(&self, f: &Function) -> (r: Result<usize>)
        requires
            self.wf(),
        ensures
            r matches Ok(i) ==> self.function_id(f) == Some(i as int),
            r is Err ==> self.function_id(f) is None,
            !self.valid_ref(&f.0) ==> r == Err::<usize, Error>(Error::MismatchedRegistryKey),
            self.valid_ref(&f.0) && r is Err ==> r->Err_0 is RuntimeError,
    {
        match self.refs.get(&f.0) {
            Ok(Value::Function(o)) => {
                if o.0 < self.functions.len() as u64 {
                    Ok(o.0 as usize)
                } else {
                    Err(Error::runtime("not a function"))
                }
            },
            Ok(_) => Err(Error::runtime("not a function")),
            Err(e) => Err(e),
        }
    }

    /// The VM calls host function `f`. A mutable one that is already running
    /// is refused with a recursive-callback error.
    pub fn enter_function(&mut self, f: &Function) -> (r: Result<()>)
        requires
            old(self).wf(),
        ensures
            final(self).function_id(f) == old(self).function_id(f),
            final(self).stack_view() == old(self).stack_view(),
            Lua::keeps_config(old(self), final(self)),
            Lua::keeps_env(old(self), final(self)),
            final(self).wf(),
            final(self).ref_table() == old(self).ref_table(),
            final(self).regs() == old(self).regs(),
            final(self).function_count() == old(self).function_count(),
            r is Err ==> *final(self) == *old(self),
            !old(self).valid_ref(&f.0) ==> r == Err::<(), Error>(Error::MismatchedRegistryKey),
            old(self).valid_ref(&f.0) && old(self).function_id(f) is None ==> r is Err && r->Err_0 is RuntimeError,
            old(self).function_id(f) matches Some(id) ==> {
                &&& old(self).function_is_mut(id) && old(self).function_running(id) ==> r == Err::<(), Error>(
                    Error::RecursiveMutCallback,
                )
                &&& old(self).function_is_mut(id) && !old(self).function_running(id) ==> r is Ok
                    && final(self).function_running(id) && final(self).function_is_mut(id)
                &&& !old(self).function_is_mut(id) ==> r is Ok && *final(self) == *old(self)
                &&& forall|j: int| 0 <= j < old(self).function_count() && j != id ==> final(self).function_is_mut(j)
                    == old(self).function_is_mut(j) && final(self).function_running(j) == old(self).function_running(j)
            },
    {
        let i = self.find_function(f)?;
        let st = self.functions[i];
        if st.mutable {
            if st.running {
                return Err(Error::RecursiveMutCallback);
            }
            let ghost mid = *self;
            self.functions.set(i, FunctionState { mutable: true, running: true });
            proof {
                Lua::lemma_env_kept(old(self), &mid, self);
            }
        }
        Ok(())
    }

    /// Host function `f` returned (or failed) to the VM.
    pub fn leave_function(&mut self, f: &Function) -> (r: Result<()>)
        requires
            old(self).wf(),
        ensures
            final(self).function_id(f) == old(self).function_id(f),
            final(self).stack_view() == old(self).stack_view(),
            Lua::keeps_config(old(self), final(self)),
            Lua::keeps_env(old(self), final(self)),
            final(self).wf(),
            final(self).ref_table() == old(self).ref_table(),
            final(self).regs() == old(self).regs(),
            final(self).function_count() == old(self).function_count(),
            r is Err ==> *final(self) == *old(self),
            !old(self).valid_ref(&f.0) ==> r == Err::<(), Error>(Error::MismatchedRegistryKey),
            old(self).function_id(f) matches Some(id) ==> r is Ok && !final(self).function_running(id)
                && final(self).function_is_mut(id) == old(self).function_is_mut(id)
                && forall|j: int| 0 <= j < old(self).function_count() && j != id ==> final(self).function_is_mut(j)
                    == old(self).function_is_mut(j) && final(self).function_running(j) == old(self).function_running(j),
    {
        let i = self.find_function(f)?;
        let st = self.functions[i];
        let ghost mid = *self;
        self.functions.set(i, FunctionState { mutable: st.mutable, running: false });
        proof {
            Lua::lemma_env_kept(old(self), &mid, self);
        }
        Ok(())
    }
}

} // verus!
