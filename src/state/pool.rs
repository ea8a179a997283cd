use vstd::prelude::*;

use super::{Lua, Thread, THREAD_SIZE};
use crate::error::{Error, Result};
use crate::value::{ObjectId, Value};

verus! {

impl Lua {
    /// A coroutine for an async call: the most recently pooled one when the
    /// pool has any, else a new one.
    pub fn create_recycled_thread(&mut self) -> (r: Result<Thread>)
        requires
            old(self).wf(),
        ensures
            Lua::keeps_config(old(self), final(self)),
            Lua::keeps_env(old(self), final(self)),
            final(self).wf(),
            r is Err ==> r->Err_0 is MemoryError && *final(self) == *old(self),
            old(self).pool_view().len() > 0 ==> {
                &&& r is Ok <==> old(self).ref_table().can_push(&old(self).mem())
                &&& r matches Ok(t) ==> final(self).valid_ref(&t.0) && !old(self).ref_table().live().contains(t.0.spec_index())
                    && final(self).ref_value(&t.0) == Value::Thread(old(self).pool_view().last())
                    && final(self).pool_view() == old(self).pool_view().drop_last()
            },
            old(self).pool_view().len() == 0 ==> {
                &&& r is Ok <==> old(self).can_hold(THREAD_SIZE as nat) && old(self).next_id() < u64::MAX
                &&& r matches Ok(t) ==> final(self).valid_ref(&t.0) && !old(self).ref_table().live().contains(t.0.spec_index())
                    && final(self).ref_value(&t.0) == Value::Thread(ObjectId(old(self).next_id()))
                    && final(self).pool_view() == old(self).pool_view()
            },
    {
        match self.pool.peek() {
            Some(o) => {
                match self.refs.push_ref(&mut self.memory, Value::Thread(o)) {
                    Ok(h) => {
                        let ghost mid = *self;
                        let _ = self.pool.take();
                        proof {
                            Lua::lemma_env_kept(old(self), &mid, self);
                        }
                        Ok(Thread(h))
                    },
                    Err(e) => Err(e),
                }
            },
            None => self.create_thread(),
        }
    }

    /// Hands back a coroutine an async call is done with. It is reset and kept
    /// for reuse while the pool has room, otherwise left to the collector;
    /// either way the handle is dropped. True when kept.
    pub fn recycle_thread(&mut self, t: Thread) -> (r: Result<bool>)
        requires
            old(self).wf(),
        ensures
            Lua::keeps_config(old(self), final(self)),
            Lua::keeps_env(old(self), final(self)),
            final(self).wf(),
            r is Err ==> *final(self) == *old(self),
            !old(self).valid_ref(&t.0) ==> r == Err::<bool, Error>(Error::MismatchedRegistryKey),
            old(self).valid_ref(&t.0) && !(old(self).ref_value(&t.0) is Thread) ==> r is Err && r->Err_0 is RuntimeError,
            old(self).valid_ref(&t.0) && old(self).ref_value(&t.0) is Thread ==> {
                let o = old(self).ref_value(&t.0)->Thread_0;
                let kept = old(self).pool_view().len() < old(self).options().thread_pool_size;
                &&& r == Ok::<bool, Error>(kept)
                &&& kept ==> final(self).pool_view() == old(self).pool_view().push(o)
                &&& !kept ==> final(self).pool_view() == old(self).pool_view()
                &&& final(self).ref_table().live() == old(self).ref_table().live().remove(t.0.spec_index())
            },
    {
        let o = match self.refs.get(&t.0) {
            Ok(Value::Thread(o)) => o,
            Ok(_) => {
                return Err(Error::runtime("not a coroutine"));
            },
            Err(e) => {
                return Err(e);
            },
        };
        let _ = self.refs.drop_ref(t.0);
        let ghost mid = *self;
        let kept = self.pool.recycle(o);
        proof {
            Lua::lemma_env_kept(old(self), &mid, self);
        }
        Ok(kept)
    }
}

} // verus!
