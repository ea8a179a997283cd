use vstd::prelude::*;

use crate::error::{memory_error, Error, Result};
use crate::memory::{alloc_granted, MemoryState};
use crate::value::Value;

verus! {

/// Bytes accounted when the reference table grows by one slot.
pub const REF_SLOT_SIZE: usize = 16;

/// Bound on the number of reference slots.
pub const MAX_REFS: usize = 0x7fff_fff0;

/// A GC-rooted handle to one VM value: a slot of the reference table of the VM
/// instance `owner`.
#[derive(Debug)]
pub struct ValueRef {
    owner: u64,
    index: usize,
}

impl ValueRef {
    pub closed spec fn spec_owner(&self) -> u64 {
        self.owner
    }

    pub closed spec fn spec_index(&self) -> int {
        self.index as int
    }

    /// The slot this handle names.
    pub fn index(&self) -> (r: usize)
        ensures
            r == self.spec_index(),
    {
        self.index
    }
}

/// The reference table: values that host handles keep alive, one per slot,
/// with the slots that dropped handles gave back.
pub struct RefThread {
    owner: u64,
    slots: Vec<Value>,
    live_flags: Vec<bool>,
    free: Vec<usize>,
    live: Ghost<Set<int>>,
}

impl RefThread {
    pub closed spec fn spec_owner(&self) -> u64 {
        self.owner
    }

    /// Number of slots, live or free.
    pub closed spec fn len(&self) -> nat {
        self.slots@.len()
    }

    /// The value in slot `i`.
    pub closed spec fn slot(&self, i: int) -> Value {
        self.slots@[i]
    }

    /// Slots that live handles name.
    pub closed spec fn live(&self) -> Set<int> {
        self.live@
    }

    /// Slots given back, the next one to reuse last.
    pub closed spec fn free_slots(&self) -> Seq<usize> {
        self.free@
    }

    /// Every slot named is in the table; no slot is both live and free; no slot
    /// is free twice.
    pub closed spec fn wf(&self) -> bool {
        &&& self.slots@.len() <= MAX_REFS
        &&& self.live_flags@.len() == self.slots@.len()
        &&& forall|i: int| 0 <= i < self.slots@.len() ==> (self.live_flags@[i] <==> #[trigger] self.live@.contains(i))
        &&& forall|i: int| self.live@.contains(i) ==> 0 <= i < self.slots@.len()
        &&& forall|k: int| 0 <= k < self.free@.len() ==> #[trigger] self.free@[k] < self.slots@.len()
        &&& forall|k: int| 0 <= k < self.free@.len() ==> !self.live@.contains(#[trigger] self.free@[k] as int)
        &&& forall|k: int, m: int| 0 <= k < self.free@.len() && 0 <= m < self.free@.len() && k != m
            ==> self.free@[k] != self.free@[m]
    }

    /// True when `r` was made by this table.
    pub open spec fn owns(&self, r: &ValueRef) -> bool {
        r.spec_owner() == self.spec_owner()
    }

    /// A handle of this table whose slot is alive.
    pub open spec fn valid_ref(&self, r: &ValueRef) -> bool {
        self.owns(r) && self.live().contains(r.spec_index())
    }

    /// Whether a slot could be had for a new handle.
    pub open spec fn can_push(&self, mem: &MemoryState) -> bool {
        self.free_slots().len() > 0 || (self.len() < MAX_REFS && alloc_granted(
            mem.used(),
            mem.limit(),
            false,
            0,
            REF_SLOT_SIZE as nat,
        ))
    }

    /// An empty table for the VM instance `owner`.
    pub fn new(owner: u64) -> (r: Self)
        ensures
            r.wf(),
            r.spec_owner() == owner,
            r.live() == Set::<int>::empty(),
            r.len() == 0,
            r.free_slots().len() == 0,
    {
        RefThread { owner, slots: Vec::new(), live_flags: Vec::new(), free: Vec::new(), live: Ghost(Set::empty()) }
    }

    /// Moves `v` into the table and returns a handle to it, reusing the most
    /// recently freed slot when there is one.
    pub fn push_ref(&mut self, mem: &mut MemoryState, v: Value) -> (r: Result<ValueRef>)
        requires
            old(self).wf(),
        ensures
            final(self).wf(),
            final(self).spec_owner() == old(self).spec_owner(),
            final(mem).limit() == old(mem).limit(),
            r is Err <==> !old(self).can_push(old(mem)),
            r matches Err(e) ==> e is MemoryError && *final(self) == *old(self) && *final(mem) == *old(mem),
            r matches Ok(h) ==> {
                &&& final(self).owns(&h)
                &&& !old(self).live().contains(h.spec_index())
                &&& final(self).live() == old(self).live().insert(h.spec_index())
                &&& final(self).slot(h.spec_index()) == v
                &&& forall|i: int| old(self).live().contains(i) ==> final(self).slot(i) == old(self).slot(i)
                &&& old(self).free_slots().len() > 0 ==> h.spec_index() == old(self).free_slots().last()
                    && *final(mem) == *old(mem)
                &&& old(self).free_slots().len() == 0 ==> final(mem).used() == old(mem).used() + REF_SLOT_SIZE
            },
    {
        if self.free.len() > 0 {
            let idx = self.free.pop().unwrap();
            let ghost old_free = old(self).free@;
            assert(old_free.drop_last() == self.free@);
            assert(old_free[old_free.len() - 1] == idx);
            self.slots.set(idx, v);
            self.live_flags.set(idx, true);
            proof {
                self.live@ = self.live@.insert(idx as int);
                assert forall|k: int| 0 <= k < self.free@.len() implies !self.live@.contains(
                    #[trigger] self.free@[k] as int,
                ) by {
                    assert(old_free[k] == self.free@[k]);
                }
            }
            return Ok(ValueRef { owner: self.owner, index: idx });
        }
        if self.slots.len() >= MAX_REFS {
            return Err(memory_error());
        }
        if !mem.allocate(REF_SLOT_SIZE) {
            return Err(memory_error());
        }
        let idx = self.slots.len();
        self.slots.push(v);
        self.live_flags.push(true);
        proof {
            self.live@ = self.live@.insert(idx as int);
        }
        Ok(ValueRef { owner: self.owner, index: idx })
    }

    /// True when `h` is a live handle of this table.
    pub fn is_valid_ref(&self, h: &ValueRef) -> (r: bool)
        requires
            self.wf(),
        ensures
            r == self.valid_ref(h),
    {
        h.owner == self.owner && h.index < self.slots.len() && self.live_flags[h.index]
    }

    /// True when some live handle names `v`.
    pub fn mentions(&self, v: &Value) -> (r: bool)
        requires
            self.wf(),
        ensures
            r == exists|i: int| #[trigger] self.live().contains(i) && self.slot(i).same_spec(*v),
    {
        let mut i: usize = 0;
        while i < self.slots.len()
            invariant
                self.wf(),
                i <= self.slots@.len(),
                forall|j: int| 0 <= j < i ==> !(#[trigger] self.live().contains(j) && self.slot(j).same_spec(*v)),
            decreases self.slots.len() - i,
        {
            if self.live_flags[i] && self.slots[i].same(v) {
                assert(self.live().contains(i as int));
                return true;
            }
            i = i + 1;
        }
        false
    }

    /// The value that `h` names.
    pub fn get(&self, h: &ValueRef) -> (r: Result<Value>)
        requires
            self.wf(),
        ensures
            !self.valid_ref(h) ==> r == Err::<Value, Error>(Error::MismatchedRegistryKey),
            self.valid_ref(h) ==> r == Ok::<Value, Error>(self.slot(h.spec_index())),
    {
        if !self.is_valid_ref(h) {
            return Err(Error::MismatchedRegistryKey);
        }
        Ok(self.slots[h.index].duplicate())
    }

    /// Drops handle `h`: its slot is cleared and may be reused.
    pub fn drop_ref(&mut self, h: ValueRef) -> (r: Result<()>)
        requires
            old(self).wf(),
        ensures
            final(self).wf(),
            final(self).spec_owner() == old(self).spec_owner(),
            !old(self).valid_ref(&h) ==> r == Err::<(), Error>(Error::MismatchedRegistryKey)
                && *final(self) == *old(self),
            old(self).valid_ref(&h) ==> r is Ok
                && final(self).live() == old(self).live().remove(h.spec_index())
                && final(self).free_slots() == old(self).free_slots().push(h.spec_index() as usize)
                && forall|i: int| final(self).live().contains(i) ==> final(self).slot(i) == old(self).slot(i),
    {
        if !self.is_valid_ref(&h) {
            return Err(Error::MismatchedRegistryKey);
        }
        let idx = h.index;
        self.slots.set(idx, Value::Nil);
        self.live_flags.set(idx, false);
        proof {
            self.live@ = self.live@.remove(idx as int);
        }
        self.free.push(idx);
        proof {
            let f = self.free@;
            assert(f.last() == idx);
            assert forall|k: int| 0 <= k < f.len() - 1 implies f[k] != idx by {
                assert(old(self).free@[k] == f[k]);
            }
        }
        Ok(())
    }
}

} // verus!
