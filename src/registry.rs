use vstd::prelude::*;

use crate::error::{memory_error, Error, Result};
use crate::memory::{alloc_granted, MemoryState};
use crate::value::Value;

verus! {

/// The id a key takes for a nil value: it names no registry slot.
pub const REF_NIL: i32 = -1;

/// Bytes accounted when the registry table grows by one slot.
pub const SLOT_SIZE: usize = 16;

/// Ids stay below this bound so that they fit the VM's integer slot ids.
pub const MAX_SLOTS: usize = 0x7fff_fff0;

/// A handle to a value stored in the registry of the VM instance `owner`.
///
/// Keys are neither `Clone` nor `Copy`: each live key names its slot alone.
#[derive(Debug)]
pub struct RegistryKey {
    id: i32,
    owner: u64,
}

impl RegistryKey {
    pub closed spec fn spec_id(&self) -> int {
        self.id as int
    }

    pub closed spec fn spec_owner(&self) -> u64 {
        self.owner
    }

    /// The registry slot id, or `REF_NIL` for a nil value.
    pub fn id(&self) -> (r: i32)
        ensures
            r == self.spec_id(),
    {
        self.id
    }

    /// True when the key stands for nil and holds no slot.
    pub fn is_nil(&self) -> (r: bool)
        ensures
            r == (self.spec_id() == REF_NIL),
    {
        self.id == REF_NIL
    }
}

/// Ids in `s` are distinct.
pub open spec fn distinct(s: Seq<i32>) -> bool {
    forall|i: int, j: int| 0 <= i < s.len() && 0 <= j < s.len() && i != j ==> s[i] != s[j]
}

/// The registry slots of one VM instance with their bookkeeping: the slots that
/// live keys name, the slots of dropped keys waiting for a sweep, and the slots
/// that the VM has released and may hand out again.
pub struct Registry {
    owner: u64,
    slots: Vec<Value>,
    live_flags: Vec<bool>,
    vm_free: Vec<i32>,
    unref_list: Vec<i32>,
    live: Ghost<Set<int>>,
}

impl Registry {
    pub closed spec fn spec_owner(&self) -> u64 {
        self.owner
    }

    /// Number of registry slots in use or released.
    pub closed spec fn len(&self) -> nat {
        self.slots@.len()
    }

    /// The value in slot `id`.
    pub closed spec fn slot(&self, id: int) -> Value {
        self.slots@[id - 1]
    }

    /// The slots that live keys name.
    pub closed spec fn live(&self) -> Set<int> {
        self.live@
    }

    /// Slots of dropped keys, in the order they were dropped.
    pub closed spec fn pending(&self) -> Seq<i32> {
        self.unref_list@
    }

    /// Slots that the VM has released, the next one to reuse last.
    pub closed spec fn released(&self) -> Seq<i32> {
        self.vm_free@
    }

    /// The bookkeeping is consistent: every id names an existing slot, and no
    /// slot is at once live, pending or released.
    pub closed spec fn wf(&self) -> bool {
        &&& self.slots@.len() <= MAX_SLOTS
        &&& self.live_flags@.len() == self.slots@.len()
        &&& forall|id: int| 1 <= id <= self.slots@.len() ==> (self.live_flags@[id - 1] <==> #[trigger] self.live@.contains(id))
        &&& forall|id: int| self.live@.contains(id) ==> 1 <= id <= self.slots@.len()
        &&& forall|i: int| 0 <= i < self.vm_free@.len() ==> 1 <= #[trigger] self.vm_free@[i] <= self.slots@.len()
        &&& forall|i: int| 0 <= i < self.unref_list@.len() ==> 1 <= #[trigger] self.unref_list@[i] <= self.slots@.len()
        &&& distinct(self.vm_free@)
        &&& distinct(self.unref_list@)
        &&& forall|i: int| 0 <= i < self.vm_free@.len() ==> !self.live@.contains(self.vm_free@[i] as int)
        &&& forall|i: int| 0 <= i < self.unref_list@.len() ==> !self.live@.contains(self.unref_list@[i] as int)
        &&& forall|i: int, j: int| 0 <= i < self.vm_free@.len() && 0 <= j < self.unref_list@.len()
            ==> self.vm_free@[i] != self.unref_list@[j]
    }

    /// True when `key` was made by this registry.
    pub open spec fn owns(&self, key: &RegistryKey) -> bool {
        key.spec_owner() == self.spec_owner()
    }

    /// A key of this registry that is still alive: nil, or naming a live slot.
    pub open spec fn valid_key(&self, key: &RegistryKey) -> bool {
        self.owns(key) && (key.spec_id() == REF_NIL || self.live().contains(key.spec_id()))
    }

    /// What `key` reads back.
    pub open spec fn value_of(&self, key: &RegistryKey) -> Value {
        if key.spec_id() == REF_NIL { Value::Nil } else { self.slot(key.spec_id()) }
    }

    /// Every live slot other than those in `except` holds what it held in `old`.
    pub open spec fn others_kept(old: &Registry, new: &Registry, except: int) -> bool {
        forall|id: int| old.live().contains(id) && id != except ==> new.slot(id) == old.slot(id)
    }

    /// Whether a new slot could be had: a slot to reuse, or room to grow.
    pub open spec fn can_store(&self, mem: &MemoryState) -> bool {
        self.pending().len() > 0 || self.released().len() > 0 || (self.len() < MAX_SLOTS
            && alloc_granted(mem.used(), mem.limit(), false, 0, SLOT_SIZE as nat))
    }

    /// The outcome of storing non-nil `v` under the new `key`.
    pub open spec fn stored(old: &Registry, new: &Registry, v: Value, key: &RegistryKey) -> bool {
        &&& new.owns(key)
        &&& key.spec_id() != REF_NIL
        &&& !old.live().contains(key.spec_id())
        &&& new.live() == old.live().insert(key.spec_id())
        &&& new.slot(key.spec_id()) == v
        &&& Registry::others_kept(old, new, key.spec_id())
        &&& new.spec_owner() == old.spec_owner()
    }

    /// An empty registry for the VM instance `owner`.
    pub fn new(owner: u64) -> (r: Self)
        ensures
            r.wf(),
            r.spec_owner() == owner,
            r.live() == Set::<int>::empty(),
            r.pending().len() == 0,
            r.released().len() == 0,
            r.len() == 0,
    {
        Registry {
            owner,
            slots: Vec::new(),
            live_flags: Vec::new(),
            vm_free: Vec::new(),
            unref_list: Vec::new(),
            live: Ghost(Set::empty()),
        }
    }

    /// True when `key` was made by this registry.
    pub fn owns_registry_value(&self, key: &RegistryKey) -> (r: bool)
        ensures
            r == self.owns(key),
    {
        key.owner == self.owner
    }

    /// True when some registry slot holds `v`.
    pub fn mentions(&self, v: &Value) -> (r: bool)
        requires
            self.wf(),
        ensures
            r == exists|id: int| 1 <= id <= self.len() && #[trigger] self.slot(id).same_spec(*v),
    {
        let mut i: usize = 0;
        while i < self.slots.len()
            invariant
                i <= self.slots@.len(),
                forall|id: int| 1 <= id <= i ==> !(#[trigger] self.slot(id)).same_spec(*v),
            decreases self.slots.len() - i,
        {
            if self.slots[i].same(v) {
                assert(self.slot(i + 1).same_spec(*v));
                return true;
            }
            i = i + 1;
        }
        false
    }

    /// True when `key` is a live key of this registry.
    pub fn is_valid_key(&self, key: &RegistryKey) -> (r: bool)
        requires
            self.wf(),
        ensures
            r == self.valid_key(key),
    {
        if key.owner != self.owner {
            return false;
        }
        if key.id == REF_NIL {
            return true;
        }
        if key.id < 1 || key.id as usize > self.slots.len() {
            return false;
        }
        self.live_flags[(key.id - 1) as usize]
    }

    /// Takes a slot id for a new value: a released slot if there is one (the
    /// most recently released first), else a new slot at the end.
    fn take_slot(&mut self, mem: &mut MemoryState, v: Value) -> (r: Result<i32>)
        requires
            old(self).wf(),
        ensures
            final(mem).used() >= old(mem).used(),
            final(self).wf(),
            final(self).pending() == old(self).pending(),
            final(mem).limit() == old(mem).limit(),
            r is Ok <==> (old(self).released().len() > 0 || (old(self).len() < MAX_SLOTS
                && alloc_granted(old(mem).used(), old(mem).limit(), false, 0, SLOT_SIZE as nat))),
            r matches Ok(id) ==> {
                let key = RegistryKey { id, owner: old(self).spec_owner() };
                &&& Registry::stored(old(self), final(self), v, &key)
                &&& old(self).released().len() > 0 ==> id == old(self).released().last()
                    && final(self).released() == old(self).released().drop_last()
                    && *final(mem) == *old(mem)
                &&& old(self).released().len() == 0 ==> id == old(self).len() + 1
                    && final(self).released() == old(self).released()
                    && final(mem).used() == old(mem).used() + SLOT_SIZE
            },
            r matches Err(e) ==> e is MemoryError && *final(self) == *old(self) && *final(mem) == *old(mem),
    {
        if self.vm_free.len() > 0 {
            let id = self.vm_free.pop().unwrap();
            let ghost old_free = old(self).vm_free@;
            assert(old_free.drop_last() == self.vm_free@);
            assert(old_free.last() == id);
            self.slots.set((id - 1) as usize, v);
            self.live_flags.set((id - 1) as usize, true);
            proof {
                self.live@ = self.live@.insert(id as int);
                assert forall|i: int| 0 <= i < self.vm_free@.len() implies !self.live@.contains(
                    self.vm_free@[i] as int,
                ) by {
                    assert(old_free[i] == self.vm_free@[i]);
                    assert(old_free[old_free.len() - 1] == id);
                }
                assert forall|i: int| 0 <= i < self.unref_list@.len() implies !self.live@.contains(
                    self.unref_list@[i] as int,
                ) by {
                    assert(old_free[old_free.len() - 1] == id);
                }
            }
            return Ok(id);
        }
        if self.slots.len() >= MAX_SLOTS {
            return Err(memory_error());
        }
        if !mem.allocate(SLOT_SIZE) {
            return Err(memory_error());
        }
        self.slots.push(v);
        self.live_flags.push(true);
        let id = self.slots.len() as i32;
        proof {
            self.live@ = self.live@.insert(id as int);
        }
        Ok(id)
    }

    /// Stores `v` and returns a key for it. Nil takes no slot. Otherwise the
    /// slot of the most recently dropped key is reused, then a slot the VM
    /// released, then a new slot is taken, which may fail for want of memory.
    pub fn create_registry_value(&mut self, mem: &mut MemoryState, v: Value) -> (r: Result<RegistryKey>)
        requires
            old(self).wf(),
        ensures
            final(mem).used() <= old(mem).used() + SLOT_SIZE,
            final(mem).used() >= old(mem).used(),
            final(self).wf(),
            final(self).spec_owner() == old(self).spec_owner(),
            final(mem).limit() == old(mem).limit(),
            r is Err <==> (!(v is Nil) && !old(self).can_store(old(mem))),
            r matches Err(e) ==> e is MemoryError && *final(self) == *old(self) && *final(mem) == *old(mem),
            r matches Ok(key) ==> {
                &&& final(self).valid_key(&key)
                &&& final(self).value_of(&key) == v
                &&& v is Nil ==> key.spec_id() == REF_NIL && *final(self) == *old(self) && *final(mem) == *old(mem)
                &&& !(v is Nil) ==> Registry::stored(old(self), final(self), v, &key)
                &&& !(v is Nil) && old(self).pending().len() > 0 ==> key.spec_id() == old(self).pending().last()
                    && final(self).pending() == old(self).pending().drop_last()
                    && final(self).released() == old(self).released()
                    && *final(mem) == *old(mem)
            },
    {
        if v.is_nil() {
            return Ok(RegistryKey { id: REF_NIL, owner: self.owner });
        }
        if self.unref_list.len() > 0 {
            let id = self.unref_list.pop().unwrap();
            let ghost old_list = old(self).unref_list@;
            assert(old_list.drop_last() == self.unref_list@);
            assert(old_list[old_list.len() - 1] == id);
            self.slots.set((id - 1) as usize, v);
            self.live_flags.set((id - 1) as usize, true);
            proof {
                self.live@ = self.live@.insert(id as int);
                assert forall|i: int| 0 <= i < self.vm_free@.len() implies !self.live@.contains(
                    self.vm_free@[i] as int,
                ) by {
                    assert(old_list[old_list.len() - 1] == id);
                }
                assert forall|i: int| 0 <= i < self.unref_list@.len() implies !self.live@.contains(
                    self.unref_list@[i] as int,
                ) by {
                    assert(old_list[i] == self.unref_list@[i]);
                }
            }
            return Ok(RegistryKey { id, owner: self.owner });
        }
        match self.take_slot(mem, v) {
            Ok(id) => Ok(RegistryKey { id, owner: self.owner }),
            Err(e) => Err(e),
        }
    }

    /// Reads the value that `key` names.
    pub fn registry_value(&self, key: &RegistryKey) -> (r: Result<Value>)
        requires
            self.wf(),
        ensures
            !self.valid_key(key) ==> r == Err::<Value, Error>(Error::MismatchedRegistryKey),
            self.valid_key(key) ==> r == Ok::<Value, Error>(self.value_of(key)),
    {
        if !self.is_valid_key(key) {
            return Err(Error::MismatchedRegistryKey);
        }
        if key.id == REF_NIL {
            return Ok(Value::Nil);
        }
        Ok(self.slots[(key.id - 1) as usize].duplicate())
    }

    /// Gives slot `id` back to the VM, which may hand it out again.
    fn release(&mut self, id: i32)
        requires
            old(self).wf(),
            1 <= id <= old(self).len(),
            !old(self).live().contains(id as int),
            !old(self).released().contains(id),
            !old(self).pending().contains(id),
        ensures
            final(self).wf(),
            final(self).live() == old(self).live(),
            final(self).pending() == old(self).pending(),
            final(self).released() == old(self).released().push(id),
            final(self).len() == old(self).len(),
            final(self).spec_owner() == old(self).spec_owner(),
            forall|j: int| 1 <= j <= old(self).len() && j != id ==> final(self).slot(j) == old(self).slot(j),
    {
        self.slots.set((id - 1) as usize, Value::Nil);
        self.vm_free.push(id);
        proof {
            let f = self.vm_free@;
            assert(f.last() == id);
            assert forall|i: int| 0 <= i < f.len() - 1 implies f[i] != id by {
                assert(old(self).vm_free@[i] == f[i]);
            }
        }
    }

    /// Unassigns the slot of `key` at once; the key is consumed.
    pub fn remove_registry_value(&mut self, key: RegistryKey) -> (r: Result<()>)
        requires
            old(self).wf(),
        ensures
            final(self).wf(),
            final(self).spec_owner() == old(self).spec_owner(),
            !old(self).valid_key(&key) ==> r == Err::<(), Error>(Error::MismatchedRegistryKey)
                && *final(self) == *old(self),
            old(self).valid_key(&key) ==> r is Ok && final(self).live() == old(self).live().remove(key.spec_id())
                && final(self).pending() == old(self).pending()
                && Registry::others_kept(old(self), final(self), key.spec_id()),
            old(self).valid_key(&key) && key.spec_id() == REF_NIL ==> *final(self) == *old(self),
            old(self).valid_key(&key) && key.spec_id() != REF_NIL ==> final(self).released() == old(self).released().push(
                key.spec_id() as i32,
            ),
    {
        if !self.is_valid_key(&key) {
            return Err(Error::MismatchedRegistryKey);
        }
        if key.id != REF_NIL {
            proof {
                self.live@ = self.live@.remove(key.id as int);
            }
            self.live_flags.set((key.id - 1) as usize, false);
            self.release(key.id);
        }
        Ok(())
    }

    /// Hands back a key that is no longer wanted. Its slot is queued for the
    /// next sweep and keeps its value until then, or until a new value reuses it.
    pub fn drop_registry_key(&mut self, key: RegistryKey) -> (r: Result<()>)
        requires
            old(self).wf(),
        ensures
            final(self).wf(),
            final(self).spec_owner() == old(self).spec_owner(),
            !old(self).valid_key(&key) ==> r == Err::<(), Error>(Error::MismatchedRegistryKey)
                && *final(self) == *old(self),
            old(self).valid_key(&key) ==> r is Ok && final(self).live() == old(self).live().remove(key.spec_id())
                && final(self).released() == old(self).released()
                && (key.spec_id() == REF_NIL ==> final(self).pending() == old(self).pending())
                && (key.spec_id() != REF_NIL ==> final(self).pending() == old(self).pending().push(key.spec_id() as i32))
                && forall|j: int| final(self).slot(j) == old(self).slot(j),
    {
        if !self.is_valid_key(&key) {
            return Err(Error::MismatchedRegistryKey);
        }
        if key.id != REF_NIL {
            let id = key.id;
            proof {
                self.live@ = self.live@.remove(id as int);
            }
            self.live_flags.set((id - 1) as usize, false);
            self.unref_list.push(id);
            proof {
                let u = self.unref_list@;
                assert(u.last() == id);
                assert forall|i: int| 0 <= i < u.len() - 1 implies u[i] != id by {
                    assert(old(self).unref_list@[i] == u[i]);
                }
            }
        }
        Ok(())
    }

    /// Stores `v` under `key` in place of what it named. Going from nil to a
    /// value takes a slot; going from a value to nil releases it.
    pub fn replace_registry_value(&mut self, mem: &mut MemoryState, key: &mut RegistryKey, v: Value) -> (r: Result<()>)
        requires
            old(self).wf(),
        ensures
            final(mem).used() <= old(mem).used() + SLOT_SIZE,
            final(mem).used() >= old(mem).used(),
            final(self).wf(),
            final(self).spec_owner() == old(self).spec_owner(),
            final(mem).limit() == old(mem).limit(),
            !old(self).valid_key(old(key)) ==> r == Err::<(), Error>(Error::MismatchedRegistryKey)
                && *final(self) == *old(self) && *final(key) == *old(key) && *final(mem) == *old(mem),
            old(self).valid_key(old(key)) ==> {
                &&& r is Err <==> (!(v is Nil) && old(key).spec_id() == REF_NIL && !old(self).can_store(old(mem)))
                &&& r matches Err(e) ==> e is MemoryError && *final(self) == *old(self) && *final(key) == *old(key)
                    && *final(mem) == *old(mem)
                &&& r is Ok ==> final(self).valid_key(final(key)) && final(self).value_of(final(key)) == v
                    && final(self).live().remove(final(key).spec_id()) == old(self).live().remove(old(key).spec_id())
                    && Registry::others_kept(old(self), final(self), old(key).spec_id())
                    && final(key).spec_owner() == old(key).spec_owner()
                &&& r is Ok && v is Nil ==> final(key).spec_id() == REF_NIL
                    && final(self).pending() == old(self).pending() && *final(mem) == *old(mem)
                    && (old(key).spec_id() == REF_NIL ==> *final(self) == *old(self))
                    && (old(key).spec_id() != REF_NIL ==> final(self).released() == old(self).released().push(
                    old(key).spec_id() as i32,
                ))
                &&& r is Ok && !(v is Nil) && old(key).spec_id() != REF_NIL ==> final(key).spec_id() == old(key).spec_id()
                    && final(self).live() == old(self).live() && final(self).pending() == old(self).pending()
                    && final(self).released() == old(self).released() && *final(mem) == *old(mem)
                &&& r is Ok && !(v is Nil) && old(key).spec_id() == REF_NIL ==> Registry::stored(
                    old(self),
                    final(self),
                    v,
                    final(key),
                )
            },
    {
        if !self.is_valid_key(&*key) {
            return Err(Error::MismatchedRegistryKey);
        }
        if key.id == REF_NIL {
            if v.is_nil() {
                return Ok(());
            }
            match self.create_registry_value(mem, v) {
                Ok(new_key) => {
                    key.id = new_key.id;
                    Ok(())
                },
                Err(e) => Err(e),
            }
        } else if v.is_nil() {
            let id = key.id;
            proof {
                self.live@ = self.live@.remove(id as int);
            }
            self.live_flags.set((id - 1) as usize, false);
            self.release(id);
            key.id = REF_NIL;
            proof {
                assert(self.live().remove(REF_NIL as int) =~= old(self).live().remove(id as int));
            }
            Ok(())
        } else {
            self.slots.set((key.id - 1) as usize, v);
            proof {
                assert forall|j: int| old(self).live().contains(j) && j != key.id implies self.slot(j)
                    == old(self).slot(j) by {}
            }
            Ok(())
        }
    }

    /// Releases the slots of every dropped key, in the order they were dropped.
    pub fn expire_registry_values(&mut self)
        requires
            old(self).wf(),
        ensures
            final(self).wf(),
            final(self).spec_owner() == old(self).spec_owner(),
            final(self).live() == old(self).live(),
            final(self).pending().len() == 0,
            final(self).released() == old(self).released() + old(self).pending(),
            forall|id: int| old(self).live().contains(id) ==> final(self).slot(id) == old(self).slot(id),
    {
        let mut list: Vec<i32> = Vec::new();
        std::mem::swap(&mut list, &mut self.unref_list);
        let ghost pend = list@;
        let ghost start = *old(self);
        let mut i: usize = 0;
        while i < list.len()
            invariant
                pend == list@,
                pend == start.unref_list@,
                start.wf(),
                0 <= i <= list.len(),
                self.unref_list@.len() == 0,
                self.owner == start.owner,
                self.live@ == start.live@,
                self.slots@.len() == start.slots@.len(),
                self.vm_free@ == start.vm_free@ + pend.subrange(0, i as int),
                forall|id: int| start.live@.contains(id) ==> self.slots@[id - 1] == start.slots@[id - 1],
                self.wf(),
                forall|k: int| i <= k < pend.len() ==> !self.vm_free@.contains(pend[k]),
            decreases list.len() - i,
        {
            let id = list[i];
            let ghost prev = self.vm_free@;
            let ghost before = *self;
            proof {
                assert(!self.vm_free@.contains(id));
                assert(!self.live@.contains(id as int));
            }
            self.release(id);
            i = i + 1;
            proof {
                assert(self.vm_free@ =~= start.vm_free@ + pend.subrange(0, i as int));
                assert forall|j: int| start.live@.contains(j) implies self.slots@[j - 1] == start.slots@[j - 1] by {
                    assert(self.slot(j) == before.slot(j));
                }
                assert forall|k: int| i <= k < pend.len() implies !self.vm_free@.contains(pend[k]) by {
                    assert(pend[k] != pend[i - 1]);
                    if self.vm_free@.contains(pend[k]) {
                        let m = choose|m: int| 0 <= m < self.vm_free@.len() && self.vm_free@[m] == pend[k];
                        if m < prev.len() {
                            assert(prev[m] == pend[k]);
                            assert(prev.contains(pend[k]));
                        }
                    }
                }
            }
        }
        proof {
            assert(pend.subrange(0, pend.len() as int) =~= pend);
        }
    }
}

/// A key that was alive before a value was stored never names the slot of the
/// new key, and stays alive with its value: no two live keys share a slot.
pub proof fn lemma_live_keys_never_share_a_slot(
    old: Registry,
    new: Registry,
    v: Value,
    held: &RegistryKey,
    created: &RegistryKey,
)
    requires
        old.valid_key(held),
        held.spec_id() != REF_NIL,
        Registry::stored(&old, &new, v, created),
    ensures
        held.spec_id() != created.spec_id(),
        new.valid_key(held),
        new.value_of(held) == old.value_of(held),
{
}

} // verus!
