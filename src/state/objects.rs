use vstd::prelude::*;

use vstd::string::StringSliceAdditionalSpecFns;

use super::{table_size, Lua, MAX_TABLES, MAX_TABLE_SLOTS, LuaString, Table, Thread, ARRAY_SLOT_SIZE, BUFFER_HEADER_SIZE, MAX_BUFFERS, MAX_BUFFER_SIZE, NODE_SIZE, STRING_HEADER_SIZE, TABLE_SIZE, THREAD_SIZE};
use crate::buffer::Buffer;
use crate::env::Env;
use crate::error::{memory_error, Error, Result};
use crate::refs::ValueRef;
use crate::value::{ObjectId, Value};

verus! {


impl Lua {

    /// `new` is `old` with one more handle `h`, naming `v`, and `size` more
    /// bytes for the object (plus a slot when the reference table grew).
    pub open spec fn created(old: &Lua, new: &Lua, h: &ValueRef, v: Value, size: nat) -> bool {
        &&& new.wf()
        &&& new.spec_id() == old.spec_id()
        &&& new.valid_ref(h)
        &&& !old.ref_table().live().contains(h.spec_index())
        &&& new.ref_table().live() == old.ref_table().live().insert(h.spec_index())
        &&& forall|i: int| old.ref_table().live().contains(i)
            ==> new.ref_table().slot(i) == old.ref_table().slot(i)
        &&& new.ref_value(h) == v
        &&& new.used() == old.used() + size + (if old.ref_table().free_slots().len() > 0 {
            0nat
        } else {
            crate::refs::REF_SLOT_SIZE as nat
        })
        &&& new.limit() == old.limit()
        &&& new.regs() == old.regs()
        &&& new.is_sandboxed() == old.is_sandboxed()
        &&& new.has_memory_control() == old.has_memory_control()
        &&& new.is_collecting() == old.is_collecting()
        &&& new.stack_view() == old.stack_view()
    }

    /// A new empty table with room for `narr` sequence items and `nrec` other
    /// items.
    pub fn create_table_with_capacity(&mut self, narr: usize, nrec: usize) -> (r: Result<Table>)
        requires
            old(self).wf(),
        ensures
            Lua::keeps_env(old(self), final(self)),
            Lua::keeps_config(old(self), final(self)),
            final(self).wf(),
            final(self).spec_id() == old(self).spec_id(),
            final(self).limit() == old(self).limit(),
            (narr > MAX_TABLE_SLOTS || nrec > MAX_TABLE_SLOTS) ==> r is Err && r->Err_0 is RuntimeError
                && *final(self) == *old(self),
            narr <= MAX_TABLE_SLOTS && nrec <= MAX_TABLE_SLOTS ==> {
                &&& r is Ok <==> old(self).can_hold(table_size(narr as nat, nrec as nat))
                    && old(self).table_count() < MAX_TABLES
                &&& r is Err ==> r->Err_0 is MemoryError && *final(self) == *old(self)
                &&& r matches Ok(t) ==> Lua::created(
                    old(self),
                    final(self),
                    &t.0,
                    Value::Table(ObjectId(old(self).table_count() as u64)),
                    table_size(narr as nat, nrec as nat),
                ) && final(self).table_count() == old(self).table_count() + 1
                    && final(self).table_id(&t) == Some(old(self).table_count() as int)
                    && (forall|k: Seq<char>| #[trigger] final(self).table_field(old(self).table_count() as int, k) == Value::Nil)
                    && (forall|i: int, k: Seq<char>| 0 <= i < old(self).table_count() ==> #[trigger] final(self).table_field(i, k)
                    == old(self).table_field(i, k))
                    && final(self).globals_id() == old(self).globals_id()
                    && final(self).table_array(old(self).table_count() as int).len() == 0
                    && (forall|i: int| 0 <= i < old(self).table_count() ==> #[trigger] final(self).table_array(i)
                    == old(self).table_array(i))
            },
    {
        if narr > MAX_TABLE_SLOTS || nrec > MAX_TABLE_SLOTS {
            return Err(Error::runtime("table overflow"));
        }
        if self.tables.len() >= MAX_TABLES {
            return Err(memory_error());
        }
        let size: usize = TABLE_SIZE + narr * ARRAY_SLOT_SIZE + nrec * NODE_SIZE;
        let oid = ObjectId(self.tables.len() as u64);
        match self.new_object(size, Value::Table(oid)) {
            Ok(h) => {
                let ghost mid = *self;
                self.tables.push(Env::new());
                self.arrays.push(Vec::new());
                proof {
                    assert(self.tables@[self.globals_table as int] == mid.tables@[mid.globals_table as int]);
                    Lua::lemma_env_kept(old(self), &mid, self);
                }
                Ok(Table(h))
            },
            Err(e) => Err(e),
        }
    }

    /// A new table holding `values` under the keys 1, 2, ... in order.
    pub fn create_sequence_from(&mut self, values: Vec<Value>) -> (r: Result<Table>)
        requires
            old(self).wf(),
        ensures
            Lua::keeps_env(old(self), final(self)),
            Lua::keeps_config(old(self), final(self)),
            final(self).wf(),
            values@.len() > MAX_TABLE_SLOTS ==> r is Err && r->Err_0 is RuntimeError && *final(self) == *old(self),
            values@.len() <= MAX_TABLE_SLOTS ==> {
                &&& r is Ok <==> old(self).can_hold(table_size(values@.len(), 0)) && old(self).table_count() < MAX_TABLES
                &&& r is Err ==> r->Err_0 is MemoryError && *final(self) == *old(self)
                &&& r matches Ok(t) ==> Lua::created(
                    old(self),
                    final(self),
                    &t.0,
                    Value::Table(ObjectId(old(self).table_count() as u64)),
                    table_size(values@.len(), 0),
                ) && final(self).table_count() == old(self).table_count() + 1
                    && final(self).table_id(&t) == Some(old(self).table_count() as int)
                    && final(self).table_array(old(self).table_count() as int) == values@
                    && (forall|k: Seq<char>| #[trigger] final(self).table_field(old(self).table_count() as int, k) == Value::Nil)
                    && (forall|i: int, k: Seq<char>| 0 <= i < old(self).table_count() ==> #[trigger] final(self).table_field(i, k)
                    == old(self).table_field(i, k))
                    && (forall|i: int| 0 <= i < old(self).table_count() ==> #[trigger] final(self).table_array(i)
                    == old(self).table_array(i))
                    && final(self).globals_id() == old(self).globals_id()
            },
    {
        if values.len() > MAX_TABLE_SLOTS {
            return Err(Error::runtime("table overflow"));
        }
        if self.tables.len() >= MAX_TABLES {
            return Err(memory_error());
        }
        let size: usize = TABLE_SIZE + values.len() * ARRAY_SLOT_SIZE;
        let oid = ObjectId(self.tables.len() as u64);
        match self.new_object(size, Value::Table(oid)) {
            Ok(h) => {
                let ghost mid = *self;
                self.tables.push(Env::new());
                self.arrays.push(values);
                proof {
                    assert(self.tables@[self.globals_table as int] == mid.tables@[mid.globals_table as int]);
                    Lua::lemma_env_kept(old(self), &mid, self);
                }
                Ok(Table(h))
            },
            Err(e) => Err(e),
        }
    }

    /// A new empty table.
    pub fn create_table(&mut self) -> (r: Result<Table>)
        requires
            old(self).wf(),
        ensures
            Lua::keeps_env(old(self), final(self)),
            Lua::keeps_config(old(self), final(self)),
            final(self).wf(),
            final(self).spec_id() == old(self).spec_id(),
            final(self).limit() == old(self).limit(),
            r is Ok <==> old(self).can_hold(table_size(0, 0)) && old(self).table_count() < MAX_TABLES,
            r is Err ==> r->Err_0 is MemoryError && *final(self) == *old(self),
            r matches Ok(t) ==> Lua::created(
                old(self),
                final(self),
                &t.0,
                Value::Table(ObjectId(old(self).table_count() as u64)),
                table_size(0, 0),
            ) && final(self).table_count() == old(self).table_count() + 1
                && final(self).table_id(&t) == Some(old(self).table_count() as int),
    {
        self.create_table_with_capacity(0, 0)
    }

    /// A new coroutine object.
    pub fn create_thread(&mut self) -> (r: Result<Thread>)
        requires
            old(self).wf(),
        ensures
            Lua::keeps_env(old(self), final(self)),
            Lua::keeps_config(old(self), final(self)),
            final(self).wf(),
            final(self).spec_id() == old(self).spec_id(),
            final(self).limit() == old(self).limit(),
            r is Ok <==> old(self).can_hold(THREAD_SIZE as nat) && old(self).next_id() < u64::MAX,
            r is Err ==> r->Err_0 is MemoryError && *final(self) == *old(self),
            r matches Ok(t) ==> Lua::created(
                old(self),
                final(self),
                &t.0,
                Value::Thread(ObjectId(old(self).next_id())),
                THREAD_SIZE as nat,
            ) && final(self).next_id() == old(self).next_id() + 1,
            final(self).pool_view() == old(self).pool_view(),
    {
        if self.next_object == u64::MAX {
            return Err(memory_error());
        }
        let oid = ObjectId(self.next_object);
        match self.new_object(THREAD_SIZE, Value::Thread(oid)) {
            Ok(h) => {
                let ghost mid = *self;
                self.next_object = self.next_object + 1;
                proof {
                    Lua::lemma_env_kept(old(self), &mid, self);
                }
                Ok(Thread(h))
            },
            Err(e) => Err(e),
        }
    }

    /// A handle to the running coroutine: for calls made from the host, the
    /// instance's main coroutine, whose identity is 0.
    pub fn current_thread(&mut self) -> (r: Result<Thread>)
        requires
            old(self).wf(),
        ensures
            Lua::keeps_env(old(self), final(self)),
            Lua::keeps_config(old(self), final(self)),
            final(self).wf(),
            r is Ok <==> old(self).ref_table().can_push(&old(self).mem()),
            r is Err ==> r->Err_0 is MemoryError && *final(self) == *old(self),
            r matches Ok(t) ==> final(self).valid_ref(&t.0) && final(self).ref_value(&t.0) == Value::Thread(ObjectId(0))
                && !old(self).ref_table().live().contains(t.0.spec_index())
                && final(self).ref_table().live() == old(self).ref_table().live().insert(t.0.spec_index()),
    {
        match self.push_root(Value::Thread(ObjectId(0))) {
            Ok(h) => Ok(Thread(h)),
            Err(e) => Err(e),
        }
    }

    /// The bytes of buffer `id`.
    pub closed spec fn buffer_data(&self, id: int) -> Seq<u8> {
        self.buffers@[id]@
    }


    /// A new buffer holding a copy of `data`.
    pub fn create_buffer(&mut self, data: &[u8]) -> (r: Result<crate::buffer::Buffer>)
        requires
            old(self).wf(),
        ensures
            Lua::keeps_env(old(self), final(self)),
            Lua::keeps_config(old(self), final(self)),
            final(self).wf(),
            final(self).spec_id() == old(self).spec_id(),
            final(self).limit() == old(self).limit(),
            data@.len() > MAX_BUFFER_SIZE ==> r is Err && r->Err_0 is RuntimeError && *final(self) == *old(self),
            data@.len() <= MAX_BUFFER_SIZE ==> {
                &&& r is Ok <==> old(self).can_hold((BUFFER_HEADER_SIZE + data@.len()) as nat)
                    && old(self).buffer_count() < MAX_BUFFERS
                &&& r is Err ==> r->Err_0 is MemoryError && *final(self) == *old(self)
                &&& r matches Ok(b) ==> Lua::created(
                    old(self),
                    final(self),
                    &b.0,
                    Value::Buffer(ObjectId(old(self).buffer_count() as u64)),
                    (BUFFER_HEADER_SIZE + data@.len()) as nat,
                ) && final(self).buffer_count() == old(self).buffer_count() + 1
                    && final(self).buffer_data(old(self).buffer_count() as int) == data@
                    && forall|i: int| 0 <= i < old(self).buffer_count() ==> #[trigger] final(self).buffer_data(i) == old(self).buffer_data(i)
            },
    {
        if data.len() > MAX_BUFFER_SIZE {
            return Err(Error::runtime("buffer size too large"));
        }
        if self.buffers.len() >= MAX_BUFFERS {
            return Err(memory_error());
        }
        let oid = ObjectId(self.buffers.len() as u64);
        match self.new_object(BUFFER_HEADER_SIZE + data.len(), Value::Buffer(oid)) {
            Ok(h) => {
                let mut bytes: Vec<u8> = Vec::new();
                let mut i: usize = 0;
                while i < data.len()
                    invariant
                        i <= data@.len(),
                        bytes@ == data@.subrange(0, i as int),
                    decreases data.len() - i,
                {
                    bytes.push(data[i]);
                    i = i + 1;
                    proof {
                        assert(bytes@ =~= data@.subrange(0, i as int));
                    }
                }
                assert(bytes@ =~= data@);
                let ghost mid = *self;
                self.buffers.push(bytes);
                proof {
                    Lua::lemma_env_kept(old(self), &mid, self);
                }
                proof {
                    assert forall|j: int| 0 <= j < self.buffers@.len() implies (#[trigger] self.buffers@[j])@.len()
                        <= MAX_BUFFER_SIZE by {
                        if j < self.buffers@.len() - 1 {
                            assert(self.buffers@[j] == old(self).buffers@[j]);
                        }
                    }
                }
                Ok(crate::buffer::Buffer(h))
            },
            Err(e) => Err(e),
        }
    }

    /// A new buffer of `size` zero bytes.
    pub fn create_buffer_with_capacity(&mut self, size: usize) -> (r: Result<crate::buffer::Buffer>)
        requires
            old(self).wf(),
        ensures
            Lua::keeps_env(old(self), final(self)),
            Lua::keeps_config(old(self), final(self)),
            final(self).wf(),
            final(self).spec_id() == old(self).spec_id(),
            final(self).limit() == old(self).limit(),
            size > MAX_BUFFER_SIZE ==> r is Err && r->Err_0 is RuntimeError && *final(self) == *old(self),
            size <= MAX_BUFFER_SIZE ==> {
                &&& r is Ok <==> old(self).can_hold((BUFFER_HEADER_SIZE + size) as nat)
                    && old(self).buffer_count() < MAX_BUFFERS
                &&& r is Err ==> r->Err_0 is MemoryError && *final(self) == *old(self)
                &&& r matches Ok(b) ==> Lua::created(
                    old(self),
                    final(self),
                    &b.0,
                    Value::Buffer(ObjectId(old(self).buffer_count() as u64)),
                    (BUFFER_HEADER_SIZE + size) as nat,
                ) && final(self).buffer_count() == old(self).buffer_count() + 1
                    && final(self).buffer_data(old(self).buffer_count() as int) == Seq::new(size as nat, |i: int| 0u8)
                    && forall|i: int| 0 <= i < old(self).buffer_count() ==> #[trigger] final(self).buffer_data(i) == old(self).buffer_data(i)
            },
    {
        if size > MAX_BUFFER_SIZE {
            return Err(Error::runtime("buffer size too large"));
        }
        if self.buffers.len() >= MAX_BUFFERS {
            return Err(memory_error());
        }
        let oid = ObjectId(self.buffers.len() as u64);
        match self.new_object(BUFFER_HEADER_SIZE + size, Value::Buffer(oid)) {
            Ok(h) => {
                let mut bytes: Vec<u8> = Vec::new();
                let mut i: usize = 0;
                while i < size
                    invariant
                        i <= size,
                        bytes@ == Seq::new(i as nat, |k: int| 0u8),
                    decreases size - i,
                {
                    bytes.push(0u8);
                    i = i + 1;
                    proof {
                        assert(bytes@ =~= Seq::new(i as nat, |k: int| 0u8));
                    }
                }
                let ghost mid = *self;
                self.buffers.push(bytes);
                proof {
                    Lua::lemma_env_kept(old(self), &mid, self);
                }
                proof {
                    assert forall|j: int| 0 <= j < self.buffers@.len() implies (#[trigger] self.buffers@[j])@.len()
                        <= MAX_BUFFER_SIZE by {
                        if j < self.buffers@.len() - 1 {
                            assert(self.buffers@[j] == old(self).buffers@[j]);
                        }
                    }
                }
                Ok(crate::buffer::Buffer(h))
            },
            Err(e) => Err(e),
        }
    }

    /// The identity of the buffer that `b` names, if it names one of this instance.
    pub open spec fn buffer_id(&self, b: &crate::buffer::Buffer) -> Option<int> {
        if self.ref_table().valid_ref(&b.0) && self.ref_value(&b.0) is Buffer && (self.ref_value(&b.0)->Buffer_0.0 as int)
            < self.buffer_count() {
            Some(self.ref_value(&b.0)->Buffer_0.0 as int)
        } else {
            None
        }
    }

    fn find_buffer(&self, b: &crate::buffer::Buffer) -> (r: Result<usize>)
        requires
            self.wf(),
        ensures
            !self.ref_table().valid_ref(&b.0) ==> r == Err::<usize, Error>(Error::MismatchedRegistryKey),
            r matches Ok(i) ==> self.buffer_id(b) == Some(i as int),
            self.ref_table().valid_ref(&b.0) && r is Err ==> self.buffer_id(b) is None && r->Err_0 is RuntimeError,
            self.buffer_id(b) is Some ==> r is Ok,
    {
        match self.refs.get(&b.0) {
            Ok(Value::Buffer(o)) => {
                if o.0 < self.buffers.len() as u64 {
                    Ok(o.0 as usize)
                } else {
                    Err(Error::runtime("not a buffer"))
                }
            },
            Ok(_) => Err(Error::runtime("not a buffer")),
            Err(e) => Err(e),
        }
    }

    /// Number of bytes in buffer `b`.
    pub fn buffer_len(&self, b: &crate::buffer::Buffer) -> (r: Result<usize>)
        requires
            self.wf(),
        ensures
            !self.ref_table().valid_ref(&b.0) ==> r == Err::<usize, Error>(Error::MismatchedRegistryKey),
            self.buffer_id(b) matches Some(id) ==> r == Ok::<usize, Error>(self.buffer_data(id).len() as usize)
                && self.buffer_data(id).len() <= MAX_BUFFER_SIZE,
            self.ref_table().valid_ref(&b.0) && self.buffer_id(b) is None ==> r is Err && r->Err_0 is RuntimeError,
    {
        let i = self.find_buffer(b)?;
        Ok(self.buffers[i].len())
    }

    /// Up to `want` bytes of buffer `b` from `pos`.
    pub fn buffer_read(&self, b: &crate::buffer::Buffer, pos: usize, want: usize) -> (r: Result<Vec<u8>>)
        requires
            self.wf(),
        ensures
            !self.ref_table().valid_ref(&b.0) ==> r == Err::<Vec<u8>, Error>(Error::MismatchedRegistryKey),
            self.ref_table().valid_ref(&b.0) && self.buffer_id(b) is None ==> r is Err && r->Err_0 is RuntimeError,
            self.buffer_id(b) matches Some(id) ==> r is Ok && (pos >= self.buffer_data(id).len() ==> r->Ok_0@.len() == 0)
                && (pos < self.buffer_data(id).len() ==> r->Ok_0@ == self.buffer_data(id).subrange(
                pos as int,
                pos + crate::buffer::transfer_len(self.buffer_data(id).len(), pos as nat, want as nat),
            )),
    {
        let i = self.find_buffer(b)?;
        Ok(crate::buffer::read_at(&self.buffers[i], pos, want))
    }

    /// Writes `src` into buffer `b` from `pos`, stopping at its end; returns
    /// the number of bytes written.
    pub fn buffer_write(&mut self, b: &crate::buffer::Buffer, pos: usize, src: &Vec<u8>) -> (r: Result<usize>)
        requires
            old(self).wf(),
        ensures
            Lua::keeps_env(old(self), final(self)),
            Lua::keeps_config(old(self), final(self)),
            final(self).wf(),
            final(self).spec_id() == old(self).spec_id(),
            final(self).ref_table() == old(self).ref_table(),
            final(self).regs() == old(self).regs(),
            final(self).used() == old(self).used(),
            final(self).buffer_count() == old(self).buffer_count(),
            !old(self).ref_table().valid_ref(&b.0) ==> r == Err::<usize, Error>(Error::MismatchedRegistryKey)
                && *final(self) == *old(self),
            old(self).ref_table().valid_ref(&b.0) && old(self).buffer_id(b) is None ==> r is Err && r->Err_0 is RuntimeError
                && *final(self) == *old(self),
            old(self).buffer_id(b) matches Some(id) ==> {
                let n = crate::buffer::transfer_len(old(self).buffer_data(id).len(), pos as nat, src@.len());
                &&& r == Ok::<usize, Error>(n as usize)
                &&& final(self).buffer_data(id).len() == old(self).buffer_data(id).len()
                &&& forall|k: int| 0 <= k < old(self).buffer_data(id).len() ==> #[trigger] final(self).buffer_data(id)[k]
                    == if pos <= k < pos + n { src@[k - pos] } else { old(self).buffer_data(id)[k] }
                &&& forall|j: int| 0 <= j < old(self).buffer_count() && j != id ==> #[trigger] final(self).buffer_data(j)
                    == old(self).buffer_data(j)
            },
    {
        let i = self.find_buffer(b)?;
        let mut data: Vec<u8> = Vec::new();
        std::mem::swap(&mut data, &mut self.buffers[i]);
        let n = crate::buffer::write_at(&mut data, pos, src);
        self.buffers.set(i, data);
        proof {
            assert(old(self).buffer_id(b) == Some(i as int));
            assert forall|j: int| 0 <= j < self.buffers@.len() implies (#[trigger] self.buffers@[j])@.len()
                <= MAX_BUFFER_SIZE by {
                if j != i {
                    assert(self.buffers@[j] == old(self).buffers@[j]);
                }
            }
        }
        Ok(n)
    }

    /// A new string holding `s`.
    pub fn create_string(&mut self, s: &str) -> (r: Result<LuaString>)
        requires
            old(self).wf(),
        ensures
            Lua::keeps_env(old(self), final(self)),
            Lua::keeps_config(old(self), final(self)),
            final(self).wf(),
            final(self).spec_id() == old(self).spec_id(),
            final(self).limit() == old(self).limit(),
            (s.spec_bytes().len() as usize) > MAX_BUFFER_SIZE ==> r is Err && r->Err_0 is RuntimeError && *final(self) == *old(self),
            (s.spec_bytes().len() as usize) <= MAX_BUFFER_SIZE ==> {
                &&& r is Ok <==> old(self).can_hold((STRING_HEADER_SIZE + (s.spec_bytes().len() as usize)) as nat)
                &&& r is Err ==> r->Err_0 is MemoryError && *final(self) == *old(self)
                &&& r matches Ok(h) ==> final(self).ref_value(&h.0) matches Value::String(t) && t@ == s@
                    && Lua::created(
                    old(self),
                    final(self),
                    &h.0,
                    final(self).ref_value(&h.0),
                    (STRING_HEADER_SIZE + (s.spec_bytes().len() as usize)) as nat,
                ) && final(self).next_id() == old(self).next_id()
            },
    {
        let n = s.len();
        if n > MAX_BUFFER_SIZE {
            return Err(Error::runtime("string length overflow"));
        }
        match self.new_object(STRING_HEADER_SIZE + n, Value::String(s.to_owned())) {
            Ok(h) => Ok(LuaString(h)),
            Err(e) => Err(e),
        }
    }

    /// The value that handle `h` names; a handle of another instance is refused.
    pub fn value(&self, h: &ValueRef) -> (r: Result<Value>)
        requires
            self.wf(),
        ensures
            !self.ref_table().valid_ref(h) ==> r == Err::<Value, Error>(Error::MismatchedRegistryKey),
            self.ref_table().valid_ref(h) ==> r == Ok::<Value, Error>(self.ref_value(h)),
    {
        self.refs.get(h)
    }

    /// Drops handle `h`, freeing its slot for reuse; a handle of another
    /// instance is refused.
    pub fn drop_ref(&mut self, h: ValueRef) -> (r: Result<()>)
        requires
            old(self).wf(),
        ensures
            Lua::keeps_env(old(self), final(self)),
            Lua::keeps_config(old(self), final(self)),
            final(self).wf(),
            final(self).spec_id() == old(self).spec_id(),
            final(self).used() == old(self).used(),
            final(self).limit() == old(self).limit(),
            final(self).regs() == old(self).regs(),
            !old(self).ref_table().valid_ref(&h) ==> r == Err::<(), Error>(Error::MismatchedRegistryKey)
                && *final(self) == *old(self),
            old(self).ref_table().valid_ref(&h) ==> r is Ok
                && final(self).ref_table().live() == old(self).ref_table().live().remove(h.spec_index())
                && forall|i: int| #[trigger] final(self).ref_table().live().contains(i)
                    ==> final(self).ref_table().slot(i) == old(self).ref_table().slot(i),
    {
        self.refs.drop_ref(h)
    }
}

} // verus!
