use vstd::prelude::*;

use std::collections::hash_map::RandomState;

use crate::env::Env;
use crate::lock::{LockView, ReentrantLock};
use crate::error::{memory_error, Error, Result};
use crate::memory::{alloc_granted, used_after, MemoryState};
use crate::refs::{RefThread, ValueRef};
use crate::registry::{Registry, RegistryKey, REF_NIL};
use crate::stdlib::StdLib;
use crate::suspend::ThreadPool;
use crate::value::{LightUserData, ObjectId, Value};

mod functions;
mod metatables;
mod objects;
mod pool;
mod registry_ops;
mod runtime;

pub use self::functions::{FUNCTION_SIZE, MAX_FUNCTIONS};
pub use self::metatables::TypeKind;
pub use self::runtime::{error_message, MAX_STACK};

verus! {

/// Bytes accounted for the main state and the loaded libraries.
pub const BASE_STATE_SIZE: usize = 4096;

/// Bytes accounted for a table header, an array slot and a hash node.
pub const TABLE_SIZE: usize = 56;
pub const ARRAY_SLOT_SIZE: usize = 16;
pub const NODE_SIZE: usize = 32;

/// Bytes accounted for a string header (the bytes come on top).
pub const STRING_HEADER_SIZE: usize = 24;

/// Bytes accounted for a buffer header (the bytes come on top).
pub const BUFFER_HEADER_SIZE: usize = 16;

/// Bytes accounted for a coroutine.
pub const THREAD_SIZE: usize = 256;

/// Most buffers one instance creates.
pub const MAX_BUFFERS: usize = 0x7fff_ffff;

/// Largest buffer that can be created.
pub const MAX_BUFFER_SIZE: usize = 0x4000_0000;

/// Relies on `RandomState::new`: a hasher state with fresh random keys.
pub assume_specification[ RandomState::new ]() -> RandomState;

/// Relies on `BuildHasher::hash_one`: hashes a constant with the random keys
/// of `s`, which gives a number that differs between instances with near
/// certainty. Nothing is promised of it.
#[verifier::external_body]
fn random_u64(s: &RandomState) -> u64 {
    std::hash::BuildHasher::hash_one(s, 0u8)
}

/// Every buffer fits the size limit.
spec fn buffers_bounded(b: Seq<Vec<u8>>) -> bool {
    forall|i: int| 0 <= i < b.len() ==> (#[trigger] b[i])@.len() <= MAX_BUFFER_SIZE
}

/// Mode of the garbage collector.
#[derive(Clone, Copy, Debug, PartialEq, Eq)]
pub enum GCMode {
    Incremental,
}

/// Controls interpreter behaviour such as the handling of host panics.
#[derive(Clone, Debug)]
#[non_exhaustive]
pub struct LuaOptions {
    /// Whether script-level protected calls catch host panics. Default: true.
    pub catch_rust_panics: bool,
    /// Largest number of coroutines kept for reuse by async functions. Default: 0.
    pub thread_pool_size: usize,
}

impl LuaOptions {
    /// Options with the default values.
    pub fn new() -> (r: Self)
        ensures
            r.catch_rust_panics,
            r.thread_pool_size == 0,
    {
        LuaOptions { catch_rust_panics: true, thread_pool_size: 0 }
    }

    /// Sets `catch_rust_panics`.
    pub fn catch_rust_panics(self, enabled: bool) -> (r: Self)
        ensures
            r.catch_rust_panics == enabled,
            r.thread_pool_size == self.thread_pool_size,
    {
        LuaOptions { catch_rust_panics: enabled, ..self }
    }

    /// Sets `thread_pool_size`.
    pub fn thread_pool_size(self, size: usize) -> (r: Self)
        ensures
            r.thread_pool_size == size,
            r.catch_rust_panics == self.catch_rust_panics,
    {
        LuaOptions { thread_pool_size: size, ..self }
    }
}

impl Default for LuaOptions {
    fn default() -> (r: Self)
        ensures
            r.catch_rust_panics,
            r.thread_pool_size == 0,
    {
        LuaOptions::new()
    }
}

/// A handle to a table.
#[derive(Debug)]
pub struct Table(pub ValueRef);

/// A handle to a string.
#[derive(Debug)]
pub struct LuaString(pub ValueRef);

/// A handle to a host function callable from scripts.
#[derive(Debug)]
pub struct Function(pub ValueRef);

/// A handle to a coroutine.
#[derive(Debug)]
pub struct Thread(pub ValueRef);

/// Collector settings.
struct GcState {
    running: bool,
    goal: i32,
    step_multiplier: i32,
    step_size: i32,
}

/// Per-instance side data that callbacks reach from the VM.
struct ExtraData {
    sandboxed: bool,
    running_gc: bool,
    enable_jit: bool,
    options: LuaOptions,
    libs: StdLib,
    thread_creation_callback: bool,
    thread_collection_callback: bool,
    interrupt_callback: bool,
}

/// One instance of the VM with the safe layer's bookkeeping around it: the
/// value stack, the reference table behind host handles, the registry and its
/// keys, the global environment with the sandbox overlay, the memory
/// accounting, and the per-instance side data.
pub struct Lua {
    id: u64,
    stack: Vec<Value>,
    refs: RefThread,
    registry: Registry,
    named: Env,
    modules: Env,
    tables: Vec<Env>,
    arrays: Vec<Vec<Value>>,
    globals_table: usize,
    overlay: Env,
    memory: MemoryState,
    memory_control: bool,
    gc: GcState,
    extra: ExtraData,
    next_object: u64,
    lock: ReentrantLock,
    buffers: Vec<Vec<u8>>,
    type_metatables: Vec<Option<ObjectId>>,
    functions: Vec<FunctionState>,
    pool: ThreadPool,
    objects: Vec<ObjectRecord>,
    collected_threads: Vec<LightUserData>,
}

/// A collectable object: the value that names it, the bytes it took, and
/// whether it is still alive.
#[derive(Debug)]
struct ObjectRecord {
    value: Value,
    size: usize,
    alive: bool,
}

/// Bytes held by the live objects of `s`.
spec fn alive_bytes(s: Seq<ObjectRecord>) -> nat
    decreases s.len(),
{
    if s.len() == 0 {
        0
    } else {
        alive_bytes(s.drop_last()) + (if s.last().alive { s.last().size as nat } else { 0 })
    }
}

proof fn lemma_alive_bytes_push(s: Seq<ObjectRecord>, r: ObjectRecord)
    ensures
        alive_bytes(s.push(r)) == alive_bytes(s) + (if r.alive { r.size as nat } else { 0 }),
{
    assert(s.push(r).drop_last() =~= s);
}

proof fn lemma_alive_bytes_kill(s: Seq<ObjectRecord>, i: int, r: ObjectRecord)
    requires
        0 <= i < s.len(),
        s[i].alive,
        !r.alive,
        r.size == s[i].size,
    ensures
        alive_bytes(s.update(i, r)) + s[i].size == alive_bytes(s),
    decreases s.len(),
{
    if i == s.len() - 1 {
        assert(s.update(i, r).drop_last() =~= s.drop_last());
    } else {
        lemma_alive_bytes_kill(s.drop_last(), i, r);
        assert(s.update(i, r).drop_last() =~= s.drop_last().update(i, r));
    }
}

/// The coroutines among the first `n` objects that died between `old` and
/// `new`, in object order, when the collection hook is set.
spec fn events_upto(old: Seq<ObjectRecord>, new: Seq<ObjectRecord>, n: int, hook: bool) -> Seq<LightUserData>
    decreases n,
{
    if n <= 0 {
        Seq::empty()
    } else {
        events_upto(old, new, n - 1, hook) + (if hook && old[n - 1].alive && !new[n - 1].alive
            && old[n - 1].value is Thread {
            seq![LightUserData(old[n - 1].value->Thread_0.0 as usize)]
        } else {
            Seq::empty()
        })
    }
}

proof fn lemma_events_prefix(old: Seq<ObjectRecord>, a: Seq<ObjectRecord>, b: Seq<ObjectRecord>, n: int, hook: bool)
    requires
        forall|j: int| 0 <= j < n ==> a[j] == b[j],
    ensures
        events_upto(old, a, n, hook) == events_upto(old, b, n, hook),
    decreases n,
{
    if n > 0 {
        lemma_events_prefix(old, a, b, n - 1, hook);
    }
}

/// Largest array or hash part a table is created with.
pub const MAX_TABLE_SLOTS: usize = 0x0400_0000;

/// Most tables one instance creates.
pub const MAX_TABLES: usize = 0x7fff_ffff;

/// Most collectable objects one instance creates.
pub const MAX_OBJECTS: usize = 0x7fff_ffff;

/// Bookkeeping of one host function: whether it takes `&mut` state, and
/// whether it is running now.
#[derive(Debug, Clone, Copy)]
struct FunctionState {
    mutable: bool,
    running: bool,
}

impl Lua {
    /// Identity of the VM instance; handles and keys carry the identity of the instance that made them.
    pub closed spec fn spec_id(&self) -> u64 {
        self.id
    }

    /// The instance's bookkeeping is consistent.
    pub closed spec fn wf(&self) -> bool {
        &&& self.refs.wf()
        &&& self.registry.wf()
        &&& self.refs.spec_owner() == self.id
        &&& self.registry.spec_owner() == self.id
        &&& self.lock.wf()
        &&& buffers_bounded(self.buffers@)
        &&& self.type_metatables@.len() == 8
        &&& self.pool.wf()
        &&& self.pool.spec_capacity() == self.extra.options.thread_pool_size
        &&& self.objects@.len() <= MAX_OBJECTS
        &&& self.globals_table < self.tables@.len()
        &&& self.tables@.len() <= MAX_TABLES
        &&& self.arrays@.len() == self.tables@.len()
        &&& alive_bytes(self.objects@) <= self.memory.used()
    }

    /// `new` has the identity, configuration and memory ceiling of `old`.
    pub open spec fn keeps_config(old: &Lua, new: &Lua) -> bool {
        &&& new.spec_id() == old.spec_id()
        &&& new.has_memory_control() == old.has_memory_control()
        &&& new.limit() == old.limit()
        &&& new.options() == old.options()
        &&& new.libs() == old.libs()
    }

    proof fn lemma_env_kept(old: &Lua, mid: &Lua, new: &Lua)
        requires
            Lua::keeps_env(old, mid),
            new.globals_table == mid.globals_table,
            new.tables@[new.globals_table as int] == mid.tables@[mid.globals_table as int],
            new.overlay == mid.overlay,
            new.named == mid.named,
            new.modules == mid.modules,
            new.extra.sandboxed == mid.extra.sandboxed,
        ensures
            Lua::keeps_env(old, new),
    {
        assert forall|k: Seq<char>| #[trigger] new.global(k) == old.global(k) by {
            assert(mid.global(k) == old.global(k));
        }
        assert forall|k: Seq<char>| #[trigger] new.base_global(k) == old.base_global(k) by {
            assert(mid.base_global(k) == old.base_global(k));
        }
        assert forall|k: Seq<char>| #[trigger] new.named_value(k) == old.named_value(k) by {
            assert(mid.named_value(k) == old.named_value(k));
        }
        assert forall|k: Seq<char>| #[trigger] new.module(k) == old.module(k) by {
            assert(mid.module(k) == old.module(k));
        }
    }

    /// `new` has the objects, tables, buffers, functions and pending
    /// collection events of `old`.
    pub open spec fn keeps_objects(old: &Lua, new: &Lua) -> bool {
        &&& new.object_count() == old.object_count()
        &&& new.table_count() == old.table_count()
        &&& new.buffer_count() == old.buffer_count()
        &&& new.function_count() == old.function_count()
        &&& new.next_id() == old.next_id()
        &&& new.collected_threads() == old.collected_threads()
    }

    /// `new` reads every global, named registry value and module as `old` does.
    pub open spec fn keeps_env(old: &Lua, new: &Lua) -> bool {
        &&& new.is_sandboxed() == old.is_sandboxed()
        &&& forall|k: Seq<char>| #[trigger] new.global(k) == old.global(k)
        &&& forall|k: Seq<char>| #[trigger] new.base_global(k) == old.base_global(k)
        &&& forall|k: Seq<char>| #[trigger] new.named_value(k) == old.named_value(k)
        &&& forall|k: Seq<char>| #[trigger] new.module(k) == old.module(k)
    }

    /// Bytes in use.
    pub open spec fn used(&self) -> nat {
        self.mem().used()
    }

    /// The memory ceiling (zero: none).
    pub open spec fn limit(&self) -> nat {
        self.mem().limit()
    }

    /// The memory accounting.
    pub closed spec fn mem(&self) -> MemoryState {
        self.memory
    }

    /// Whether the allocator is under this layer's control.
    pub closed spec fn has_memory_control(&self) -> bool {
        self.memory_control
    }

    /// Whether sandbox mode is on.
    pub closed spec fn is_sandboxed(&self) -> bool {
        self.extra.sandboxed
    }

    /// Whether a collection hook is running, during which the instance may not be entered.
    pub closed spec fn is_collecting(&self) -> bool {
        self.extra.running_gc
    }

    /// The value stack, bottom first.
    pub closed spec fn stack_view(&self) -> Seq<Value> {
        self.stack@
    }

    /// Coroutines kept for reuse, the next one to hand out last.
    pub closed spec fn pool_view(&self) -> Seq<ObjectId> {
        self.pool.view()
    }

    /// The options the instance was made with.
    pub closed spec fn options(&self) -> LuaOptions {
        self.extra.options
    }

    /// The standard libraries the instance was made with.
    pub closed spec fn libs(&self) -> StdLib {
        self.extra.libs
    }

    /// The registry slots and key bookkeeping.
    pub closed spec fn regs(&self) -> Registry {
        self.registry
    }

    /// The reference table behind value handles.
    pub closed spec fn ref_table(&self) -> RefThread {
        self.refs
    }

    /// What global `name` reads as from script code.
    pub closed spec fn global(&self, name: Seq<char>) -> Value {
        if self.extra.sandboxed && !(self.overlay.get_spec(name) is Nil) {
            self.overlay.get_spec(name)
        } else {
            self.tables@[self.globals_table as int].get_spec(name)
        }
    }

    /// What global `name` reads as in the shared (non-sandbox) environment.
    pub closed spec fn base_global(&self, name: Seq<char>) -> Value {
        self.tables@[self.globals_table as int].get_spec(name)
    }

    /// What field `name` of table `id` reads as.
    pub closed spec fn table_field(&self, id: int, name: Seq<char>) -> Value {
        self.tables@[id].get_spec(name)
    }

    /// The sequence part of table `id`: its values under keys 1, 2, ...
    pub closed spec fn table_array(&self, id: int) -> Seq<Value> {
        self.arrays@[id]@
    }

    /// Number of tables made so far; the next one gets this identity.
    pub closed spec fn table_count(&self) -> nat {
        self.tables@.len()
    }

    /// The table that holds the global environment.
    pub closed spec fn globals_id(&self) -> int {
        self.globals_table as int
    }

    /// The registry value named `name` (nil when unset).
    pub closed spec fn named_value(&self, name: Seq<char>) -> Value {
        self.named.get_spec(name)
    }

    /// The module registered under the (lower-case) name `name` (nil when none).
    pub closed spec fn module(&self, name: Seq<char>) -> Value {
        self.modules.get_spec(name)
    }

    /// A new instance with the safe subset of the standard libraries.
    pub fn new() -> (r: Lua)
        ensures
            r.wf(),
            r.has_memory_control(),
            r.used() == BASE_STATE_SIZE,
            r.limit() == 0,
            !r.is_sandboxed(),
            !r.is_collecting(),
            r.stack_view().len() == 0,
            r.libs().0 == 0xffff_ffffu32,
            r.options().catch_rust_panics,
            r.options().thread_pool_size == 0,
            r.regs().live() == Set::<int>::empty(),
            r.ref_table().live() == Set::<int>::empty(),
            r.regs().len() == 0,
            r.regs().pending().len() == 0,
            r.regs().released().len() == 0,
            r.ref_table().len() == 0,
            r.ref_table().free_slots().len() == 0,
            r.object_count() == 0,
            r.table_count() == 1,
            r.globals_id() == 0,
            r.collected_threads().len() == 0,
            forall|k: Seq<char>| #[trigger] r.global(k) == Value::Nil,
            forall|k: Seq<char>| #[trigger] r.base_global(k) == Value::Nil,
            forall|k: Seq<char>| #[trigger] r.named_value(k) == Value::Nil,
            forall|k: Seq<char>| #[trigger] r.module(k) == Value::Nil,
    {
        Lua::new_with(StdLib::all_safe(), LuaOptions::new())
    }

    /// A new instance with the libraries `libs` and the options `options`.
    pub fn new_with(libs: StdLib, options: LuaOptions) -> (r: Lua)
        ensures
            r.wf(),
            r.has_memory_control(),
            r.used() == BASE_STATE_SIZE,
            r.limit() == 0,
            !r.is_sandboxed(),
            !r.is_collecting(),
            r.stack_view().len() == 0,
            r.libs() == libs,
            r.options() == options,
            r.regs().live() == Set::<int>::empty(),
            r.ref_table().live() == Set::<int>::empty(),
            r.regs().len() == 0,
            r.regs().pending().len() == 0,
            r.regs().released().len() == 0,
            r.ref_table().len() == 0,
            r.ref_table().free_slots().len() == 0,
            r.object_count() == 0,
            r.table_count() == 1,
            r.globals_id() == 0,
            r.collected_threads().len() == 0,
            forall|k: Seq<char>| #[trigger] r.global(k) == Value::Nil,
            forall|k: Seq<char>| #[trigger] r.base_global(k) == Value::Nil,
            forall|k: Seq<char>| #[trigger] r.named_value(k) == Value::Nil,
            forall|k: Seq<char>| #[trigger] r.module(k) == Value::Nil,
    {
        Lua::build(libs, options, true)
    }

    /// A new instance whose allocator belongs to its embedder: the memory in
    /// use is still reported, but no limit can be set.
    pub fn new_unmanaged(libs: StdLib, options: LuaOptions) -> (r: Lua)
        ensures
            r.wf(),
            !r.has_memory_control(),
            r.used() == BASE_STATE_SIZE,
            r.limit() == 0,
            !r.is_sandboxed(),
            !r.is_collecting(),
            r.stack_view().len() == 0,
            r.libs() == libs,
            r.options() == options,
            r.regs().live() == Set::<int>::empty(),
            r.ref_table().live() == Set::<int>::empty(),
            r.regs().len() == 0,
            r.regs().pending().len() == 0,
            r.regs().released().len() == 0,
            r.ref_table().len() == 0,
            r.ref_table().free_slots().len() == 0,
            r.object_count() == 0,
            r.table_count() == 1,
            r.globals_id() == 0,
            r.collected_threads().len() == 0,
            forall|k: Seq<char>| #[trigger] r.global(k) == Value::Nil,
            forall|k: Seq<char>| #[trigger] r.base_global(k) == Value::Nil,
            forall|k: Seq<char>| #[trigger] r.named_value(k) == Value::Nil,
            forall|k: Seq<char>| #[trigger] r.module(k) == Value::Nil,
    {
        Lua::build(libs, options, false)
    }

    fn build(libs: StdLib, options: LuaOptions, memory_control: bool) -> (r: Lua)
        ensures
            r.wf(),
            r.has_memory_control() == memory_control,
            r.used() == BASE_STATE_SIZE,
            r.limit() == 0,
            !r.is_sandboxed(),
            !r.is_collecting(),
            r.stack_view().len() == 0,
            r.libs() == libs,
            r.options() == options,
            r.regs().live() == Set::<int>::empty(),
            r.ref_table().live() == Set::<int>::empty(),
            r.regs().len() == 0,
            r.regs().pending().len() == 0,
            r.regs().released().len() == 0,
            r.ref_table().len() == 0,
            r.ref_table().free_slots().len() == 0,
            r.object_count() == 0,
            r.table_count() == 1,
            r.globals_id() == 0,
            r.collected_threads().len() == 0,
            forall|k: Seq<char>| #[trigger] r.global(k) == Value::Nil,
            forall|k: Seq<char>| #[trigger] r.base_global(k) == Value::Nil,
            forall|k: Seq<char>| #[trigger] r.named_value(k) == Value::Nil,
            forall|k: Seq<char>| #[trigger] r.module(k) == Value::Nil,
    {
        let pool = ThreadPool::new(options.thread_pool_size);
        let mut tables: Vec<Env> = Vec::new();
        tables.push(Env::new());
        let mut arrays: Vec<Vec<Value>> = Vec::new();
        arrays.push(Vec::new());
        let seed = RandomState::new();
        let id = random_u64(&seed);
        let mut memory = MemoryState::new();
        memory.allocate(BASE_STATE_SIZE);
        Lua {
            id,
            stack: Vec::new(),
            refs: RefThread::new(id),
            registry: Registry::new(id),
            named: Env::new(),
            modules: Env::new(),
            tables,
            arrays,
            globals_table: 0,
            overlay: Env::new(),
            memory,
            memory_control,
            gc: GcState { running: true, goal: 200, step_multiplier: 200, step_size: 1024 },
            extra: ExtraData {
                sandboxed: false,
                running_gc: false,
                enable_jit: true,
                options,
                libs,
                thread_creation_callback: false,
                thread_collection_callback: false,
                interrupt_callback: false,
            },
            lock: ReentrantLock::new(),
            buffers: Vec::new(),
            type_metatables: vec![None, None, None, None, None, None, None, None],
            functions: Vec::new(),
            pool,
            objects: Vec::new(),
            collected_threads: Vec::new(),
            next_object: 1,
        }
    }
}

impl Lua {
    /// Bytes currently in use by this instance.
    pub fn used_memory(&self) -> (r: usize)
        ensures
            r == self.used(),
    {
        self.memory.used_memory()
    }

    /// Sets the memory ceiling in bytes (zero: none) and returns the previous one.
    /// Allocations that would pass it fail with a memory error from then on.
    pub fn set_memory_limit(&mut self, limit: usize) -> (r: Result<usize>)
        ensures
            Lua::keeps_objects(old(self), final(self)),
            Lua::keeps_env(old(self), final(self)),
            final(self).wf() == old(self).wf(),
            final(self).used() == old(self).used(),
            final(self).has_memory_control() == old(self).has_memory_control(),
            final(self).is_sandboxed() == old(self).is_sandboxed(),
            final(self).regs() == old(self).regs(),
            final(self).ref_table() == old(self).ref_table(),
            final(self).spec_id() == old(self).spec_id(),
            old(self).has_memory_control() ==> r == Ok::<usize, Error>(old(self).limit() as usize)
                && final(self).limit() == limit,
            !old(self).has_memory_control() ==> r == Err::<usize, Error>(Error::MemoryControlNotAvailable)
                && *final(self) == *old(self),
            final(self).stack_view() == old(self).stack_view(),
    {
        if !self.memory_control {
            return Err(Error::MemoryControlNotAvailable);
        }
        Ok(self.memory.set_memory_limit(limit))
    }

    /// True while the collector runs on its own.
    pub fn gc_is_running(&self) -> (r: bool)
        ensures
            r == self.gc_is_running_spec(),
    {
        self.gc.running
    }

    /// Stops the collector from running on its own.
    pub fn gc_stop(&mut self)
        ensures
            Lua::keeps_objects(old(self), final(self)),
            Lua::keeps_env(old(self), final(self)),
            Lua::keeps_config(old(self), final(self)),
            !final(self).gc_is_running_spec(),
            final(self).wf() == old(self).wf(),
    {
        self.gc.running = false;
    }

    /// Lets the collector run on its own again.
    pub fn gc_restart(&mut self)
        ensures
            Lua::keeps_objects(old(self), final(self)),
            Lua::keeps_env(old(self), final(self)),
            Lua::keeps_config(old(self), final(self)),
            final(self).gc_is_running_spec(),
            final(self).wf() == old(self).wf(),
    {
        self.gc.running = true;
    }

    /// Whether the collector runs on its own.
    pub closed spec fn gc_is_running_spec(&self) -> bool {
        self.gc.running
    }

    /// The collector's goal, step multiplier and step size.
    pub closed spec fn gc_params(&self) -> (i32, i32, i32) {
        (self.gc.goal, self.gc.step_multiplier, self.gc.step_size)
    }

    /// Sets the collector's goal and returns the previous one.
    pub fn gc_set_pause(&mut self, pause: i32) -> (r: i32)
        ensures
            Lua::keeps_objects(old(self), final(self)),
            Lua::keeps_env(old(self), final(self)),
            Lua::keeps_config(old(self), final(self)),
            r == old(self).gc_params().0,
            final(self).gc_params() == (pause, old(self).gc_params().1, old(self).gc_params().2),
            final(self).wf() == old(self).wf(),
    {
        let prev = self.gc.goal;
        self.gc.goal = pause;
        prev
    }

    /// Sets the collector's step multiplier and returns the previous one.
    pub fn gc_set_step_multiplier(&mut self, step_multiplier: i32) -> (r: i32)
        ensures
            Lua::keeps_objects(old(self), final(self)),
            Lua::keeps_env(old(self), final(self)),
            Lua::keeps_config(old(self), final(self)),
            r == old(self).gc_params().1,
            final(self).gc_params() == (old(self).gc_params().0, step_multiplier, old(self).gc_params().2),
            final(self).wf() == old(self).wf(),
    {
        let prev = self.gc.step_multiplier;
        self.gc.step_multiplier = step_multiplier;
        prev
    }

    /// Puts the collector in incremental mode; each positive argument replaces
    /// the matching setting. Returns the previous mode.
    pub fn gc_inc(&mut self, pause: i32, step_multiplier: i32, step_size: i32) -> (r: GCMode)
        ensures
            Lua::keeps_objects(old(self), final(self)),
            Lua::keeps_env(old(self), final(self)),
            Lua::keeps_config(old(self), final(self)),
            r == GCMode::Incremental,
            final(self).gc_params() == (
                if pause > 0 { pause } else { old(self).gc_params().0 },
                if step_multiplier > 0 { step_multiplier } else { old(self).gc_params().1 },
                if step_size > 0 { step_size } else { old(self).gc_params().2 },
            ),
            final(self).wf() == old(self).wf(),
    {
        if pause > 0 {
            self.gc.goal = pause;
        }
        if step_multiplier > 0 {
            self.gc.step_multiplier = step_multiplier;
        }
        if step_size > 0 {
            self.gc.step_size = step_size;
        }
        GCMode::Incremental
    }

    /// Steps the collector as though `kbytes` had been allocated. The
    /// collector here is not incremental: each step runs a whole cycle, so it
    /// always reports a finished cycle.
    pub fn gc_step_kbytes(&mut self, kbytes: i32) -> (r: Result<bool>)
        requires
            old(self).wf(),
            !old(self).is_collecting(),
        ensures
            r == Ok::<bool, Error>(true),
            Lua::collected(old(self), final(self)),
    {
        let _ = self.gc_collect();
        Ok(true)
    }

    /// Steps the collector one indivisible step; true when a cycle finished.
    pub fn gc_step(&mut self) -> (r: Result<bool>)
        requires
            old(self).wf(),
            !old(self).is_collecting(),
        ensures
            r == Ok::<bool, Error>(true),
            Lua::collected(old(self), final(self)),
    {
        self.gc_step_kbytes(0)
    }

    /// `new` is `old` after a full collection: the objects that nothing
    /// tracked mentions any more are dead and their bytes given back.
    pub open spec fn collected(old: &Lua, new: &Lua) -> bool {
        &&& new.wf()
        &&& Lua::keeps_config(old, new)
        &&& Lua::keeps_env(old, new)
        &&& new.stack_view() == old.stack_view()
        &&& new.regs() == old.regs()
        &&& new.ref_table() == old.ref_table()
        &&& new.object_count() == old.object_count()
        &&& forall|i: int| 0 <= i < old.object_count() ==> #[trigger] new.object_alive(i) == (old.object_alive(i)
            && old.mentioned(old.object_value(i)))
        &&& forall|i: int| 0 <= i < old.object_count() ==> #[trigger] new.object_value(i) == old.object_value(i)
        &&& new.used() + old.live_bytes() == old.used() + new.live_bytes()
        &&& new.used() <= old.used()
        &&& new.collected_threads() == old.collected_threads() + Lua::thread_events(old, new)
        &&& new.collection_hook() == old.collection_hook()
        &&& new.is_collecting() == old.is_collecting()
    }

    /// Whether something the layer tracks still mentions `v`: a live handle, a
    /// registry slot, the stack, an environment, a type metatable or the
    /// coroutine pool.
    pub closed spec fn mentioned(&self, v: Value) -> bool {
        ||| exists|i: int| #[trigger] self.refs.live().contains(i) && self.refs.slot(i).same_spec(v)
        ||| exists|id: int| 1 <= id <= self.registry.len() && #[trigger] self.registry.slot(id).same_spec(v)
        ||| exists|j: int| 0 <= j < self.stack@.len() && (#[trigger] self.stack@[j]).same_spec(v)
        ||| exists|t: int, i: int| 0 <= t < self.tables@.len() && 0 <= i < self.tables@[t].log().len()
            && crate::env::is_latest(self.tables@[t].log(), i) && (#[trigger] self.tables@[t].log()[i].1).same_spec(v)
        ||| exists|t: int, i: int| 0 <= t < self.arrays@.len() && 0 <= i < self.arrays@[t]@.len()
            && (#[trigger] self.arrays@[t]@[i]).same_spec(v)
        ||| v == Value::Table(ObjectId(self.globals_table as u64))
        ||| exists|i: int| 0 <= i < self.overlay.log().len() && crate::env::is_latest(self.overlay.log(), i) && (#[trigger] self.overlay.log()[i].1).same_spec(v)
        ||| exists|i: int| 0 <= i < self.named.log().len() && crate::env::is_latest(self.named.log(), i) && (#[trigger] self.named.log()[i].1).same_spec(v)
        ||| exists|i: int| 0 <= i < self.modules.log().len() && crate::env::is_latest(self.modules.log(), i) && (#[trigger] self.modules.log()[i].1).same_spec(v)
        ||| (v is Table && self.type_metatables@.contains(Some(v->Table_0)))
        ||| (v is Thread && self.pool.view().contains(v->Thread_0))
    }

    fn stack_mentions(&self, v: &Value) -> (r: bool)
        ensures
            r == exists|j: int| 0 <= j < self.stack@.len() && (#[trigger] self.stack@[j]).same_spec(*v),
    {
        let mut j: usize = 0;
        while j < self.stack.len()
            invariant
                j <= self.stack@.len(),
                forall|k: int| 0 <= k < j ==> !(#[trigger] self.stack@[k]).same_spec(*v),
            decreases self.stack.len() - j,
        {
            if self.stack[j].same(v) {
                return true;
            }
            j = j + 1;
        }
        false
    }

    fn metatables_mention(&self, v: &Value) -> (r: bool)
        ensures
            r == (*v is Table && self.type_metatables@.contains(Some(v->Table_0))),
    {
        let o = match v {
            Value::Table(o) => *o,
            _ => {
                return false;
            },
        };
        let mut k: usize = 0;
        while k < self.type_metatables.len()
            invariant
                *v == Value::Table(o),
                k <= self.type_metatables@.len(),
                forall|m: int| 0 <= m < k ==> self.type_metatables@[m] != Some(o),
            decreases self.type_metatables.len() - k,
        {
            match self.type_metatables[k] {
                Some(t) => {
                    if t.0 == o.0 {
                        assert(self.type_metatables@[k as int] == Some(o));
                        assert(self.type_metatables@.contains(Some(o)));
                        return true;
                    }
                },
                None => {},
            }
            k = k + 1;
        }
        false
    }

    fn arrays_mention(&self, v: &Value) -> (r: bool)
        ensures
            r == exists|t: int, i: int| 0 <= t < self.arrays@.len() && 0 <= i < self.arrays@[t]@.len()
                && (#[trigger] self.arrays@[t]@[i]).same_spec(*v),
    {
        let mut t: usize = 0;
        while t < self.arrays.len()
            invariant
                t <= self.arrays@.len(),
                forall|u: int, i: int| 0 <= u < t && 0 <= i < self.arrays@[u]@.len() ==> !(#[trigger] self.arrays@[u]@[i]).same_spec(*v),
            decreases self.arrays.len() - t,
        {
            let mut i: usize = 0;
            while i < self.arrays[t].len()
                invariant
                    t < self.arrays@.len(),
                    i <= self.arrays@[t as int]@.len(),
                    forall|u: int, j: int| 0 <= u < t && 0 <= j < self.arrays@[u]@.len() ==> !(#[trigger] self.arrays@[u]@[j]).same_spec(*v),
                    forall|j: int| 0 <= j < i ==> !(#[trigger] self.arrays@[t as int]@[j]).same_spec(*v),
                decreases self.arrays@[t as int]@.len() - i,
            {
                if self.arrays[t][i].same(v) {
                    assert(self.arrays@[t as int]@[i as int].same_spec(*v));
                    return true;
                }
                i = i + 1;
            }
            t = t + 1;
        }
        false
    }

    fn tables_mention(&self, v: &Value) -> (r: bool)
        ensures
            r == exists|t: int, i: int| 0 <= t < self.tables@.len() && 0 <= i < self.tables@[t].log().len()
                && crate::env::is_latest(self.tables@[t].log(), i) && (#[trigger] self.tables@[t].log()[i].1).same_spec(*v),
    {
        let mut t: usize = 0;
        while t < self.tables.len()
            invariant
                t <= self.tables@.len(),
                forall|u: int, i: int| 0 <= u < t && 0 <= i < self.tables@[u].log().len() ==> !(crate::env::is_latest(
                    self.tables@[u].log(),
                    i,
                ) && (#[trigger] self.tables@[u].log()[i].1).same_spec(*v)),
            decreases self.tables.len() - t,
        {
            if self.tables[t].mentions(v) {
                return true;
            }
            t = t + 1;
        }
        false
    }

    fn is_mentioned(&self, v: &Value) -> (r: bool)
        requires
            self.wf(),
        ensures
            r == self.mentioned(*v),
    {
        if self.refs.mentions(v) || self.registry.mentions(v) || self.stack_mentions(v) || self.tables_mention(v)
            || self.arrays_mention(v)
            || v.same(&Value::Table(ObjectId(self.globals_table as u64)))
            || self.overlay.mentions(v) || self.named.mentions(v) || self.modules.mentions(v)
            || self.metatables_mention(v) {
            return true;
        }
        match v {
            Value::Thread(o) => self.pool.contains(*o),
            _ => false,
        }
    }

    /// Runs a full collection cycle: every object that nothing tracked
    /// mentions any more dies and its bytes are given back.
    pub fn gc_collect(&mut self) -> (r: Result<()>)
        requires
            old(self).wf(),
            !old(self).is_collecting(),
        ensures
            r is Ok,
            Lua::collected(old(self), final(self)),
    {
        let ghost start = *self;
        let mut i: usize = 0;
        while i < self.objects.len()
            invariant
                start.wf(),
                self.wf(),
                i <= self.objects@.len(),
                self.objects@.len() == start.objects@.len(),
                self.refs == start.refs,
                self.registry == start.registry,
                self.stack == start.stack,
                self.tables == start.tables,
                self.arrays == start.arrays,
                self.globals_table == start.globals_table,
                self.overlay == start.overlay,
                self.named == start.named,
                self.modules == start.modules,
                self.type_metatables == start.type_metatables,
                self.pool == start.pool,
                self.id == start.id,
                self.memory_control == start.memory_control,
                self.extra == start.extra,
                self.memory.limit() == start.memory.limit(),
                self.collected_threads@ == start.collected_threads@ + events_upto(
                    start.objects@,
                    self.objects@,
                    i as int,
                    start.extra.thread_collection_callback,
                ),
                forall|j: int| 0 <= j < self.objects@.len() ==> #[trigger] self.objects@[j].value == start.objects@[j].value,
                forall|j: int| 0 <= j < i ==> #[trigger] self.objects@[j].alive == (start.objects@[j].alive
                    && start.mentioned(start.objects@[j].value)),
                forall|j: int| i <= j < self.objects@.len() ==> #[trigger] self.objects@[j] == start.objects@[j],
                self.memory.used() + alive_bytes(start.objects@) == start.memory.used() + alive_bytes(self.objects@),
                alive_bytes(self.objects@) <= alive_bytes(start.objects@),
            decreases self.objects.len() - i,
        {
            assert(self.mentioned(self.objects@[i as int].value) == start.mentioned(start.objects@[i as int].value));
            if self.objects[i].alive && !self.is_mentioned(&self.objects[i].value) {
                let size = self.objects[i].size;
                let dead = ObjectRecord { value: self.objects[i].value.duplicate(), size, alive: false };
                proof {
                    lemma_alive_bytes_kill(self.objects@, i as int, dead);
                }
                let ghost before = self.objects@;
                self.objects.set(i, dead);
                self.memory.free(size);
                proof {
                    lemma_events_prefix(start.objects@, before, self.objects@, i as int, start.extra.thread_collection_callback);
                }
                if self.extra.thread_collection_callback {
                    match &self.objects[i].value {
                        Value::Thread(o) => {
                            self.collected_threads.push(LightUserData(o.0 as usize));
                        },
                        _ => {},
                    }
                }
                proof {
                    assert(self.collected_threads@ =~= start.collected_threads@ + events_upto(
                        start.objects@,
                        self.objects@,
                        i + 1,
                        start.extra.thread_collection_callback,
                    ));
                }
            } else {
                proof {
                    assert(self.collected_threads@ =~= start.collected_threads@ + events_upto(
                        start.objects@,
                        self.objects@,
                        i + 1,
                        start.extra.thread_collection_callback,
                    ));
                }
            }
            i = i + 1;
        }
        Ok(())
    }

    /// `new` is `old` after asking for sandbox mode `enabled`.
    pub open spec fn sandbox_step(old: Lua, new: Lua, enabled: bool) -> bool {
        &&& new.is_sandboxed() == enabled
        &&& new.wf() == old.wf()
        &&& new.regs() == old.regs()
        &&& new.ref_table() == old.ref_table()
        &&& new.spec_id() == old.spec_id()
        &&& new.used() == old.used()
        &&& new.limit() == old.limit()
        &&& forall|k: Seq<char>| #[trigger] new.base_global(k) == old.base_global(k)
        &&& old.is_sandboxed() == enabled ==> forall|k: Seq<char>| #[trigger] new.global(k) == old.global(k)
        &&& old.is_sandboxed() != enabled ==> forall|k: Seq<char>| #[trigger] new.global(k) == new.base_global(k)
    }

    /// Turns sandbox mode on or off. Turning it on makes the shared globals
    /// read-only and sends script writes to a local overlay; turning it off
    /// drops the overlay. Asking for the current mode changes nothing.
    pub fn sandbox(&mut self, enabled: bool) -> (r: Result<()>)
        ensures
            Lua::keeps_objects(old(self), final(self)),
            Lua::keeps_config(old(self), final(self)),
            r is Ok,
            Lua::sandbox_step(*old(self), *final(self), enabled),
    {
        if self.extra.sandboxed != enabled {
            self.overlay = Env::new();
            self.extra.sandboxed = enabled;
        }
        Ok(())
    }

    /// True in sandbox mode.
    pub fn is_sandbox_enabled(&self) -> (r: bool)
        ensures
            r == self.is_sandboxed(),
    {
        self.extra.sandboxed
    }

    /// `new` is `old` after script code assigned `v` to global `name`.
    pub open spec fn global_write(old: Lua, new: Lua, name: Seq<char>, v: Value) -> bool {
        &&& new.wf() == old.wf()
        &&& new.is_sandboxed() == old.is_sandboxed()
        &&& new.regs() == old.regs()
        &&& new.ref_table() == old.ref_table()
        &&& new.spec_id() == old.spec_id()
        &&& new.used() == old.used()
        &&& new.limit() == old.limit()
        &&& old.is_sandboxed() ==> forall|k: Seq<char>| #[trigger] new.base_global(k) == old.base_global(k)
        &&& !old.is_sandboxed() ==> forall|k: Seq<char>| #[trigger] new.base_global(k) == (if k == name {
            v
        } else {
            old.base_global(k)
        })
        &&& !(v is Nil) ==> new.global(name) == v
        &&& forall|k: Seq<char>| k != name ==> #[trigger] new.global(k) == old.global(k)
    }

    /// Assigns global `name` as script code does: in sandbox mode the write
    /// goes to the overlay and the shared globals stay as they were.
    pub fn set_global(&mut self, name: &str, v: Value)
        requires
            old(self).wf(),
        ensures
            Lua::keeps_objects(old(self), final(self)),
            final(self).wf(),
            Lua::keeps_config(old(self), final(self)),
            Lua::global_write(*old(self), *final(self), name@, v),
    {
        if self.extra.sandboxed {
            self.overlay.set(name, v);
        } else {
            let g = self.globals_table;
            let mut env = Env::new();
            std::mem::swap(&mut env, &mut self.tables[g]);
            env.set(name, v);
            self.tables.set(g, env);
        }
    }

    /// Reads global `name` as script code does.
    pub fn get_global(&self, name: &str) -> (r: Value)
        requires
            self.wf(),
        ensures
            r == self.global(name@),
    {
        if self.extra.sandboxed {
            let v = self.overlay.get(name);
            if !v.is_nil() {
                return v;
            }
        }
        self.tables[self.globals_table].get(name)
    }

    /// Makes table `globals` the global environment; refused in sandbox mode,
    /// and for a handle of another instance or one that names no table.
    pub fn set_globals(&mut self, globals: &Table) -> (r: Result<()>)
        requires
            old(self).wf(),
        ensures
            Lua::keeps_objects(old(self), final(self)),
            Lua::keeps_config(old(self), final(self)),
            final(self).wf(),
            final(self).is_sandboxed() == old(self).is_sandboxed(),
            final(self).regs() == old(self).regs(),
            final(self).ref_table() == old(self).ref_table(),
            final(self).stack_view() == old(self).stack_view(),
            final(self).used() == old(self).used(),
            r is Err ==> *final(self) == *old(self),
            old(self).is_sandboxed() ==> (r matches Err(Error::RuntimeError(m))
                && m@ == "cannot change globals in a sandboxed Lua state"@),
            !old(self).is_sandboxed() && !old(self).valid_ref(&globals.0) ==> r == Err::<(), Error>(
                Error::MismatchedRegistryKey,
            ),
            !old(self).is_sandboxed() && old(self).valid_ref(&globals.0) && old(self).table_id(globals) is None
                ==> r is Err && r->Err_0 is RuntimeError,
            !old(self).is_sandboxed() ==> (old(self).table_id(globals) matches Some(id) ==> {
                &&& r is Ok
                &&& final(self).globals_id() == id
                &&& forall|k: Seq<char>| #[trigger] final(self).base_global(k) == old(self).table_field(id, k)
                &&& forall|k: Seq<char>| #[trigger] final(self).global(k) == old(self).table_field(id, k)
                &&& forall|t: int, k: Seq<char>| #[trigger] final(self).table_field(t, k) == old(self).table_field(t, k)
            }),
    {
        if self.extra.sandboxed {
            return Err(Error::runtime("cannot change globals in a sandboxed Lua state"));
        }
        match self.refs.get(&globals.0) {
            Ok(Value::Table(o)) => {
                if o.0 < self.tables.len() as u64 {
                    self.globals_table = o.0 as usize;
                    Ok(())
                } else {
                    Err(Error::runtime("globals must be a table"))
                }
            },
            Ok(_) => Err(Error::runtime("globals must be a table")),
            Err(e) => Err(e),
        }
    }

    /// The identity of the table that `t` names, if it names one of this instance.
    pub open spec fn table_id(&self, t: &Table) -> Option<int> {
        if self.valid_ref(&t.0) && self.ref_value(&t.0) is Table && (self.ref_value(&t.0)->Table_0.0 as int)
            < self.table_count() {
            Some(self.ref_value(&t.0)->Table_0.0 as int)
        } else {
            None
        }
    }

    /// A handle to the table that holds the global environment.
    pub fn globals(&mut self) -> (r: Result<Table>)
        requires
            old(self).wf(),
        ensures
            Lua::keeps_objects(old(self), final(self)),
            Lua::keeps_env(old(self), final(self)),
            Lua::keeps_config(old(self), final(self)),
            final(self).wf(),
            r is Ok <==> old(self).ref_table().can_push(&old(self).mem()),
            r is Err ==> r->Err_0 is MemoryError && *final(self) == *old(self),
            r matches Ok(t) ==> final(self).table_id(&t) == Some(old(self).globals_id())
                && final(self).globals_id() == old(self).globals_id()
                && !old(self).ref_table().live().contains(t.0.spec_index()),
    {
        match self.push_root(Value::Table(ObjectId(self.globals_table as u64))) {
            Ok(h) => Ok(Table(h)),
            Err(e) => Err(e),
        }
    }

    /// Turns compilation to native code for new chunks on or off.
    pub fn enable_jit(&mut self, enable: bool)
        ensures
            Lua::keeps_objects(old(self), final(self)),
            Lua::keeps_env(old(self), final(self)),
            Lua::keeps_config(old(self), final(self)),
            final(self).wf() == old(self).wf(),
            final(self).jit_enabled() == enable,
    {
        self.extra.enable_jit = enable;
    }

    /// Whether new chunks are compiled to native code.
    pub closed spec fn jit_enabled(&self) -> bool {
        self.extra.enable_jit
    }
}

/// ASCII letters mapped to lower case, other characters kept.
pub open spec fn ascii_lower(c: char) -> char {
    if 'A' <= c <= 'Z' { ((c as u32) + 32) as char } else { c }
}

/// The bytes accounted for a table with `narr` array slots and `nrec` hash nodes.
pub open spec fn table_size(narr: nat, nrec: nat) -> nat {
    (TABLE_SIZE + narr * ARRAY_SLOT_SIZE + nrec * NODE_SIZE) as nat
}

impl Lua {
    /// Whether an object of `size` bytes and a reference slot for it could be had.
    pub open spec fn can_hold(&self, size: nat) -> bool {
        &&& self.object_count() < MAX_OBJECTS
        &&& alloc_granted(self.used(), self.limit(), false, 0, size)
        &&& (self.ref_table().free_slots().len() > 0 || (self.ref_table().len() < crate::refs::MAX_REFS
            && alloc_granted(self.used() + size, self.limit(), false, 0, crate::refs::REF_SLOT_SIZE as nat)))
    }

    /// Number of collectable objects made so far, alive or not.
    pub closed spec fn object_count(&self) -> nat {
        self.objects@.len()
    }

    /// Whether object `i` is still alive.
    pub closed spec fn object_alive(&self, i: int) -> bool {
        self.objects@[i].alive
    }

    /// The value that names object `i`.
    pub closed spec fn object_value(&self, i: int) -> Value {
        self.objects@[i].value
    }

    /// Holder and depth of the instance's lock.
    pub closed spec fn lock_view(&self) -> LockView {
        self.lock.view()
    }

    /// Whether a coroutine collection hook is set.
    pub closed spec fn collection_hook(&self) -> bool {
        self.extra.thread_collection_callback
    }

    /// Whether a coroutine creation hook is set.
    pub closed spec fn creation_hook(&self) -> bool {
        self.extra.thread_creation_callback
    }

    /// Whether an interrupt hook is set.
    pub closed spec fn interrupt_hook(&self) -> bool {
        self.extra.interrupt_callback
    }

    /// Coroutines collected while the collection hook was set, waiting for
    /// the host to run the hook.
    pub closed spec fn collected_threads(&self) -> Seq<LightUserData> {
        self.collected_threads@
    }

    /// The coroutines that died between `old` and `new`, in object order,
    /// when the collection hook is set in `old`.
    pub closed spec fn thread_events(old: &Lua, new: &Lua) -> Seq<LightUserData> {
        events_upto(old.objects@, new.objects@, old.objects@.len() as int, old.extra.thread_collection_callback)
    }

    /// Number of host functions made so far; the next one gets this identity.
    pub closed spec fn function_count(&self) -> nat {
        self.functions@.len()
    }

    /// The identity the next collectable object gets.
    pub closed spec fn next_id(&self) -> u64 {
        self.next_object
    }

    /// Number of buffers made so far; the next one gets this identity.
    pub closed spec fn buffer_count(&self) -> nat {
        self.buffers@.len()
    }

    /// Bytes held by the live objects.
    pub closed spec fn live_bytes(&self) -> nat {
        alive_bytes(self.objects@)
    }

    /// The value that handle `h` names.
    pub closed spec fn ref_value(&self, h: &ValueRef) -> Value {
        self.refs.slot(h.spec_index())
    }

    /// A handle of this instance whose slot is alive.
    pub open spec fn valid_ref(&self, h: &ValueRef) -> bool {
        self.ref_table().valid_ref(h)
    }

    /// Roots `v`, a value that already exists, in the reference table.
    fn push_root(&mut self, v: Value) -> (r: Result<ValueRef>)
        requires
            old(self).wf(),
        ensures
            Lua::keeps_env(old(self), final(self)),
            Lua::keeps_config(old(self), final(self)),
            final(self).wf(),
            r is Ok <==> old(self).ref_table().can_push(&old(self).mem()),
            r is Err ==> r->Err_0 is MemoryError && *final(self) == *old(self),
            r matches Ok(h) ==> final(self).valid_ref(&h) && final(self).ref_value(&h) == v
                && !old(self).ref_table().live().contains(h.spec_index())
                && final(self).ref_table().live() == old(self).ref_table().live().insert(h.spec_index()),
            final(self).tables@ == old(self).tables@,
            final(self).arrays@ == old(self).arrays@,
            final(self).globals_table == old(self).globals_table,
            Lua::keeps_objects(old(self), final(self)),
    {
        let ghost mid = *self;
        let r = self.refs.push_ref(&mut self.memory, v);
        proof {
            Lua::lemma_env_kept(old(self), &mid, self);
        }
        r
    }

    /// Allocates an object of `size` bytes and roots `v` in the reference
    /// table; on failure nothing changes.
    fn new_object(&mut self, size: usize, v: Value) -> (r: Result<ValueRef>)
        requires
            old(self).wf(),
            size > 0,
        ensures
            Lua::keeps_env(old(self), final(self)),
            Lua::keeps_config(old(self), final(self)),
            final(self).wf(),
            final(self).spec_id() == old(self).spec_id(),
            r is Ok <==> old(self).can_hold(size as nat),
            r is Err ==> r->Err_0 is MemoryError && *final(self) == *old(self),
            r matches Ok(h) ==> {
                &&& final(self).valid_ref(&h)
                &&& !old(self).ref_table().live().contains(h.spec_index())
                &&& final(self).ref_table().live() == old(self).ref_table().live().insert(h.spec_index())
                &&& forall|i: int| old(self).ref_table().live().contains(i)
                    ==> final(self).ref_table().slot(i) == old(self).ref_table().slot(i)
                &&& final(self).ref_value(&h) == v
                &&& final(self).used() == old(self).used() + size + (if old(self).ref_table().free_slots().len() > 0 {
                    0nat
                } else {
                    crate::refs::REF_SLOT_SIZE as nat
                })
                &&& final(self).next_object == old(self).next_object
                &&& final(self).buffers@ == old(self).buffers@
                &&& final(self).functions@ == old(self).functions@
                &&& final(self).pool == old(self).pool
                &&& final(self).tables@ == old(self).tables@
                &&& final(self).arrays@ == old(self).arrays@
                &&& final(self).globals_table == old(self).globals_table
            },
            final(self).limit() == old(self).limit(),
            final(self).regs() == old(self).regs(),
            final(self).is_sandboxed() == old(self).is_sandboxed(),
            final(self).has_memory_control() == old(self).has_memory_control(),
            final(self).is_collecting() == old(self).is_collecting(),
            final(self).stack_view() == old(self).stack_view(),
    {
        if self.objects.len() >= MAX_OBJECTS {
            return Err(memory_error());
        }
        if !self.memory.allocate(size) {
            return Err(memory_error());
        }
        let record = ObjectRecord { value: v.duplicate(), size, alive: true };
        match self.refs.push_ref(&mut self.memory, v) {
            Ok(h) => {
                proof {
                    lemma_alive_bytes_push(self.objects@, record);
                }
                self.objects.push(record);
                Ok(h)
            },
            Err(e) => {
                let ghost before = old(self).memory;
                self.memory.free(size);
                proof {
                    crate::memory::lemma_same_state(self.memory, before);
                }
                Err(e)
            },
        }
    }
}

/// With a memory limit set below the bytes in use, no allocation of any size
/// can be had, so the next allocating operation fails with a memory error and
/// leaves usage as it was; and an allocation that is granted under a limit
/// never takes usage past it.
pub proof fn lemma_limit_below_usage_fails_next_allocation(lua: Lua, size: nat)
    requires
        0 < lua.limit() < lua.used(),
        size > 0,
    ensures
        !lua.can_hold(size),
        alloc_granted(lua.used(), lua.limit(), false, 0, size) ==> used_after(lua.used(), false, 0, size)
            <= lua.limit(),
{
    assert(!lua.can_hold(size)) by {
        
    }
}

/// A registry key made by one instance is never taken as its own by another,
/// non-sharing instance: every registry operation there reports a
/// mismatched key.
pub proof fn lemma_foreign_key_rejected(a: Lua, b: Lua, key: &RegistryKey)
    requires
        a.wf(),
        b.wf(),
        a.spec_id() != b.spec_id(),
        a.regs().owns(key),
    ensures
        !b.regs().owns(key),
        !b.regs().valid_key(key),
{
}

/// A value handle made by one instance is never taken as its own by another,
/// non-sharing instance: every operation on it there reports a mismatched
/// key.
pub proof fn lemma_foreign_ref_rejected(a: Lua, b: Lua, h: &ValueRef)
    requires
        a.wf(),
        b.wf(),
        a.spec_id() != b.spec_id(),
        a.ref_table().owns(h),
    ensures
        !b.ref_table().owns(h),
        !b.valid_ref(h),
{
}

/// Storing a value and reading it back through its key gives the value.
pub proof fn lemma_registry_round_trip(old: Lua, new: Lua, v: Value, key: &RegistryKey)
    requires
        new.wf(),
        (v is Nil && key.spec_id() == REF_NIL && new.regs().owns(key)) || Registry::stored(
            &old.regs(),
            &new.regs(),
            v,
            key,
        ),
    ensures
        new.valid_key(key),
        new.regs().value_of(key) == v,
{
}

/// Enabling sandbox mode twice is the same as enabling it once.
pub proof fn lemma_sandbox_idempotent(s0: Lua, s1: Lua, s2: Lua)
    requires
        Lua::sandbox_step(s0, s1, true),
        Lua::sandbox_step(s1, s2, true),
    ensures
        s2.is_sandboxed() == s1.is_sandboxed(),
        forall|k: Seq<char>| #[trigger] s2.global(k) == s1.global(k),
        forall|k: Seq<char>| #[trigger] s2.base_global(k) == s1.base_global(k),
{
}

/// Script writes made in sandbox mode are gone once it is turned off: after
/// any number of global writes while sandboxed (`states` are the instance
/// after entering the sandbox and after each write), the globals read as they
/// did before the sandbox was entered.
pub proof fn lemma_sandbox_off_restores_globals(
    s0: Lua,
    states: Seq<Lua>,
    names: Seq<Seq<char>>,
    values: Seq<Value>,
    end: Lua,
)
    requires
        !s0.is_sandboxed(),
        states.len() >= 1,
        names.len() == states.len() - 1,
        values.len() == states.len() - 1,
        Lua::sandbox_step(s0, states[0], true),
        forall|i: int| 0 <= i < states.len() - 1 ==> #[trigger] Lua::global_write(
            states[i],
            states[i + 1],
            names[i],
            values[i],
        ),
        Lua::sandbox_step(states.last(), end, false),
    ensures
        !end.is_sandboxed(),
        forall|k: Seq<char>| #[trigger] end.global(k) == s0.global(k),
{
    assert forall|i: int| 0 <= i < states.len() implies #[trigger] states[i].is_sandboxed() && forall|k: Seq<char>|
        #[trigger] states[i].base_global(k) == s0.base_global(k) by {
        lemma_sandboxed_writes_keep_base(s0, states, names, values, i);
    }
    assert forall|k: Seq<char>| #[trigger] end.global(k) == s0.global(k) by {
        assert(end.global(k) == end.base_global(k));
        assert(states.last().base_global(k) == s0.base_global(k));
    }
}

proof fn lemma_sandboxed_writes_keep_base(
    s0: Lua,
    states: Seq<Lua>,
    names: Seq<Seq<char>>,
    values: Seq<Value>,
    i: int,
)
    requires
        !s0.is_sandboxed(),
        states.len() >= 1,
        names.len() == states.len() - 1,
        values.len() == states.len() - 1,
        Lua::sandbox_step(s0, states[0], true),
        forall|j: int| 0 <= j < states.len() - 1 ==> #[trigger] Lua::global_write(
            states[j],
            states[j + 1],
            names[j],
            values[j],
        ),
        0 <= i < states.len(),
    ensures
        states[i].is_sandboxed(),
        forall|k: Seq<char>| #[trigger] states[i].base_global(k) == s0.base_global(k),
    decreases i,
{
    if i > 0 {
        lemma_sandboxed_writes_keep_base(s0, states, names, values, i - 1);
        let j = i - 1;
        assert(Lua::global_write(states[j], states[j + 1], names[j], values[j]));
        assert(j + 1 == i);
        assert forall|k: Seq<char>| #[trigger] states[i].base_global(k) == s0.base_global(k) by {
            assert(states[j + 1].base_global(k) == states[j].base_global(k));
        }
    }
}

} // verus!
