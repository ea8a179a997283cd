use vstd::prelude::*;

verus! {

/// Bytes in use after a reallocation: the old block (if any) is given back and
/// `nsize` bytes are taken.
pub open spec fn used_after(used: nat, had_block: bool, osize: nat, nsize: nat) -> int {
    used - (if had_block { osize as int } else { 0 }) + nsize
}

/// Whether the allocator hook grants a request for a block of `nsize > 0` bytes.
/// A limit of zero means no limit.
pub open spec fn alloc_granted(used: nat, limit: nat, had_block: bool, osize: nat, nsize: nat) -> bool {
    &&& nsize <= isize::MAX
    &&& used_after(used, had_block, osize, nsize) <= usize::MAX
    &&& (limit == 0 || used_after(used, had_block, osize, nsize) <= limit)
}

/// Accounting for the memory that the VM takes through the allocator hook, with
/// an optional ceiling.
pub struct MemoryState {
    used_memory: usize,
    memory_limit: usize,
}

impl MemoryState {
    /// Bytes allocated through the hook.
    pub closed spec fn used(&self) -> nat {
        self.used_memory as nat
    }

    /// The ceiling in bytes (zero: none).
    pub closed spec fn limit(&self) -> nat {
        self.memory_limit as nat
    }

    /// Accounting with nothing allocated and no limit.
    pub fn new() -> (r: Self)
        ensures
            r.used() == 0,
            r.limit() == 0,
    {
        MemoryState { used_memory: 0, memory_limit: 0 }
    }

    /// Bytes currently allocated through the hook.
    pub fn used_memory(&self) -> (r: usize)
        ensures
            r == self.used(),
    {
        self.used_memory
    }

    /// The current ceiling (zero means no limit).
    pub fn memory_limit(&self) -> (r: usize)
        ensures
            r == self.limit(),
    {
        self.memory_limit
    }

    /// Sets a new ceiling and returns the previous one.
    pub fn set_memory_limit(&mut self, limit: usize) -> (prev: usize)
        ensures
            prev == old(self).limit(),
            final(self).limit() == limit,
            final(self).used() == old(self).used(),
    {
        let prev = self.memory_limit;
        self.memory_limit = limit;
        prev
    }

    /// True when no ceiling is set, so that no allocation can fail on account of it.
    pub fn unlikely_memory_error(&self) -> (r: bool)
        ensures
            r == (self.limit() == 0),
    {
        self.memory_limit == 0
    }

    /// The allocator hook. A block of `osize` bytes (present when `had_block`) is
    /// resized to `nsize` bytes; `nsize == 0` frees it. Returns false when the
    /// request is refused, in which case nothing changes.
    pub fn realloc(&mut self, had_block: bool, osize: usize, nsize: usize) -> (ok: bool)
        requires
            had_block ==> osize <= old(self).used(),
        ensures
            final(self).limit() == old(self).limit(),
            nsize == 0 ==> ok && final(self).used() == used_after(old(self).used(), had_block, osize as nat, 0),
            nsize > 0 ==> ok == alloc_granted(old(self).used(), old(self).limit(), had_block, osize as nat, nsize as nat),
            nsize > 0 && ok ==> final(self).used() == used_after(old(self).used(), had_block, osize as nat, nsize as nat),
            !ok ==> *final(self) == *old(self),
    {
        let freed: usize = if had_block { osize } else { 0 };
        if nsize == 0 {
            self.used_memory = self.used_memory - freed;
            return true;
        }
        if nsize > isize::MAX as usize {
            return false;
        }
        let base: usize = self.used_memory - freed;
        if nsize > usize::MAX - base {
            return false;
        }
        let new_used: usize = base + nsize;
        if self.memory_limit > 0 && new_used > self.memory_limit {
            return false;
        }
        self.used_memory = new_used;
        true
    }

    /// Takes `size > 0` fresh bytes.
    pub fn allocate(&mut self, size: usize) -> (ok: bool)
        requires
            size > 0,
        ensures
            final(self).limit() == old(self).limit(),
            ok == alloc_granted(old(self).used(), old(self).limit(), false, 0, size as nat),
            ok ==> final(self).used() == old(self).used() + size,
            !ok ==> *final(self) == *old(self),
    {
        self.realloc(false, 0, size)
    }

    /// Gives back a block of `size` bytes.
    pub fn free(&mut self, size: usize)
        requires
            size <= old(self).used(),
        ensures
            final(self).limit() == old(self).limit(),
            final(self).used() == old(self).used() - size,
    {
        self.realloc(true, size, 0);
    }
}

/// Two accounting states that agree on usage and ceiling are the same.
pub proof fn lemma_same_state(a: MemoryState, b: MemoryState)
    requires
        a.used() == b.used(),
        a.limit() == b.limit(),
    ensures
        a == b,
{
}

/// With a ceiling set below the bytes in use, every request that grows usage is
/// refused; and no granted request ever takes usage past a ceiling.
pub proof fn lemma_limit_below_usage_refuses_growth(
    used: nat,
    limit: nat,
    had_block: bool,
    osize: nat,
    nsize: nat,
)
    requires
        had_block ==> osize <= used,
    ensures
        0 < limit < used && used_after(used, had_block, osize, nsize) > used
            ==> !alloc_granted(used, limit, had_block, osize, nsize),
        limit > 0 && alloc_granted(used, limit, had_block, osize, nsize)
            ==> used_after(used, had_block, osize, nsize) <= limit,
{
}

} // verus!
