use vstd::prelude::*;

verus! {

/// What a lock request got.
#[derive(Debug, Clone, Copy, PartialEq, Eq)]
pub enum LockOutcome {
    /// The lock was free and is now held by the caller.
    Acquired,
    /// The caller already held the lock and entered it once more.
    Reentered,
    /// Another owner holds the lock: the caller must wait.
    Busy,
}

/// Holder and depth of a lock, as a plain value.
pub struct LockView {
    pub owner: Option<u64>,
    pub depth: nat,
}

/// The state after `who` asks for the lock in state `s`.
pub open spec fn after_lock(s: LockView, who: u64) -> LockView {
    match s.owner {
        None => LockView { owner: Some(who), depth: 1 },
        Some(o) => if o == who {
            LockView { owner: Some(who), depth: s.depth + 1 }
        } else {
            s
        },
    }
}

/// The state after the holder leaves the lock once.
pub open spec fn after_unlock(s: LockView) -> LockView {
    if s.depth <= 1 {
        LockView { owner: None, depth: 0 }
    } else {
        LockView { owner: s.owner, depth: (s.depth - 1) as nat }
    }
}

/// A reentrant lock: the owner that holds it may enter again without waiting,
/// other owners wait until every entry has been left.
#[derive(Debug)]
pub struct ReentrantLock {
    owner: Option<u64>,
    depth: usize,
}

impl ReentrantLock {
    /// Holder and depth as a plain value.
    pub closed spec fn view(&self) -> LockView {
        LockView { owner: self.owner, depth: self.depth as nat }
    }

    /// Free exactly when nobody has entered.
    pub closed spec fn wf(&self) -> bool {
        self.owner is None <==> self.depth == 0
    }

    /// A free lock.
    pub fn new() -> (r: Self)
        ensures
            r.wf(),
            r.view() == (LockView { owner: None, depth: 0 }),
    {
        ReentrantLock { owner: None, depth: 0 }
    }

    /// Who holds the lock, if anyone.
    pub fn owner(&self) -> (r: Option<u64>)
        ensures
            r == self.view().owner,
    {
        self.owner
    }

    /// How many entries the holder has not left yet.
    pub fn depth(&self) -> (r: usize)
        ensures
            r == self.view().depth,
    {
        self.depth
    }

    /// Asks for the lock on behalf of `who`.
    pub fn try_lock(&mut self, who: u64) -> (r: LockOutcome)
        requires
            old(self).wf(),
            old(self).view().depth < usize::MAX,
        ensures
            final(self).wf(),
            final(self).view() == after_lock(old(self).view(), who),
            r == (match old(self).view().owner {
                None => LockOutcome::Acquired,
                Some(o) => if o == who { LockOutcome::Reentered } else { LockOutcome::Busy },
            }),
    {
        match self.owner {
            None => {
                self.owner = Some(who);
                self.depth = 1;
                LockOutcome::Acquired
            },
            Some(o) => {
                if o == who {
                    self.depth = self.depth + 1;
                    LockOutcome::Reentered
                } else {
                    LockOutcome::Busy
                }
            },
        }
    }

    /// Leaves one entry; the last one frees the lock.
    pub fn unlock(&mut self, who: u64)
        requires
            old(self).wf(),
            old(self).view().owner == Some(who),
        ensures
            final(self).wf(),
            final(self).view() == after_unlock(old(self).view()),
    {
        if self.depth <= 1 {
            self.owner = None;
            self.depth = 0;
        } else {
            self.depth = self.depth - 1;
        }
    }
}

/// Re-entering the lock from within a callback never waits, and leaving the
/// entry brings the lock back to the state the callback found.
pub proof fn lemma_reentry_never_blocks(s: LockView, who: u64)
    requires
        s.owner == Some(who),
        s.depth >= 1,
    ensures
        after_lock(s, who).owner == Some(who),
        after_unlock(after_lock(s, who)) == s,
{
}

} // verus!
