use vstd::prelude::*;

use crate::value::Value;

verus! {

/// What `key` reads as after the assignments `s`, the latest one winning;
/// nil when it was never assigned.
pub open spec fn lookup(s: Seq<(Seq<char>, Value)>, key: Seq<char>) -> Value
    decreases s.len(),
{
    if s.len() == 0 {
        Value::Nil
    } else if s.last().0 == key {
        s.last().1
    } else {
        lookup(s.drop_last(), key)
    }
}

/// Entry `i` of `s` is the latest assignment to its key.
pub open spec fn is_latest(s: Seq<(Seq<char>, Value)>, i: int) -> bool {
    forall|j: int| i < j < s.len() ==> s[j].0 != s[i].0
}

/// A table keyed by strings, such as the global environment or the named part
/// of the registry, kept as the log of its assignments. Assigning nil removes
/// a key.
#[derive(Debug)]
pub struct Env {
    entries: Vec<(String, Value)>,
}

impl Env {
    /// The assignments, oldest first.
    pub closed spec fn log(&self) -> Seq<(Seq<char>, Value)> {
        self.entries@.map_values(|e: (String, Value)| (e.0@, e.1))
    }

    /// What `key` reads as.
    pub open spec fn get_spec(&self, key: Seq<char>) -> Value {
        lookup(self.log(), key)
    }

    /// An empty table.
    pub fn new() -> (r: Self)
        ensures
            forall|k: Seq<char>| #[trigger] r.get_spec(k) == Value::Nil,
    {
        let r = Env { entries: Vec::new() };
        assert(r.log().len() == 0);
        r
    }

    /// The value under `key` (nil when absent).
    pub fn get(&self, key: &str) -> (r: Value)
        ensures
            r == self.get_spec(key@),
    {
        let ghost s = self.log();
        let wanted = key.to_owned();
        let mut i: usize = self.entries.len();
        assert(s.subrange(0, i as int) =~= s);
        while i > 0
            invariant
                s == self.log(),
                wanted@ == key@,
                0 <= i <= self.entries@.len(),
                lookup(s, key@) == lookup(s.subrange(0, i as int), key@),
            decreases i,
        {
            let ghost sub = s.subrange(0, i as int);
            assert(sub.drop_last() =~= s.subrange(0, i - 1));
            assert(sub.last() == s[i - 1]);
            assert(s[i - 1] == (self.entries@[i - 1].0@, self.entries@[i - 1].1));
            if self.entries[i - 1].0 == wanted {
                return self.entries[i - 1].1.duplicate();
            }
            i = i - 1;
        }
        Value::Nil
    }

    /// True when some key currently holds `v`.
    pub fn mentions(&self, v: &Value) -> (r: bool)
        ensures
            r == exists|i: int| 0 <= i < self.log().len() && is_latest(self.log(), i) && (#[trigger] self.log()[i].1).same_spec(*v),
    {
        let mut i: usize = 0;
        while i < self.entries.len()
            invariant
                i <= self.entries@.len(),
                forall|j: int| 0 <= j < i ==> !(is_latest(self.log(), j) && (#[trigger] self.log()[j].1).same_spec(*v)),
            decreases self.entries.len() - i,
        {
            assert(self.log()[i as int] == (self.entries@[i as int].0@, self.entries@[i as int].1));
            if self.entries[i].1.same(v) {
                let mut later: usize = i + 1;
                let mut overwritten = false;
                while later < self.entries.len()
                    invariant
                        i < later <= self.entries@.len(),
                        self.log()[i as int].1.same_spec(*v),
                        !overwritten ==> forall|j: int| i < j < later ==> self.log()[j].0 != self.log()[i as int].0,
                        overwritten ==> !is_latest(self.log(), i as int),
                    decreases self.entries.len() - later,
                {
                    assert(self.log()[later as int] == (self.entries@[later as int].0@, self.entries@[later as int].1));
                    if self.entries[later].0 == self.entries[i].0 {
                        overwritten = true;
                        assert(self.log()[later as int].0 == self.log()[i as int].0);
                    }
                    later = later + 1;
                }
                if !overwritten {
                    assert(is_latest(self.log(), i as int));
                    return true;
                }
            }
            i = i + 1;
        }
        false
    }

    /// Assigns `v` to `key`; nil removes the key.
    pub fn set(&mut self, key: &str, v: Value)
        ensures
            forall|k: Seq<char>| #[trigger] final(self).get_spec(k) == (if k == key@ {
                v
            } else {
                old(self).get_spec(k)
            }),
    {
        self.entries.push((key.to_owned(), v));
        proof {
            assert(self.log().drop_last() =~= old(self).log());
            assert forall|k: Seq<char>| #[trigger] self.get_spec(k) == (if k == key@ {
                v
            } else {
                old(self).get_spec(k)
            }) by {
                assert(self.log().last() == (key@, v));
            }
        }
    }
}

} // verus!
