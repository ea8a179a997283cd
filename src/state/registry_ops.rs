use vstd::prelude::*;
use vstd::string::StrSliceExecFns;

use super::{ascii_lower, Lua};
use crate::error::{Error, Result};
use crate::registry::{Registry, RegistryKey};
use crate::value::Value;


verus! {

/// Relies on `str::to_ascii_lowercase`: each ASCII upper-case letter is mapped
/// to its lower-case form, every other character is kept.
#[verifier::external_body]
fn to_ascii_lowercase(s: &str) -> (r: String)
    ensures
        r@ == s@.map_values(|c: char| ascii_lower(c)),
{
    s.to_ascii_lowercase()
}

/// True when the first character of `s` is `c`.
fn starts_with_char(s: &str, c: char) -> (r: bool)
    ensures
        r == (s@.len() > 0 && s@[0] == c),
{
    s.unicode_len() > 0 && s.get_char(0) == c
}


impl Lua {
    /// True when `key` was made by an instance that shares this one's state.
    pub fn owns_registry_value(&self, key: &RegistryKey) -> (r: bool)
        ensures
            r == self.regs().owns(key),
    {
        self.registry.owns_registry_value(key)
    }

    /// A key of this instance that is still alive.
    pub open spec fn valid_key(&self, key: &RegistryKey) -> bool {
        self.regs().valid_key(key)
    }

    /// Stores `v` in the registry under a new key; see `Registry::create_registry_value`.
    pub fn create_registry_value(&mut self, v: Value) -> (r: Result<RegistryKey>)
        requires
            old(self).wf(),
        ensures
            old(self).used() <= final(self).used() <= old(self).used() + crate::registry::SLOT_SIZE,
            Lua::keeps_objects(old(self), final(self)),
            Lua::keeps_env(old(self), final(self)),
            Lua::keeps_config(old(self), final(self)),
            final(self).wf(),
            final(self).spec_id() == old(self).spec_id(),
            final(self).limit() == old(self).limit(),
            final(self).ref_table() == old(self).ref_table(),
            r is Err <==> (!(v is Nil) && !old(self).regs().can_store(&old(self).mem())),
            r matches Err(e) ==> e is MemoryError && *final(self) == *old(self),
            r matches Ok(key) ==> {
                &&& final(self).valid_key(&key)
                &&& final(self).regs().value_of(&key) == v
                &&& v is Nil ==> key.spec_id() == crate::registry::REF_NIL && final(self).regs() == old(self).regs()
                &&& !(v is Nil) ==> Registry::stored(&old(self).regs(), &final(self).regs(), v, &key)
                &&& !(v is Nil) && old(self).regs().pending().len() > 0 ==> key.spec_id() == old(self).regs().pending().last()
                    && final(self).regs().pending() == old(self).regs().pending().drop_last()
                    && final(self).regs().released() == old(self).regs().released()
                    && final(self).used() == old(self).used()
            },
            final(self).regs().spec_owner() == old(self).regs().spec_owner(),
    {
        self.registry.create_registry_value(&mut self.memory, v)
    }

    /// Reads the value that `key` names; a key of another instance, or one no longer alive, is refused.
    pub fn registry_value(&self, key: &RegistryKey) -> (r: Result<Value>)
        requires
            self.wf(),
        ensures
            !self.regs().valid_key(key) ==> r == Err::<Value, Error>(Error::MismatchedRegistryKey),
            self.regs().valid_key(key) ==> r == Ok::<Value, Error>(self.regs().value_of(key)),
    {
        self.registry.registry_value(key)
    }

    /// Removes the value that `key` names at once; the key is consumed.
    pub fn remove_registry_value(&mut self, key: RegistryKey) -> (r: Result<()>)
        requires
            old(self).wf(),
        ensures
            Lua::keeps_objects(old(self), final(self)),
            Lua::keeps_env(old(self), final(self)),
            Lua::keeps_config(old(self), final(self)),
            final(self).wf(),
            final(self).spec_id() == old(self).spec_id(),
            final(self).ref_table() == old(self).ref_table(),
            !old(self).regs().valid_key(&key) ==> r == Err::<(), Error>(Error::MismatchedRegistryKey)
                && *final(self) == *old(self),
            old(self).regs().valid_key(&key) ==> r is Ok
                && final(self).regs().live() == old(self).regs().live().remove(key.spec_id())
                && final(self).regs().pending() == old(self).regs().pending()
                && Registry::others_kept(&old(self).regs(), &final(self).regs(), key.spec_id()),
            old(self).regs().valid_key(&key) && key.spec_id() == crate::registry::REF_NIL ==> *final(self) == *old(self),
            old(self).regs().valid_key(&key) && key.spec_id() != crate::registry::REF_NIL ==> final(self).regs().released()
                == old(self).regs().released().push(key.spec_id() as i32),
            final(self).regs().spec_owner() == old(self).regs().spec_owner(),
    {
        self.registry.remove_registry_value(key)
    }

    /// Hands back a key that is no longer wanted; its slot is reclaimed by
    /// the next `expire_registry_values`, or reused by the next stored value.
    pub fn drop_registry_key(&mut self, key: RegistryKey) -> (r: Result<()>)
        requires
            old(self).wf(),
        ensures
            Lua::keeps_objects(old(self), final(self)),
            Lua::keeps_env(old(self), final(self)),
            Lua::keeps_config(old(self), final(self)),
            final(self).wf(),
            final(self).spec_id() == old(self).spec_id(),
            final(self).ref_table() == old(self).ref_table(),
            !old(self).regs().valid_key(&key) ==> r == Err::<(), Error>(Error::MismatchedRegistryKey)
                && *final(self) == *old(self),
            old(self).regs().valid_key(&key) ==> r is Ok
                && final(self).regs().live() == old(self).regs().live().remove(key.spec_id())
                && final(self).regs().released() == old(self).regs().released()
                && Registry::others_kept(&old(self).regs(), &final(self).regs(), key.spec_id()),
            old(self).regs().valid_key(&key) && key.spec_id() == crate::registry::REF_NIL ==> final(self).regs().pending()
                == old(self).regs().pending(),
            old(self).regs().valid_key(&key) && key.spec_id() != crate::registry::REF_NIL ==> final(self).regs().pending()
                == old(self).regs().pending().push(key.spec_id() as i32),
            final(self).regs().spec_owner() == old(self).regs().spec_owner(),
    {
        self.registry.drop_registry_key(key)
    }

    /// Stores `v` under `key` in place of what it named; the key's slot id may change.
    pub fn replace_registry_value(&mut self, key: &mut RegistryKey, v: Value) -> (r: Result<()>)
        requires
            old(self).wf(),
        ensures
            old(self).used() <= final(self).used() <= old(self).used() + crate::registry::SLOT_SIZE,
            Lua::keeps_objects(old(self), final(self)),
            Lua::keeps_env(old(self), final(self)),
            Lua::keeps_config(old(self), final(self)),
            final(self).wf(),
            final(self).spec_id() == old(self).spec_id(),
            final(self).limit() == old(self).limit(),
            final(self).ref_table() == old(self).ref_table(),
            !old(self).regs().valid_key(old(key)) ==> r == Err::<(), Error>(Error::MismatchedRegistryKey)
                && *final(self) == *old(self) && *final(key) == *old(key),
            old(self).regs().valid_key(old(key)) ==> {
                &&& r is Err <==> (!(v is Nil) && old(key).spec_id() == crate::registry::REF_NIL
                    && !old(self).regs().can_store(&old(self).mem()))
                &&& r matches Err(e) ==> e is MemoryError && *final(self) == *old(self) && *final(key) == *old(key)
                &&& r is Ok ==> final(self).valid_key(final(key)) && final(self).regs().value_of(final(key)) == v
                    && Registry::others_kept(&old(self).regs(), &final(self).regs(), old(key).spec_id())
                    && final(self).regs().live().remove(final(key).spec_id()) == old(self).regs().live().remove(
                    old(key).spec_id(),
                ) && final(key).spec_owner() == old(key).spec_owner()
                &&& r is Ok && v is Nil ==> final(key).spec_id() == crate::registry::REF_NIL
                    && final(self).regs().pending() == old(self).regs().pending()
                    && (old(key).spec_id() == crate::registry::REF_NIL ==> *final(self) == *old(self))
                    && (old(key).spec_id() != crate::registry::REF_NIL ==> final(self).regs().released()
                    == old(self).regs().released().push(old(key).spec_id() as i32))
                &&& r is Ok && !(v is Nil) && old(key).spec_id() != crate::registry::REF_NIL ==> final(key).spec_id() == old(
                    key,
                ).spec_id() && final(self).regs().live() == old(self).regs().live()
                    && final(self).regs().pending() == old(self).regs().pending()
                    && final(self).regs().released() == old(self).regs().released()
                    && final(self).used() == old(self).used()
                &&& r is Ok && !(v is Nil) && old(key).spec_id() == crate::registry::REF_NIL ==> Registry::stored(
                    &old(self).regs(),
                    &final(self).regs(),
                    v,
                    final(key),
                )
            },
            final(self).regs().spec_owner() == old(self).regs().spec_owner(),
    {
        self.registry.replace_registry_value(&mut self.memory, key, v)
    }

    /// Releases the slots of every dropped key.
    pub fn expire_registry_values(&mut self)
        requires
            old(self).wf(),
        ensures
            Lua::keeps_objects(old(self), final(self)),
            Lua::keeps_env(old(self), final(self)),
            Lua::keeps_config(old(self), final(self)),
            final(self).wf(),
            final(self).spec_id() == old(self).spec_id(),
            final(self).regs().live() == old(self).regs().live(),
            final(self).regs().pending().len() == 0,
            final(self).regs().released() == old(self).regs().released() + old(self).regs().pending(),
            final(self).regs().spec_owner() == old(self).regs().spec_owner(),
            final(self).ref_table() == old(self).ref_table(),
            forall|id: int| old(self).regs().live().contains(id) ==> final(self).regs().slot(id) == old(
                self,
            ).regs().slot(id),
    {
        self.registry.expire_registry_values()
    }

    /// Sets the registry value named `key`, shared by every instance on this state.
    pub fn set_named_registry_value(&mut self, key: &str, v: Value) -> (r: Result<()>)
        ensures
            Lua::keeps_objects(old(self), final(self)),
            final(self).regs() == old(self).regs(),
            final(self).ref_table() == old(self).ref_table(),
            final(self).stack_view() == old(self).stack_view(),
            final(self).used() == old(self).used(),
            Lua::keeps_config(old(self), final(self)),
            r is Ok,
            final(self).wf() == old(self).wf(),
            final(self).spec_id() == old(self).spec_id(),
            forall|k: Seq<char>| #[trigger] final(self).named_value(k) == (if k == key@ {
                v
            } else {
                old(self).named_value(k)
            }),
    {
        self.named.set(key, v);
        Ok(())
    }

    /// The registry value named `key` (nil when unset).
    pub fn named_registry_value(&self, key: &str) -> (r: Result<Value>)
        ensures
            r == Ok::<Value, Error>(self.named_value(key@)),
    {
        Ok(self.named.get(key))
    }

    /// Removes the registry value named `key`.
    pub fn unset_named_registry_value(&mut self, key: &str) -> (r: Result<()>)
        ensures
            Lua::keeps_objects(old(self), final(self)),
            final(self).regs() == old(self).regs(),
            final(self).ref_table() == old(self).ref_table(),
            final(self).stack_view() == old(self).stack_view(),
            final(self).used() == old(self).used(),
            Lua::keeps_config(old(self), final(self)),
            r is Ok,
            final(self).wf() == old(self).wf(),
            final(self).spec_id() == old(self).spec_id(),
            forall|k: Seq<char>| #[trigger] final(self).named_value(k) == (if k == key@ {
                Value::Nil
            } else {
                old(self).named_value(k)
            }),
    {
        self.set_named_registry_value(key, Value::Nil)
    }

    /// Registers `value` as the module `modname`, returned from then on when
    /// the module is required. Names must begin with '@' and are matched
    /// without regard to ASCII case.
    pub fn register_module(&mut self, modname: &str, value: Value) -> (r: Result<()>)
        ensures
            Lua::keeps_objects(old(self), final(self)),
            Lua::keeps_config(old(self), final(self)),
            final(self).wf() == old(self).wf(),
            final(self).spec_id() == old(self).spec_id(),
            !(modname@.len() > 0 && modname@[0] == '@') ==> (r matches Err(Error::RuntimeError(m))
                && m@ == "module name must begin with '@'"@)
                && *final(self) == *old(self),
            (modname@.len() > 0 && modname@[0] == '@') ==> r is Ok && forall|k: Seq<char>|
                #[trigger] final(self).module(k) == (if k == modname@.map_values(|c: char| ascii_lower(c)) {
                    value
                } else {
                    old(self).module(k)
                }),
    {
        if !starts_with_char(modname, '@') {
            return Err(Error::runtime("module name must begin with '@'"));
        }
        let name = to_ascii_lowercase(modname);
        self.modules.set(name.as_str(), value);
        Ok(())
    }

    /// Unloads the module `modname`, as registering nil does.
    pub fn unload_module(&mut self, modname: &str) -> (r: Result<()>)
        ensures
            Lua::keeps_objects(old(self), final(self)),
            Lua::keeps_config(old(self), final(self)),
            final(self).wf() == old(self).wf(),
            final(self).spec_id() == old(self).spec_id(),
            !(modname@.len() > 0 && modname@[0] == '@') ==> (r matches Err(Error::RuntimeError(m))
                && m@ == "module name must begin with '@'"@)
                && *final(self) == *old(self),
            (modname@.len() > 0 && modname@[0] == '@') ==> r is Ok && forall|k: Seq<char>|
                #[trigger] final(self).module(k) == (if k == modname@.map_values(|c: char| ascii_lower(c)) {
                    Value::Nil
                } else {
                    old(self).module(k)
                }),
    {
        self.register_module(modname, Value::Nil)
    }

    /// The module registered as `modname` (nil when none).
    pub fn registered_module(&self, modname: &str) -> (r: Value)
        ensures
            r == self.module(modname@.map_values(|c: char| ascii_lower(c))),
    {
        let name = to_ascii_lowercase(modname);
        self.modules.get(name.as_str())
    }
}

} // verus!
