use vstd::prelude::*;

use super::{Lua, Table};
use crate::error::{Error, Result};
use crate::value::{ObjectId, Value};

verus! {

/// The builtin value types that can share a metatable.
#[derive(Debug, Clone, Copy, PartialEq, Eq)]
pub enum TypeKind {
    Boolean,
    LightUserData,
    Number,
    Vector,
    String,
    Function,
    Thread,
    Buffer,
}

impl TypeKind {
    pub open spec fn spec_index(self) -> int {
        match self {
            TypeKind::Boolean => 0,
            TypeKind::LightUserData => 1,
            TypeKind::Number => 2,
            TypeKind::Vector => 3,
            TypeKind::String => 4,
            TypeKind::Function => 5,
            TypeKind::Thread => 6,
            TypeKind::Buffer => 7,
        }
    }

    fn index(self) -> (r: usize)
        ensures
            r == self.spec_index(),
    {
        match self {
            TypeKind::Boolean => 0,
            TypeKind::LightUserData => 1,
            TypeKind::Number => 2,
            TypeKind::Vector => 3,
            TypeKind::String => 4,
            TypeKind::Function => 5,
            TypeKind::Thread => 6,
            TypeKind::Buffer => 7,
        }
    }
}

impl Lua {
    /// The table shared as metatable by all values of `kind`, if any.
    pub closed spec fn spec_type_metatable(&self, kind: TypeKind) -> Option<ObjectId> {
        self.type_metatables@[kind.spec_index()]
    }

    /// Sets (or with `None` clears) the metatable shared by all values of
    /// `kind`. The table must be a table of this instance.
    pub fn set_type_metatable(&mut self, kind: TypeKind, metatable: Option<&Table>) -> (r: Result<()>)
        requires
            old(self).wf(),
        ensures
            Lua::keeps_objects(old(self), final(self)),
            Lua::keeps_env(old(self), final(self)),
            Lua::keeps_config(old(self), final(self)),
            final(self).wf(),
            final(self).stack_view() == old(self).stack_view(),
            final(self).used() == old(self).used(),
            final(self).spec_id() == old(self).spec_id(),
            final(self).ref_table() == old(self).ref_table(),
            final(self).regs() == old(self).regs(),
            r is Err ==> *final(self) == *old(self),
            metatable is None ==> r is Ok && final(self).spec_type_metatable(kind) is None,
            metatable matches Some(t) ==> {
                &&& !old(self).ref_table().valid_ref(&t.0) ==> r == Err::<(), Error>(Error::MismatchedRegistryKey)
                &&& old(self).ref_table().valid_ref(&t.0) && !(old(self).ref_value(&t.0) is Table) ==> r is Err
                    && r->Err_0 is RuntimeError
                &&& old(self).ref_table().valid_ref(&t.0) && old(self).ref_value(&t.0) is Table ==> r is Ok
                    && final(self).spec_type_metatable(kind) == Some(old(self).ref_value(&t.0)->Table_0)
            },
            r is Ok ==> forall|k: TypeKind| k != kind ==> #[trigger] final(self).spec_type_metatable(k)
                == old(self).spec_type_metatable(k),
    {
        let entry = match metatable {
            None => None,
            Some(t) => match self.refs.get(&t.0) {
                Ok(Value::Table(o)) => Some(o),
                Ok(_) => {
                    return Err(Error::runtime("metatable must be a table"));
                },
                Err(e) => {
                    return Err(e);
                },
            },
        };
        self.type_metatables.set(kind.index(), entry);
        proof {
            assert forall|k: TypeKind| k != kind implies #[trigger] self.spec_type_metatable(k)
                == old(self).spec_type_metatable(k) by {
                assert(k.spec_index() != kind.spec_index());
            }
        }
        Ok(())
    }

    /// The metatable shared by all values of `kind`, if any.
    pub fn type_metatable(&self, kind: TypeKind) -> (r: Option<ObjectId>)
        requires
            self.wf(),
        ensures
            r == self.spec_type_metatable(kind),
    {
        self.type_metatables[kind.index()]
    }
}

} // verus!
