use vstd::prelude::*;

verus! {

/// Identity of a collectable object (table, function, thread, buffer) inside one VM.
#[derive(Debug, Clone, Copy, PartialEq, Eq, Hash)]
pub struct ObjectId(pub u64);

/// The sentinels that the suspension protocol exchanges on the VM stack.
#[derive(Debug, Clone, Copy, PartialEq, Eq)]
pub enum Marker {
    /// The host future is not ready yet: poll again.
    Pending,
    /// The script explicitly yielded values.
    Yield,
    /// The coroutine is being torn down.
    Terminate,
}

/// A "light" userdata value: an unmanaged address.
#[derive(Debug, Clone, Copy, PartialEq, Eq)]
pub struct LightUserData(pub usize);

/// A VM value as the safe layer hands it around.
#[derive(Debug, PartialEq, Eq)]
pub enum Value {
    Nil,
    Boolean(bool),
    LightUserData(LightUserData),
    Marker(Marker),
    Integer(i64),
    String(String),
    Table(ObjectId),
    Function(ObjectId),
    Thread(ObjectId),
    Buffer(ObjectId),
}

impl Value {
    /// True for `Nil`.
    pub fn is_nil(&self) -> (r: bool)
        ensures
            r == (*self is Nil),
    {
        match self {
            Value::Nil => true,
            _ => false,
        }
    }

    /// The values are equal, strings compared by their characters.
    pub open spec fn same_spec(self, other: Value) -> bool {
        match (self, other) {
            (Value::String(a), Value::String(b)) => a@ == b@,
            _ => self == other,
        }
    }

    /// True when `self` and `other` are the same value: strings compare by
    /// their characters, collectable objects by identity.
    pub fn same(&self, other: &Value) -> (r: bool)
        ensures
            r == self.same_spec(*other),
    {
        match (self, other) {
            (Value::Nil, Value::Nil) => true,
            (Value::Boolean(a), Value::Boolean(b)) => *a == *b,
            (Value::LightUserData(a), Value::LightUserData(b)) => a.0 == b.0,
            (Value::Marker(a), Value::Marker(b)) => match (a, b) {
                (Marker::Pending, Marker::Pending) => true,
                (Marker::Yield, Marker::Yield) => true,
                (Marker::Terminate, Marker::Terminate) => true,
                _ => false,
            },
            (Value::Integer(a), Value::Integer(b)) => *a == *b,
            (Value::String(a), Value::String(b)) => *a == *b,
            (Value::Table(a), Value::Table(b)) => a.0 == b.0,
            (Value::Function(a), Value::Function(b)) => a.0 == b.0,
            (Value::Thread(a), Value::Thread(b)) => a.0 == b.0,
            (Value::Buffer(a), Value::Buffer(b)) => a.0 == b.0,
            _ => false,
        }
    }

    /// A copy of the value; collectable objects are copied by identity.
    pub fn duplicate(&self) -> (r: Value)
        ensures
            r == *self,
    {
        match self {
            Value::Nil => Value::Nil,
            Value::Boolean(b) => Value::Boolean(*b),
            Value::LightUserData(p) => Value::LightUserData(LightUserData(p.0)),
            Value::Marker(m) => Value::Marker(*m),
            Value::Integer(i) => Value::Integer(*i),
            Value::String(s) => Value::String(s.clone()),
            Value::Table(o) => Value::Table(ObjectId(o.0)),
            Value::Function(o) => Value::Function(ObjectId(o.0)),
            Value::Thread(o) => Value::Thread(ObjectId(o.0)),
            Value::Buffer(o) => Value::Buffer(ObjectId(o.0)),
        }
    }
}

impl Clone for Value {
    fn clone(&self) -> (r: Value)
        ensures
            r == *self,
    {
        self.duplicate()
    }
}

} // verus!
