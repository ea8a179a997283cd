use vstd::prelude::*;

use crate::error::{Error, Result};
use crate::state::Lua;
use crate::value::Value;

verus! {

/// Host values that become VM values.
pub trait IntoLua: Sized {
    /// The VM value `self` becomes.
    spec fn lua_value(&self) -> Value;

    fn into_lua(self) -> (r: Value)
        ensures
            r == self.lua_value(),
    ;
}

/// Host values that can be read from VM values.
pub trait FromLua: Sized {
    /// The host value that `v` reads as, if it can be read.
    spec fn host_value(v: Value) -> Option<Self>;

    fn from_lua(v: Value) -> (r: Result<Self>)
        ensures
            r is Ok <==> Self::host_value(v) is Some,
            r matches Ok(x) ==> Self::host_value(v) == Some(x),
            r matches Err(e) ==> e is FromLuaConversionError,
    ;
}

impl IntoLua for Value {
    open spec fn lua_value(&self) -> Value {
        *self
    }

    fn into_lua(self) -> (r: Value) {
        self
    }
}

impl FromLua for Value {
    open spec fn host_value(v: Value) -> Option<Value> {
        Some(v)
    }

    fn from_lua(v: Value) -> (r: Result<Value>) {
        Ok(v)
    }
}

impl IntoLua for bool {
    open spec fn lua_value(&self) -> Value {
        Value::Boolean(*self)
    }

    fn into_lua(self) -> (r: Value) {
        Value::Boolean(self)
    }
}

/// Only nil and false read as false.
impl FromLua for bool {
    open spec fn host_value(v: Value) -> Option<bool> {
        match v {
            Value::Nil => Some(false),
            Value::Boolean(b) => Some(b),
            _ => Some(true),
        }
    }

    fn from_lua(v: Value) -> (r: Result<bool>) {
        match v {
            Value::Nil => Ok(false),
            Value::Boolean(b) => Ok(b),
            _ => Ok(true),
        }
    }
}

impl IntoLua for i64 {
    open spec fn lua_value(&self) -> Value {
        Value::Integer(*self)
    }

    fn into_lua(self) -> (r: Value) {
        Value::Integer(self)
    }
}

impl FromLua for i64 {
    open spec fn host_value(v: Value) -> Option<i64> {
        match v {
            Value::Integer(i) => Some(i),
            _ => None,
        }
    }

    fn from_lua(v: Value) -> (r: Result<i64>) {
        match v {
            Value::Integer(i) => Ok(i),
            _ => Err(Error::FromLuaConversionError("integer expected".to_owned())),
        }
    }
}

impl IntoLua for String {
    open spec fn lua_value(&self) -> Value {
        Value::String(*self)
    }

    fn into_lua(self) -> (r: Value) {
        Value::String(self)
    }
}

impl FromLua for String {
    open spec fn host_value(v: Value) -> Option<String> {
        match v {
            Value::String(s) => Some(s),
            _ => None,
        }
    }

    fn from_lua(v: Value) -> (r: Result<String>) {
        match v {
            Value::String(s) => Ok(s),
            _ => Err(Error::FromLuaConversionError("string expected".to_owned())),
        }
    }
}

impl Lua {
    /// Converts `t` into a VM value.
    pub fn pack<T: IntoLua>(&self, t: T) -> (r: Result<Value>)
        ensures
            r == Ok::<Value, Error>(t.lua_value()),
    {
        Ok(t.into_lua())
    }

    /// Reads `value` as a `T`.
    pub fn unpack<T: FromLua>(&self, value: Value) -> (r: Result<T>)
        ensures
            r is Ok <==> T::host_value(value) is Some,
            r matches Ok(x) ==> T::host_value(value) == Some(x),
            r matches Err(e) ==> e is FromLuaConversionError,
    {
        T::from_lua(value)
    }

    /// Converts `value` into a VM value and reads that as a `U`.
    pub fn convert<U: FromLua, T: IntoLua>(&self, value: T) -> (r: Result<U>)
        ensures
            r is Ok <==> U::host_value(value.lua_value()) is Some,
            r matches Ok(x) ==> U::host_value(value.lua_value()) == Some(x),
            r matches Err(e) ==> e is FromLuaConversionError,
    {
        U::from_lua(value.into_lua())
    }

    /// Converts each of `ts` into a VM value, in order.
    pub fn pack_multi<T: IntoLua>(&self, ts: Vec<T>) -> (r: Result<Vec<Value>>)
        ensures
            r matches Ok(vs) && vs@ == ts@.map_values(|t: T| t.lua_value()),
    {
        let ghost target = ts@.map_values(|t: T| t.lua_value());
        let mut ts = ts;
        let mut out: Vec<Value> = Vec::new();
        while ts.len() > 0
            invariant
                target == out@ + ts@.map_values(|t: T| t.lua_value()),
            decreases ts.len(),
        {
            let ghost before = ts@;
            let t = ts.remove(0);
            proof {
                assert(before.map_values(|t: T| t.lua_value()) =~= seq![t.lua_value()] + ts@.map_values(
                    |t: T| t.lua_value(),
                ));
            }
            out.push(t.into_lua());
            proof {
                assert(target =~= out@ + ts@.map_values(|t: T| t.lua_value()));
            }
        }
        assert(out@ =~= target);
        Ok(out)
    }

    /// Reads each of `values` as a `T`, in order; fails on the first that
    /// cannot be read.
    pub fn unpack_multi<T: FromLua>(&self, values: Vec<Value>) -> (r: Result<Vec<T>>)
        ensures
            r is Ok <==> forall|i: int| 0 <= i < values@.len() ==> (#[trigger] T::host_value(values@[i])) is Some,
            r matches Ok(xs) ==> xs@.len() == values@.len() && forall|i: int|
                0 <= i < values@.len() ==> #[trigger] T::host_value(values@[i]) == Some(xs@[i]),
            r matches Err(e) ==> e is FromLuaConversionError,
    {
        let mut out: Vec<T> = Vec::new();
        let mut i: usize = 0;
        while i < values.len()
            invariant
                i <= values@.len(),
                out@.len() == i,
                forall|j: int| 0 <= j < i ==> #[trigger] T::host_value(values@[j]) == Some(out@[j]),
            decreases values.len() - i,
        {
            match T::from_lua(values[i].duplicate()) {
                Ok(x) => {
                    out.push(x);
                },
                Err(e) => {
                    assert(!(T::host_value(values@[i as int]) is Some));
                    return Err(e);
                },
            }
            i = i + 1;
        }
        Ok(out)
    }
}

} // verus!
