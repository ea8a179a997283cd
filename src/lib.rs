pub mod buffer;
pub mod callback;
pub mod convert;
pub mod debug;
pub mod env;
pub mod error;
pub mod lock;
pub mod memory;
pub mod refs;
pub mod registry;
pub mod stack;
pub mod state;
pub mod stdlib;
pub mod suspend;
pub mod types;
pub mod value;

pub use crate::buffer::Buffer;
pub use crate::callback::VmState;
pub use crate::convert::{FromLua, IntoLua};
pub use crate::debug::{DebugNames, DebugSource, DebugStack};
pub use crate::env::Env;
pub use crate::error::{Error, Result};
pub use crate::refs::ValueRef;
pub use crate::registry::RegistryKey;
pub use crate::state::{Function, GCMode, Lua, LuaOptions, LuaString, Table, Thread, TypeKind};
pub use crate::stdlib::StdLib;
pub use crate::types::MaybeSend;
pub use crate::value::{LightUserData, Marker, ObjectId, Value};
pub use either::Either;
