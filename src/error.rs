use vstd::prelude::*;

verus! {

/// Status codes that the VM's protected-call primitive reports.
pub const LUA_OK: i32 = 0;
pub const LUA_YIELD: i32 = 1;
pub const LUA_ERRRUN: i32 = 2;
pub const LUA_ERRSYNTAX: i32 = 3;
pub const LUA_ERRMEM: i32 = 4;
pub const LUA_ERRERR: i32 = 5;

/// The kinds of failure that the safe layer reports.
#[derive(Debug, Clone, PartialEq, Eq)]
pub enum Error {
    /// Raised only while compiling a chunk.
    SyntaxError(String),
    /// A value raised by script code or by a host callback.
    RuntimeError(String),
    /// An allocation failed or would pass the memory limit.
    MemoryError(String),
    /// A registry key was used with a VM instance that did not create it.
    MismatchedRegistryKey,
    /// A mutable host callback was entered while it was already running.
    RecursiveMutCallback,
    /// Memory accounting was asked of a VM whose allocator is not under this layer's control.
    MemoryControlNotAvailable,
    /// A value could not be converted to the type asked for.
    FromLuaConversionError(String),
}

/// Results of the safe layer.
pub type Result<T> = core::result::Result<T, Error>;

impl Error {
    /// A runtime error carrying `message`.
    pub fn runtime(message: &str) -> (r: Error)
        ensures
            r matches Error::RuntimeError(m) && m@ == message@,
    {
        Error::RuntimeError(message.to_owned())
    }

    /// The error that the VM signalled with a non-success `status` and `message`,
    /// in the layer's taxonomy.
    pub fn from_status(status: i32, message: String) -> (r: Error)
        requires
            LUA_ERRRUN <= status <= LUA_ERRERR,
        ensures
            status == LUA_ERRSYNTAX ==> r == Error::SyntaxError(message),
            status == LUA_ERRMEM ==> r == Error::MemoryError(message),
            (status == LUA_ERRRUN || status == LUA_ERRERR) ==> r == Error::RuntimeError(message),
    {
        if status == LUA_ERRSYNTAX {
            Error::SyntaxError(message)
        } else if status == LUA_ERRMEM {
            Error::MemoryError(message)
        } else {
            Error::RuntimeError(message)
        }
    }

    /// True for the kind that reports exhausted memory.
    pub fn is_memory_error(&self) -> (r: bool)
        ensures
            r == (self is MemoryError),
    {
        match self {
            Error::MemoryError(_) => true,
            _ => false,
        }
    }
}

/// The message the VM attaches to a refused allocation.
pub fn memory_error() -> (r: Error)
    ensures
        r is MemoryError,
{
    Error::MemoryError("not enough memory".to_owned())
}

} // verus!
