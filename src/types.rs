use vstd::prelude::*;

verus! {

/// A marker for types that may be shared with the VM. This build is
/// single-threaded, so every type qualifies.
pub trait MaybeSend {}

impl<T> MaybeSend for T {}

} // verus!
