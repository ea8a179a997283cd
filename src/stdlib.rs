use vstd::prelude::*;

verus! {

/// Flags describing the set of standard libraries to load.
#[derive(Copy, Clone, Debug, PartialEq, Eq, PartialOrd, Ord)]
pub struct StdLib(pub u32);

impl StdLib {
    /// `coroutine` library
    pub fn coroutine() -> (r: StdLib)
        ensures
            r.0 == 1,
    {
        StdLib(1)
    }
    /// `table` library
    pub fn table() -> (r: StdLib)
        ensures
            r.0 == 2,
    {
        StdLib(2)
    }
    /// `os` library
    pub fn os() -> (r: StdLib)
        ensures
            r.0 == 8,
    {
        StdLib(8)
    }
    /// `string` library
    pub fn string() -> (r: StdLib)
        ensures
            r.0 == 16,
    {
        StdLib(16)
    }
    /// `utf8` library
    pub fn utf8() -> (r: StdLib)
        ensures
            r.0 == 32,
    {
        StdLib(32)
    }
    /// `bit` library
    pub fn bit() -> (r: StdLib)
        ensures
            r.0 == 64,
    {
        StdLib(64)
    }
    /// `math` library
    pub fn math() -> (r: StdLib)
        ensures
            r.0 == 128,
    {
        StdLib(128)
    }
    /// `buffer` library
    pub fn buffer() -> (r: StdLib)
        ensures
            r.0 == 512,
    {
        StdLib(512)
    }
    /// `vector` library
    pub fn vector() -> (r: StdLib)
        ensures
            r.0 == 1024,
    {
        StdLib(1024)
    }
    /// (**unsafe**) `debug` library
    pub fn debug() -> (r: StdLib)
        ensures
            r.0 == 0x8000_0000,
    {
        StdLib(0x8000_0000)
    }
    /// No libraries
    pub fn none() -> (r: StdLib)
        ensures
            r.0 == 0,
    {
        StdLib(0)
    }
    /// (**unsafe**) All standard libraries
    pub fn all() -> (r: StdLib)
        ensures
            r.0 == 0xffff_ffff,
    {
        StdLib(0xffff_ffff)
    }
    /// The safe subset of the standard libraries
    pub fn all_safe() -> (r: StdLib)
        ensures
            r.0 == 0xffff_ffff,
    {
        StdLib(0xffff_ffff)
    }

    /// True when `self` and `lib` share at least one flag.
    pub fn contains(self, lib: Self) -> (r: bool)
        ensures
            r == (self.0 & lib.0 != 0),
    {
        (self.0 & lib.0) != 0
    }
}

impl std::ops::BitAnd for StdLib {
    type Output = Self;

    fn bitand(self, rhs: Self) -> (r: Self)
        ensures
            r.0 == self.0 & rhs.0,
    {
        StdLib(self.0 & rhs.0)
    }
}

impl std::ops::BitAndAssign for StdLib {
    fn bitand_assign(&mut self, rhs: Self)
        ensures
            final(self).0 == old(self).0 & rhs.0,
    {
        *self = StdLib(self.0 & rhs.0)
    }
}

impl std::ops::BitOr for StdLib {
    type Output = Self;

    fn bitor(self, rhs: Self) -> (r: Self)
        ensures
            r.0 == self.0 | rhs.0,
    {
        StdLib(self.0 | rhs.0)
    }
}

impl std::ops::BitOrAssign for StdLib {
    fn bitor_assign(&mut self, rhs: Self)
        ensures
            final(self).0 == old(self).0 | rhs.0,
    {
        *self = StdLib(self.0 | rhs.0)
    }
}

impl std::ops::BitXor for StdLib {
    type Output = Self;

    fn bitxor(self, rhs: Self) -> (r: Self)
        ensures
            r.0 == self.0 ^ rhs.0,
    {
        StdLib(self.0 ^ rhs.0)
    }
}

impl std::ops::BitXorAssign for StdLib {
    fn bitxor_assign(&mut self, rhs: Self)
        ensures
            final(self).0 == old(self).0 ^ rhs.0,
    {
        *self = StdLib(self.0 ^ rhs.0)
    }
}

impl vstd::std_specs::ops::BitAndSpecImpl for StdLib {
    open spec fn obeys_bitand_spec() -> bool {
        true
    }

    open spec fn bitand_req(self, rhs: StdLib) -> bool {
        true
    }

    open spec fn bitand_spec(self, rhs: StdLib) -> StdLib {
        StdLib(self.0 & rhs.0)
    }
}

impl vstd::std_specs::ops::BitOrSpecImpl for StdLib {
    open spec fn obeys_bitor_spec() -> bool {
        true
    }

    open spec fn bitor_req(self, rhs: StdLib) -> bool {
        true
    }

    open spec fn bitor_spec(self, rhs: StdLib) -> StdLib {
        StdLib(self.0 | rhs.0)
    }
}

impl vstd::std_specs::ops::BitXorSpecImpl for StdLib {
    open spec fn obeys_bitxor_spec() -> bool {
        true
    }

    open spec fn bitxor_req(self, rhs: StdLib) -> bool {
        true
    }

    open spec fn bitxor_spec(self, rhs: StdLib) -> StdLib {
        StdLib(self.0 ^ rhs.0)
    }
}

} // verus!
