use vstd::prelude::*;

use crate::error::{Error, Result};
use crate::refs::ValueRef;
use crate::state::Lua;

verus! {

/// A handle to a buffer: a fixed-size mutable block of bytes.
#[derive(Debug)]
pub struct Buffer(pub ValueRef);

/// Where a seek counts from.
#[derive(Debug, Clone, Copy, PartialEq, Eq)]
pub enum SeekFrom {
    Start(u64),
    End(i64),
    Current(i64),
}

/// Why a seek was refused.
#[derive(Debug, Clone, Copy, PartialEq, Eq)]
pub enum SeekError {
    /// The position would be before the first byte.
    Negative,
    /// The position would be past the last byte.
    BeyondEnd,
}

/// The position a seek asks for, before it is checked.
pub open spec fn seek_target(len: nat, pos: nat, from: SeekFrom) -> int {
    match from {
        SeekFrom::Start(o) => o as int,
        SeekFrom::End(o) => len + o,
        SeekFrom::Current(o) => pos + o,
    }
}

/// The new position of a cursor at `pos` in a buffer of `len` bytes: the
/// target must lie between the start and the end, both included.
pub fn seek_position(len: usize, pos: usize, from: SeekFrom) -> (r: core::result::Result<usize, SeekError>)
    ensures
        seek_target(len as nat, pos as nat, from) < 0 ==> r == Err::<usize, SeekError>(SeekError::Negative),
        seek_target(len as nat, pos as nat, from) > len ==> r == Err::<usize, SeekError>(SeekError::BeyondEnd),
        0 <= seek_target(len as nat, pos as nat, from) <= len ==> r == Ok::<usize, SeekError>(
            seek_target(len as nat, pos as nat, from) as usize,
        ),
{
    let target: i128 = match from {
        SeekFrom::Start(o) => o as i128,
        SeekFrom::End(o) => len as i128 + o as i128,
        SeekFrom::Current(o) => pos as i128 + o as i128,
    };
    if target < 0 {
        return Err(SeekError::Negative);
    }
    if target > len as i128 {
        return Err(SeekError::BeyondEnd);
    }
    Ok(target as usize)
}

/// Number of bytes a transfer of `want` bytes at `pos` moves in a buffer of
/// `len` bytes: it stops at the end.
pub open spec fn transfer_len(len: nat, pos: nat, want: nat) -> nat {
    if pos >= len {
        0
    } else if want < len - pos {
        want
    } else {
        (len - pos) as nat
    }
}

/// Reads up to `want` bytes of `data` from `pos`.
pub fn read_at(data: &Vec<u8>, pos: usize, want: usize) -> (r: Vec<u8>)
    ensures
        pos >= data@.len() ==> r@.len() == 0,
        pos < data@.len() ==> r@ == data@.subrange(pos as int, pos + transfer_len(data@.len(), pos as nat, want as nat)),
{
    let mut out: Vec<u8> = Vec::new();
    if pos >= data.len() {
        return out;
    }
    let len = data.len();
    let n: usize = if want < len - pos { want } else { len - pos };
    let mut i: usize = 0;
    while i < n
        invariant
            data@.len() == len,
            pos + n <= data@.len(),
            i <= n,
            out@ == data@.subrange(pos as int, pos + i),
        decreases n - i,
    {
        assert(pos + i < data@.len());
        out.push(data[pos + i]);
        i = i + 1;
        proof {
            assert(out@ =~= data@.subrange(pos as int, pos + i));
        }
    }
    out
}

/// Writes the bytes of `src` into `data` from `pos`, stopping at the end of
/// `data`; returns how many were written. The size of `data` never changes.
pub fn write_at(data: &mut Vec<u8>, pos: usize, src: &Vec<u8>) -> (n: usize)
    ensures
        n == transfer_len(old(data)@.len(), pos as nat, src@.len()),
        final(data)@.len() == old(data)@.len(),
        forall|k: int| 0 <= k < old(data)@.len() ==> #[trigger] final(data)@[k] == if pos <= k < pos + n {
            src@[k - pos]
        } else {
            old(data)@[k]
        },
{
    if pos >= data.len() {
        return 0;
    }
    let len = data.len();
    let n: usize = if src.len() < len - pos { src.len() } else { len - pos };
    let mut i: usize = 0;
    while i < n
        invariant
            data@.len() == len,
            pos + n <= data@.len(),
            n <= src@.len(),
            i <= n,
            data@.len() == old(data)@.len(),
            forall|k: int| 0 <= k < old(data)@.len() ==> #[trigger] data@[k] == if pos <= k < pos + i {
                src@[k - pos]
            } else {
                old(data)@[k]
            },
        decreases n - i,
    {
        assert(pos + i < data@.len());
        data.set(pos + i, src[i]);
        i = i + 1;
    }
    n
}

/// A read/write position in a buffer.
#[derive(Debug)]
pub struct BufferCursor {
    buffer: Buffer,
    pos: usize,
}

impl BufferCursor {
    /// The buffer the cursor moves in.
    pub closed spec fn spec_buffer(&self) -> Buffer {
        self.buffer
    }

    /// The cursor's position.
    pub closed spec fn spec_pos(&self) -> nat {
        self.pos as nat
    }

    /// A cursor at the start of `buffer`.
    pub fn new(buffer: Buffer) -> (r: Self)
        ensures
            r.spec_pos() == 0,
            r.spec_buffer() == buffer,
    {
        BufferCursor { buffer, pos: 0 }
    }

    /// The current position.
    pub fn position(&self) -> (r: usize)
        ensures
            r == self.spec_pos(),
    {
        self.pos
    }

    /// Reads up to `want` bytes from the position and moves past them.
    pub fn read(&mut self, lua: &Lua, want: usize) -> (r: Result<Vec<u8>>)
        requires
            lua.wf(),
        ensures
            final(self).spec_buffer() == old(self).spec_buffer(),
            r is Err ==> final(self).spec_pos() == old(self).spec_pos(),
            !lua.ref_table().valid_ref(&old(self).spec_buffer().0) ==> r == Err::<Vec<u8>, Error>(Error::MismatchedRegistryKey),
            lua.buffer_id(&old(self).spec_buffer()) matches Some(id) ==> {
                let data = lua.buffer_data(id);
                let pos = old(self).spec_pos();
                let n = transfer_len(data.len(), pos, want as nat);
                &&& r is Ok
                &&& pos < data.len() ==> r->Ok_0@ == data.subrange(pos as int, (pos + n) as int)
                &&& pos >= data.len() ==> r->Ok_0@.len() == 0
                &&& final(self).spec_pos() == pos + r->Ok_0@.len()
            },
    {
        let len = lua.buffer_len(&self.buffer)?;
        let bytes = lua.buffer_read(&self.buffer, self.pos, want)?;
        if self.pos < len {
            self.pos = self.pos + bytes.len();
        }
        Ok(bytes)
    }

    /// Writes `src` at the position, stopping at the end of the buffer, and
    /// moves past what was written.
    pub fn write(&mut self, lua: &mut Lua, src: &Vec<u8>) -> (r: Result<usize>)
        requires
            old(lua).wf(),
        ensures
            final(lua).wf(),
            final(self).spec_buffer() == old(self).spec_buffer(),
            r is Err ==> final(self).spec_pos() == old(self).spec_pos() && *final(lua) == *old(lua),
            !old(lua).ref_table().valid_ref(&old(self).spec_buffer().0) ==> r == Err::<usize, Error>(Error::MismatchedRegistryKey),
            old(lua).buffer_id(&old(self).spec_buffer()) matches Some(id) ==> {
                let pos = old(self).spec_pos();
                let n = transfer_len(old(lua).buffer_data(id).len(), pos, src@.len());
                &&& r == Ok::<usize, Error>(n as usize)
                &&& final(lua).buffer_data(id).len() == old(lua).buffer_data(id).len()
                &&& forall|k: int| 0 <= k < old(lua).buffer_data(id).len() ==> #[trigger] final(lua).buffer_data(id)[k]
                    == if pos <= k < pos + n { src@[k - pos] } else { old(lua).buffer_data(id)[k] }
                &&& final(self).spec_pos() == pos + n
            },
    {
        let len = lua.buffer_len(&self.buffer)?;
        let n = lua.buffer_write(&self.buffer, self.pos, src)?;
        if self.pos < len {
            self.pos = self.pos + n;
        }
        Ok(n)
    }

    /// Moves the position; a target before the start or past the end is refused.
    pub fn seek(&mut self, lua: &Lua, from: SeekFrom) -> (r: Result<u64>)
        requires
            lua.wf(),
        ensures
            final(self).spec_buffer() == old(self).spec_buffer(),
            r is Err ==> final(self).spec_pos() == old(self).spec_pos(),
            !lua.ref_table().valid_ref(&old(self).spec_buffer().0) ==> r == Err::<u64, Error>(Error::MismatchedRegistryKey),
            lua.buffer_id(&old(self).spec_buffer()) matches Some(id) ==> {
                let t = seek_target(lua.buffer_data(id).len(), old(self).spec_pos(), from);
                &&& (t < 0 || t > lua.buffer_data(id).len()) ==> r is Err && r->Err_0 is RuntimeError
                &&& 0 <= t <= lua.buffer_data(id).len() ==> r == Ok::<u64, Error>(t as u64) && final(self).spec_pos() == t
            },
    {
        let len = lua.buffer_len(&self.buffer)?;
        match seek_position(len, self.pos, from) {
            Ok(p) => {
                self.pos = p;
                Ok(p as u64)
            },
            Err(SeekError::Negative) => Err(Error::runtime("invalid seek to a negative position")),
            Err(SeekError::BeyondEnd) => Err(Error::runtime("invalid seek to a position beyond the end of the buffer")),
        }
    }
}

} // verus!
