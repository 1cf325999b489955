//! A seekable cursor over a fully buffered byte sequence.

use crate::formats::lrb::error::LrbReadError;
use vstd::bytes::{
    spec_u16_from_le_bytes, spec_u32_from_le_bytes, spec_u64_from_le_bytes, u16_from_le_bytes,
    u32_from_le_bytes, u64_from_le_bytes,
};
use vstd::prelude::*;
use vstd::slice::{slice_subrange, slice_to_vec};

verus! {

/// The little-endian 16-bit value starting at `pos`.
pub open spec fn le16_at(bytes: Seq<u8>, pos: int) -> u16
    recommends
        0 <= pos,
        pos + 2 <= bytes.len(),
{
    spec_u16_from_le_bytes(bytes.subrange(pos, pos + 2))
}

/// The little-endian 32-bit value starting at `pos`.
pub open spec fn le32_at(bytes: Seq<u8>, pos: int) -> u32
    recommends
        0 <= pos,
        pos + 4 <= bytes.len(),
{
    spec_u32_from_le_bytes(bytes.subrange(pos, pos + 4))
}

/// The little-endian 64-bit value starting at `pos`.
pub open spec fn le64_at(bytes: Seq<u8>, pos: int) -> u64
    recommends
        0 <= pos,
        pos + 8 <= bytes.len(),
{
    spec_u64_from_le_bytes(bytes.subrange(pos, pos + 8))
}

/// A position over an in-memory buffer.  Reads advance the position and
/// fail without moving it when the buffer is too short; seeks may land
/// anywhere, and a position beyond the buffer only makes later reads
/// fail.
pub struct ByteCursor {
    data: Vec<u8>,
    pos: u64,
}

/// Abstract value of a [`ByteCursor`].
pub struct ByteCursorV {
    pub bytes: Seq<u8>,
    pub pos: u64,
}

impl View for ByteCursor {
    type V = ByteCursorV;

    closed spec fn view(&self) -> ByteCursorV {
        ByteCursorV { bytes: self.data@, pos: self.pos }
    }
}

impl ByteCursor {
    pub fn new(data: Vec<u8>) -> (r: Self)
        ensures
            r@.bytes == data@,
            r@.pos == 0,
    {
        ByteCursor { data, pos: 0 }
    }

    pub fn position(&self) -> (r: u64)
        ensures
            r == self@.pos,
    {
        self.pos
    }

    pub fn seek(&mut self, pos: u64)
        ensures
            final(self)@ == (ByteCursorV { pos, ..old(self)@ }),
    {
        self.pos = pos;
    }

    /// Whether `n` more bytes can be read from the current position.
    pub open spec fn can_read(cv: ByteCursorV, n: int) -> bool {
        cv.pos as int + n <= cv.bytes.len()
    }

    fn has(&self, n: usize) -> (r: bool)
        ensures
            r == Self::can_read(self@, n as int),
    {
        let len = self.data.len() as u64;
        self.pos <= len && (n as u64) <= len - self.pos
    }

    pub fn read_u8(&mut self) -> (r: Result<u8, LrbReadError>)
        ensures
            final(self)@.bytes == old(self)@.bytes,
            Self::can_read(old(self)@, 1) ==> (r matches Ok(b) && b == old(self)@.bytes[old(self)@.pos as int] && final(self)@.pos == old(self)@.pos + 1),
            !Self::can_read(old(self)@, 1) ==> (r matches Err(e) && e == LrbReadError::Io && *final(self) == *old(self)),
    {
        if !self.has(1) {
            return Err(LrbReadError::Io);
        }
        let len = self.data.len();
        proof {
            assert(self.pos as int + 1 <= len as int);
        }
        let idx = self.pos as usize;
        let b = self.data[idx];
        self.pos = self.pos + 1;
        Ok(b)
    }

    pub fn read_u16_le(&mut self) -> (r: Result<u16, LrbReadError>)
        ensures
            final(self)@.bytes == old(self)@.bytes,
            Self::can_read(old(self)@, 2) ==> (r matches Ok(x) && x == le16_at(old(self)@.bytes, old(self)@.pos as int) && final(self)@.pos == old(self)@.pos + 2),
            !Self::can_read(old(self)@, 2) ==> (r matches Err(e) && e == LrbReadError::Io && *final(self) == *old(self)),
    {
        if !self.has(2) {
            return Err(LrbReadError::Io);
        }
        let len = self.data.len();
        proof {
            assert(self.pos as int + 2 <= len as int);
        }
        let start = self.pos as usize;
        let s = slice_subrange(self.data.as_slice(), start, start + 2);
        let x = u16_from_le_bytes(s);
        self.pos = self.pos + 2;
        Ok(x)
    }

    pub fn read_u32_le(&mut self) -> (r: Result<u32, LrbReadError>)
        ensures
            final(self)@.bytes == old(self)@.bytes,
            Self::can_read(old(self)@, 4) ==> (r matches Ok(x) && x == le32_at(old(self)@.bytes, old(self)@.pos as int) && final(self)@.pos == old(self)@.pos + 4),
            !Self::can_read(old(self)@, 4) ==> (r matches Err(e) && e == LrbReadError::Io && *final(self) == *old(self)),
    {
        if !self.has(4) {
            return Err(LrbReadError::Io);
        }
        let len = self.data.len();
        proof {
            assert(self.pos as int + 4 <= len as int);
        }
        let start = self.pos as usize;
        let s = slice_subrange(self.data.as_slice(), start, start + 4);
        let x = u32_from_le_bytes(s);
        self.pos = self.pos + 4;
        Ok(x)
    }

    pub fn read_u64_le(&mut self) -> (r: Result<u64, LrbReadError>)
        ensures
            final(self)@.bytes == old(self)@.bytes,
            Self::can_read(old(self)@, 8) ==> (r matches Ok(x) && x == le64_at(old(self)@.bytes, old(self)@.pos as int) && final(self)@.pos == old(self)@.pos + 8),
            !Self::can_read(old(self)@, 8) ==> (r matches Err(e) && e == LrbReadError::Io && *final(self) == *old(self)),
    {
        if !self.has(8) {
            return Err(LrbReadError::Io);
        }
        let len = self.data.len();
        proof {
            assert(self.pos as int + 8 <= len as int);
        }
        let start = self.pos as usize;
        let s = slice_subrange(self.data.as_slice(), start, start + 8);
        let x = u64_from_le_bytes(s);
        self.pos = self.pos + 8;
        Ok(x)
    }

    /// Reads exactly `n` bytes.
    pub fn read_bytes(&mut self, n: usize) -> (r: Result<Vec<u8>, LrbReadError>)
        ensures
            final(self)@.bytes == old(self)@.bytes,
            Self::can_read(old(self)@, n as int) ==> (r matches Ok(v) && v@ == old(self)@.bytes.subrange(old(self)@.pos as int, old(self)@.pos as int + n as int) && final(self)@.pos == old(self)@.pos + n),
            !Self::can_read(old(self)@, n as int) ==> (r matches Err(e) && e == LrbReadError::Io && *final(self) == *old(self)),
    {
        if !self.has(n) {
            return Err(LrbReadError::Io);
        }
        let len = self.data.len();
        proof {
            assert(self.pos as int + n as int <= len as int);
        }
        let start = self.pos as usize;
        let s = slice_subrange(self.data.as_slice(), start, start + n);
        let v = slice_to_vec(s);
        self.pos = self.pos + n as u64;
        Ok(v)
    }
}

} // verus!
