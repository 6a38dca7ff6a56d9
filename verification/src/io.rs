//! The seekable byte source that every parser reads from: a byte buffer and
//! a read position, with the few read and seek operations the parsers need.

use crate::endian;
use vstd::prelude::*;
use vstd::slice::slice_subrange;

verus! {

/// Why a read or a seek on a [`ByteSource`] failed.
#[derive(Debug, Clone, Copy, PartialEq, Eq, Structural)]
pub enum IoError {
    /// Fewer bytes were left than a fixed-size read needs.
    UnexpectedEof,
    /// A seek to a position below zero or above `u64::MAX`.
    InvalidInput,
    /// A failure that is neither of the others.
    Other,
}

/// Where a seek goes: an absolute position, or an offset from the end of
/// the input or from the current position.
#[derive(Debug, Clone, Copy, PartialEq, Eq, Structural)]
pub enum SeekFrom {
    Start(u64),
    End(i64),
    Current(i64),
}

/// What a [`ByteSource`] is: its bytes, and the position of the next read.
/// The position may lie past the end; nothing can be read there.
pub struct ByteSourceView {
    pub bytes: Seq<u8>,
    pub pos: int,
}

impl ByteSourceView {
    /// The number of bytes between the position and the end.
    pub open spec fn available(self) -> int {
        if self.pos >= self.bytes.len() {
            0
        } else {
            self.bytes.len() - self.pos
        }
    }

    /// The position that a seek to `to` leads to, if it is one.
    pub open spec fn seek_target(self, to: SeekFrom) -> Option<int> {
        let target: int = match to {
            SeekFrom::Start(n) => n as int,
            SeekFrom::End(d) => self.bytes.len() + d,
            SeekFrom::Current(d) => self.pos + d,
        };
        if 0 <= target <= u64::MAX {
            Some(target)
        } else {
            None
        }
    }

    /// The bytes that a read of at most `limit` bytes yields.
    pub open spec fn upcoming(self, limit: int) -> Seq<u8> {
        let n = if limit < self.available() {
            limit
        } else {
            self.available()
        };
        if n <= 0 {
            Seq::empty()
        } else {
            self.bytes.subrange(self.pos, self.pos + n)
        }
    }
}

/// A byte buffer with a read position.
#[derive(Debug, Clone)]
pub struct ByteSource {
    data: Vec<u8>,
    pos: u64,
}

impl View for ByteSource {
    type V = ByteSourceView;

    closed spec fn view(&self) -> ByteSourceView {
        ByteSourceView { bytes: self.data@, pos: self.pos as int }
    }
}

impl ByteSource {
    /// A source over `data`, positioned at its first byte.
    pub fn new(data: Vec<u8>) -> (s: ByteSource)
        ensures
            s@.bytes == data@,
            s@.pos == 0,
    {
        ByteSource { data, pos: 0 }
    }

    /// The input fits in memory, and the position in 64 bits.
    pub proof fn lemma_view_bounds(&self)
        ensures
            self@.bytes.len() <= usize::MAX,
            0 <= self@.pos <= u64::MAX,
    {
        assert(self.data.len() == self.data@.len());
    }

    /// Gives the buffer back.
    pub fn into_inner(self) -> (data: Vec<u8>)
        ensures
            data@ == self@.bytes,
    {
        self.data
    }

    /// The position of the next read.
    pub fn position(&self) -> (p: u64)
        ensures
            p == self@.pos,
    {
        self.pos
    }

    /// The length of the input.
    pub fn size(&self) -> (n: u64)
        ensures
            n == self@.bytes.len(),
    {
        self.data.len() as u64
    }

    /// The number of bytes between the position and the end.
    pub fn available(&self) -> (n: u64)
        ensures
            n == self@.available(),
    {
        let len: u64 = self.data.len() as u64;
        if self.pos >= len {
            0
        } else {
            len - self.pos
        }
    }

    /// Moves the position. A target below zero or above `u64::MAX` is
    /// refused and leaves the position where it was.
    pub fn seek(&mut self, to: SeekFrom) -> (r: Result<u64, IoError>)
        ensures
            final(self)@.bytes == old(self)@.bytes,
            match old(self)@.seek_target(to) {
                Some(p) => r == Ok::<u64, IoError>(p as u64) && final(self)@.pos == p,
                None => r == Err::<u64, IoError>(IoError::InvalidInput) && final(self)@.pos == old(
                    self,
                )@.pos,
            },
    {
        let (base, offset): (u64, i64) = match to {
            SeekFrom::Start(n) => {
                self.pos = n;
                return Ok(n);
            },
            SeekFrom::End(d) => (self.data.len() as u64, d),
            SeekFrom::Current(d) => (self.pos, d),
        };
        let target: Option<u64> = if offset >= 0 {
            base.checked_add(offset as u64)
        } else if offset == i64::MIN {
            base.checked_sub(0x8000_0000_0000_0000u64)
        } else {
            base.checked_sub((-offset) as u64)
        };
        match target {
            Some(p) => {
                self.pos = p;
                Ok(p)
            },
            None => Err(IoError::InvalidInput),
        }
    }

    /// Reads one byte and steps over it. At the end of the input nothing
    /// moves and the read fails.
    pub fn read_u8(&mut self) -> (r: Result<u8, IoError>)
        ensures
            final(self)@.bytes == old(self)@.bytes,
            old(self)@.available() >= 1 ==> r == Ok::<u8, IoError>(old(self)@.bytes[old(self)@.pos])
                && final(self)@.pos == old(self)@.pos + 1,
            old(self)@.available() < 1 ==> r == Err::<u8, IoError>(IoError::UnexpectedEof)
                && final(self)@.pos == old(self)@.pos,
    {
        let len: u64 = self.data.len() as u64;
        if self.pos >= len || len - self.pos < 1 {
            return Err(IoError::UnexpectedEof);
        }
        let b: u8 = self.data[self.pos as usize];
        self.pos = self.pos + 1;
        Ok(b)
    }

    /// Reads a little-endian 16-bit integer and steps over it. With fewer
    /// than two bytes left nothing moves and the read fails.
    pub fn read_u16(&mut self) -> (r: Result<u16, IoError>)
        ensures
            final(self)@.bytes == old(self)@.bytes,
            old(self)@.available() >= 2 ==> r == Ok::<u16, IoError>(
                endian::u16_le_at(old(self)@.bytes, old(self)@.pos) as u16,
            ) && final(self)@.pos == old(self)@.pos + 2,
            old(self)@.available() < 2 ==> r == Err::<u16, IoError>(IoError::UnexpectedEof)
                && final(self)@.pos == old(self)@.pos,
    {
        let len: u64 = self.data.len() as u64;
        if self.pos >= len || len - self.pos < 2 {
            return Err(IoError::UnexpectedEof);
        }
        let at: usize = self.pos as usize;
        let field = slice_subrange(self.data.as_slice(), at, at + 2);
        let n: u16 = endian::read_u16(field);
        self.pos = self.pos + 2;
        Ok(n)
    }

    /// Reads a little-endian 32-bit integer and steps over it. With fewer
    /// than four bytes left nothing moves and the read fails.
    pub fn read_u32(&mut self) -> (r: Result<u32, IoError>)
        ensures
            final(self)@.bytes == old(self)@.bytes,
            old(self)@.available() >= 4 ==> r == Ok::<u32, IoError>(
                endian::u32_le_at(old(self)@.bytes, old(self)@.pos) as u32,
            ) && final(self)@.pos == old(self)@.pos + 4,
            old(self)@.available() < 4 ==> r == Err::<u32, IoError>(IoError::UnexpectedEof)
                && final(self)@.pos == old(self)@.pos,
    {
        let len: u64 = self.data.len() as u64;
        if self.pos >= len || len - self.pos < 4 {
            return Err(IoError::UnexpectedEof);
        }
        let at: usize = self.pos as usize;
        let field = slice_subrange(self.data.as_slice(), at, at + 4);
        let n: u32 = endian::read_u32(field);
        self.pos = self.pos + 4;
        Ok(n)
    }

    /// Appends to `buf` the next bytes of the input, at most `limit` of
    /// them, steps over them and returns how many they were.
    pub fn read_up_to(&mut self, limit: u64, buf: &mut Vec<u8>) -> (n: usize)
        ensures
            final(self)@.bytes == old(self)@.bytes,
            final(self)@.pos == old(self)@.pos + n,
            n == old(self)@.upcoming(limit as int).len(),
            n == if limit < old(self)@.available() {
                limit as int
            } else {
                old(self)@.available()
            },
            final(buf)@ == old(buf)@ + old(self)@.upcoming(limit as int),
    {
        let len: u64 = self.data.len() as u64;
        let avail: u64 = if self.pos >= len {
            0
        } else {
            len - self.pos
        };
        let count: u64 = if limit < avail {
            limit
        } else {
            avail
        };
        if count == 0 {
            assert(buf@ =~= old(buf)@ + old(self)@.upcoming(limit as int));
            return 0;
        }
        let start: usize = self.pos as usize;
        let n: usize = count as usize;
        let mut i: usize = 0;
        while i < n
            invariant
                i <= n,
                start + n <= self.data.len(),
                self.data@ == old(self)@.bytes,
                buf@ == old(buf)@ + self.data@.subrange(start as int, start + i),
            decreases n - i,
        {
            buf.push(self.data[start + i]);
            i = i + 1;
            assert(buf@ =~= old(buf)@ + self.data@.subrange(start as int, start + i));
        }
        self.pos = self.pos + count;
        n
    }
}

} // verus!
