//! The bounded reader: a size-limited view over a byte source that fills a
//! growable buffer and reports how many bytes it obtained.

use crate::io::{ByteSource, IoError};
use vstd::prelude::*;

verus! {

/// A reader that can hand over everything it still has to give.
pub trait ReadExt {
    /// The bytes that this reader has still to give.
    spec fn pending(&self) -> Seq<u8>;

    /// Appends to `buf` all the bytes that the reader has still to give and
    /// returns how many they were. On failure `buf` is as it was before.
    fn read_to_end(&mut self, buf: &mut Vec<u8>) -> (r: Result<usize, IoError>)
        ensures
            r matches Ok(n) ==> n == old(self).pending().len() && final(buf)@ == old(buf)@ + old(
                self,
            ).pending() && final(self).pending().len() == 0,
            r is Err ==> final(buf)@ == old(buf)@,
    ;
}

/// A view over a byte source that gives at most `limit` more bytes.
pub struct Take<'a> {
    /// The source that the view reads from.
    pub inner: &'a mut ByteSource,
    /// The number of bytes that the view may still give.
    pub limit: u64,
}

impl<'a> Take<'a> {
    /// A view over `inner` that gives at most `limit` bytes, starting at
    /// the position of `inner`. What the view reads, `inner` has read.
    pub fn new(inner: &'a mut ByteSource, limit: u64) -> (t: Take<'a>)
        ensures
            t.limit == limit,
            *t.inner == *old(inner),
            *final(inner) == *final(t.inner),
    {
        Take { inner, limit }
    }
}

impl<'a> ReadExt for Take<'a> {
    open spec fn pending(&self) -> Seq<u8> {
        self.inner@.upcoming(self.limit as int)
    }

    /// Never fails: a source that ends early gives fewer bytes.
    fn read_to_end(&mut self, buf: &mut Vec<u8>) -> (r: Result<usize, IoError>)
        ensures
            r is Ok,
            final(self).limit == old(self).limit - old(self).pending().len(),
            final(self).inner@.bytes == old(self).inner@.bytes,
            final(self).inner@.pos == old(self).inner@.pos + old(self).pending().len(),
            *final(final(self).inner) == *final(old(self).inner),
    {
        let n: usize = self.inner.read_up_to(self.limit, buf);
        self.limit = self.limit - n as u64;
        Ok(n)
    }
}

} // verus!
