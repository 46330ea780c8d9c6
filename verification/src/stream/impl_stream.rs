//! A byte stream over data held in memory.

use vstd::prelude::*;
use vstd::slice::{slice_subrange, slice_to_vec};
use crate::error::{CoreError, Result};
use crate::stream::block::Block;

verus! {

/// A source of bytes with a read position. The position may stand beyond the
/// end of the data; nothing can be read there.
#[derive(Debug)]
pub struct Stream {
    data: Vec<u8>,
    pos: usize,
}

/// What a [`Stream`] stands for: all of its bytes, and the read position.
pub struct StreamView {
    pub data: Seq<u8>,
    pub pos: int,
}

impl StreamView {
    /// How many of `len` wanted bytes there are at the read position.
    pub open spec fn available(self, len: int) -> int {
        if self.pos < 0 || self.pos >= self.data.len() || len <= 0 {
            0
        } else if len <= self.data.len() - self.pos {
            len
        } else {
            self.data.len() - self.pos
        }
    }

    /// The next `len` bytes, or as many as there are.
    pub open spec fn upcoming(self, len: int) -> Seq<u8> {
        if self.available(len) == 0 {
            Seq::empty()
        } else {
            self.data.subrange(self.pos, self.pos + self.available(len))
        }
    }

    /// The stream after `len` bytes, or as many as there are, were taken.
    pub open spec fn advanced(self, len: int) -> StreamView {
        StreamView { pos: self.pos + self.available(len), ..self }
    }
}

impl View for Stream {
    type V = StreamView;

    closed spec fn view(&self) -> StreamView {
        StreamView { data: self.data@, pos: self.pos as int }
    }
}

impl Stream {
    /// Creates a stream over `data`, positioned at its start.
    pub fn new(data: Vec<u8>) -> (s: Stream)
        ensures
            s@ == (StreamView { data: data@, pos: 0 }),
    {
        Stream { data, pos: 0 }
    }

    /// How many of `len` wanted bytes can be taken.
    fn room(&self, len: usize) -> (n: usize)
        ensures
            n == self@.available(len as int),
            self.pos + n <= self.data@.len() || n == 0,
            self.pos + n <= usize::MAX,
    {
        let size: usize = self.data.len();
        if self.pos >= size {
            0
        } else if len <= size - self.pos {
            len
        } else {
            size - self.pos
        }
    }

    /// The next `len` bytes, or as many as there are, without moving on.
    pub fn peek(&self, len: usize) -> (buf: &[u8])
        ensures
            buf@ == self@.upcoming(len as int),
    {
        let n: usize = self.room(len);
        if n == 0 {
            let empty: &[u8] = slice_subrange(self.data.as_slice(), 0, 0);
            assert(empty@ =~= self@.upcoming(len as int));
            empty
        } else {
            slice_subrange(self.data.as_slice(), self.pos, self.pos + n)
        }
    }

    /// Reads the next `len` bytes, or as many as there are.
    pub fn read(&mut self, len: usize) -> (buf: Vec<u8>)
        ensures
            buf@ == old(self)@.upcoming(len as int),
            final(self)@ == old(self)@.advanced(len as int),
    {
        let n: usize = self.room(len);
        let buf: Vec<u8> = slice_to_vec(self.peek(len));
        if n > 0 {
            self.pos = self.pos + n;
        }
        buf
    }

    /// Pulls the next `len` bytes, or as many as there are, as a block.
    pub fn block(&mut self, len: usize) -> (b: Block)
        ensures
            b.data@ == old(self)@.upcoming(len as int),
            b.next is None,
            final(self)@ == old(self)@.advanced(len as int),
    {
        Block { data: self.read(len), next: None }
    }

    /// Moves the read position to `offset` bytes from the start. The offset
    /// may lie beyond the end. Fails only where it does not fit `usize`.
    pub fn seek(&mut self, offset: u64) -> (r: Result<()>)
        ensures
            r is Ok <==> offset <= usize::MAX,
            r is Ok ==> final(self)@ == (StreamView { pos: offset as int, ..old(self)@ }),
            r matches Err(e) ==> e == CoreError::Unknown && final(self)@ == old(self)@,
    {
        if offset > usize::MAX as u64 {
            return Err(CoreError::Unknown);
        }
        self.pos = offset as usize;
        Ok(())
    }

    /// The read position.
    pub fn tell(&self) -> (pos: u64)
        ensures
            pos == self@.pos,
    {
        self.pos as u64
    }

    /// Whether the read position is at the end or beyond.
    pub fn eof(&self) -> (r: bool)
        ensures
            r == (self@.pos >= self@.data.len()),
    {
        self.pos >= self.data.len()
    }

    /// The number of bytes in the stream.
    pub fn size(&self) -> (n: u64)
        ensures
            n == self@.data.len(),
    {
        self.data.len() as u64
    }

    /// Whether the stream can seek: a stream in memory can.
    pub fn can_seek(&self) -> (r: bool)
        ensures
            r,
    {
        true
    }
}

} // verus!
