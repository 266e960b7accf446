//! A cursor over the bytes of one file.

use vstd::prelude::*;
use crate::error::XmrgError;

verus! {

/// The bytes of a stream together with the offset of the next byte to read.
///
/// A read that finds fewer bytes than it needs fails and leaves the reader at
/// the end of the stream, so that every later read fails too.
pub struct ByteReader {
    data: Vec<u8>,
    pos: usize,
}

impl ByteReader {
    #[verifier::type_invariant]
    spec fn in_bounds(&self) -> bool {
        self.pos <= self.data.len()
    }

    /// All bytes of the stream, read or not.
    pub closed spec fn stream(&self) -> Seq<u8> {
        self.data@
    }

    /// Offset of the next byte to read; never past the end of the stream.
    pub closed spec fn offset(&self) -> int {
        if self.pos <= self.data.len() {
            self.pos as int
        } else {
            self.data.len() as int
        }
    }

    /// The bytes that have not been read yet.
    pub open spec fn remaining(&self) -> Seq<u8> {
        self.stream().skip(self.offset())
    }

    /// `self` is `before` moved on by `n` bytes.
    pub open spec fn advanced_from(&self, before: &ByteReader, n: int) -> bool {
        &&& self.stream() == before.stream()
        &&& self.offset() == before.offset() + n
    }

    /// `self` is `before` with nothing left to read.
    pub open spec fn exhausted_from(&self, before: &ByteReader) -> bool {
        &&& self.stream() == before.stream()
        &&& self.offset() == before.stream().len()
    }

    /// What a read of `n` bytes makes of `before`: `self` is `n` bytes further
    /// on if `before` had that many left and the read succeeded, and at the
    /// end of the stream if it had not and the read failed.
    pub open spec fn after_read(&self, before: &ByteReader, n: int, ok: bool) -> bool {
        if n <= before.remaining().len() {
            ok && self.advanced_from(before, n)
        } else {
            !ok && self.exhausted_from(before)
        }
    }

    /// The offset lies inside the stream or at its end.
    pub proof fn offset_in_bounds(&self)
        ensures
            0 <= self.offset() <= self.stream().len(),
            self.remaining().len() == self.stream().len() - self.offset(),
    {
    }

    /// A reader at the start of `data`.
    pub fn new(data: Vec<u8>) -> (reader: Self)
        ensures
            reader.stream() == data@,
            reader.offset() == 0,
    {
        ByteReader { data, pos: 0 }
    }

    /// Offset of the next byte to read.
    pub fn position(&self) -> (pos: usize)
        ensures
            pos == self.offset(),
    {
        proof {
            use_type_invariant(self);
        }
        self.pos
    }

    /// Number of bytes in the whole stream.
    pub fn len(&self) -> (len: usize)
        ensures
            len == self.stream().len(),
    {
        self.data.len()
    }

    /// Passes over `n` bytes without looking at them.
    pub fn skip(&mut self, n: usize) -> (r: Result<(), XmrgError>)
        ensures
            final(self).after_read(old(self), n as int, r is Ok),
            r matches Err(e) ==> e == XmrgError::UnexpectedEof,
    {
        proof {
            use_type_invariant(&*self);
        }
        if n <= self.data.len() - self.pos {
            self.pos = self.pos + n;
            Ok(())
        } else {
            self.pos = self.data.len();
            Err(XmrgError::UnexpectedEof)
        }
    }

    /// Moves to `offset`, counted from the start of the stream.
    pub fn seek(&mut self, offset: usize) -> (r: Result<(), XmrgError>)
        ensures
            final(self).stream() == old(self).stream(),
            match r {
                Ok(_) => offset <= old(self).stream().len() && final(self).offset() == offset,
                Err(e) => e == XmrgError::UnexpectedEof && offset > old(self).stream().len()
                    && final(self).exhausted_from(old(self)),
            },
    {
        if offset <= self.data.len() {
            self.pos = offset;
            Ok(())
        } else {
            self.pos = self.data.len();
            Err(XmrgError::UnexpectedEof)
        }
    }

    /// Reads the next `N` bytes.
    pub fn read_array<const N: usize>(&mut self) -> (r: Result<[u8; N], XmrgError>)
        ensures
            final(self).after_read(old(self), N as int, r is Ok),
            r matches Ok(bytes) ==> bytes@ == old(self).remaining().take(N as int),
            r matches Err(e) ==> e == XmrgError::UnexpectedEof,
    {
        proof {
            use_type_invariant(&*self);
        }
        if N <= self.data.len() - self.pos {
            let mut bytes = [0u8; N];
            let mut i: usize = 0;
            while i < N
                invariant
                    i <= N,
                    self.pos + N <= self.data.len(),
                    forall|k: int| 0 <= k < i ==> bytes@[k] == self.data@[self.pos + k],
                decreases N - i,
            {
                bytes[i] = self.data[self.pos + i];
                i = i + 1;
            }
            self.pos = self.pos + N;
            Ok(bytes)
        } else {
            self.pos = self.data.len();
            Err(XmrgError::UnexpectedEof)
        }
    }
}

} // verus!
