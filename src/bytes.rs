//! Byte cursors and the traits that read values from them and write values to them.

use vstd::prelude::*;

verus! {

/// Failure of a read or a write on a byte cursor.
#[derive(Debug, Clone, Copy, PartialEq, Eq, Structural)]
pub enum Error {
    /// Fewer bytes are left to read than the value takes.
    Eof,
    /// The output buffer has less room left than the value takes.
    InsufficientSpace,
}

/// The value of the little-endian 16-bit integer whose bytes are `lo`, then `hi`.
pub open spec fn u16_from_le(lo: u8, hi: u8) -> u16 {
    (lo as int + 256 * (hi as int)) as u16
}

/// The little-endian encoding of `v`: its low byte, then its high byte.
pub open spec fn u16_to_le(v: u16) -> Seq<u8> {
    seq![(v % 256) as u8, (v / 256) as u8]
}

/// A cursor that reads from a borrowed byte slice, front to back.
pub struct ByteReader<'a> {
    bytes: &'a [u8],
    pos: usize,
}

impl<'a> ByteReader<'a> {
    /// The position lies within the slice.
    pub closed spec fn wf(&self) -> bool {
        self.pos <= self.bytes@.len()
    }

    /// The bytes that are still to be read.
    pub closed spec fn remaining(&self) -> Seq<u8> {
        self.bytes@.subrange(self.pos as int, self.bytes@.len() as int)
    }

    /// Creates a reader positioned at the start of `bytes`.
    pub fn new(bytes: &'a [u8]) -> (r: Self)
        ensures
            r.wf(),
            r.remaining() == bytes@,
    {
        ByteReader { bytes, pos: 0 }
    }

    /// Returns the number of bytes that are still to be read.
    pub fn bytes_left(&self) -> (r: usize)
        requires
            self.wf(),
        ensures
            r == self.remaining().len(),
    {
        self.bytes.len() - self.pos
    }

    /// Reads a little-endian `u16`, advancing the cursor by 2 bytes. With
    /// fewer than 2 bytes left the reader stays as it is and `Eof` is returned.
    pub fn read_u16_le(&mut self) -> (r: Result<u16, Error>)
        requires
            old(self).wf(),
        ensures
            final(self).wf(),
            old(self).remaining().len() < 2 ==> r == Err::<u16, Error>(Error::Eof)
                && final(self).remaining() == old(self).remaining(),
            old(self).remaining().len() >= 2 ==> r == Ok::<u16, Error>(
                u16_from_le(old(self).remaining()[0], old(self).remaining()[1]),
            ) && final(self).remaining() == old(self).remaining().skip(2),
    {
        if self.bytes.len() - self.pos < 2 {
            return Err(Error::Eof);
        }
        let lo = self.bytes[self.pos];
        let hi = self.bytes[self.pos + 1];
        self.pos = self.pos + 2;
        Ok(lo as u16 + (hi as u16) * 256)
    }
}

/// A cursor that appends bytes to an output buffer of fixed capacity.
pub struct ByteWriter {
    buf: Vec<u8>,
    cap: usize,
}

impl ByteWriter {
    /// What was written does not exceed the capacity.
    pub closed spec fn wf(&self) -> bool {
        self.buf@.len() <= self.cap
    }

    /// The bytes written so far.
    pub closed spec fn written(&self) -> Seq<u8> {
        self.buf@
    }

    /// The number of bytes the buffer can hold in all.
    pub closed spec fn capacity(&self) -> nat {
        self.cap as nat
    }

    /// The number of bytes that can still be written.
    pub open spec fn room(&self) -> int {
        self.capacity() - self.written().len()
    }

    /// Creates an empty writer whose buffer holds `capacity` bytes.
    pub fn new(capacity: usize) -> (r: Self)
        ensures
            r.wf(),
            r.written() == Seq::<u8>::empty(),
            r.capacity() == capacity,
    {
        ByteWriter { buf: Vec::new(), cap: capacity }
    }

    /// Returns the number of bytes that can still be written.
    pub fn space_left(&self) -> (r: usize)
        requires
            self.wf(),
        ensures
            r == self.room(),
    {
        self.cap - self.buf.len()
    }

    /// Consumes the writer and returns the bytes written.
    pub fn into_bytes(self) -> (r: Vec<u8>)
        ensures
            r@ == self.written(),
    {
        self.buf
    }

    /// Writes `v` as 2 little-endian bytes. With less than 2 bytes of room
    /// the writer stays as it is and `InsufficientSpace` is returned.
    pub fn write_u16_le(&mut self, v: u16) -> (r: Result<(), Error>)
        requires
            old(self).wf(),
        ensures
            final(self).wf(),
            final(self).capacity() == old(self).capacity(),
            old(self).room() < 2 ==> r == Err::<(), Error>(Error::InsufficientSpace)
                && final(self).written() == old(self).written(),
            old(self).room() >= 2 ==> r == Ok::<(), Error>(())
                && final(self).written() == old(self).written() + u16_to_le(v),
    {
        if self.cap - self.buf.len() < 2 {
            return Err(Error::InsufficientSpace);
        }
        self.buf.push((v % 256) as u8);
        self.buf.push((v / 256) as u8);
        assert(self.buf@ == old(self).buf@ + u16_to_le(v));
        Ok(())
    }
}

/// A type whose values can be read from the front of a byte sequence.
pub trait FromBytes: View + Sized {
    /// The value that the front of `bytes` encodes and the number of bytes
    /// that encoding takes, or `None` where `bytes` is too short to hold one.
    spec fn spec_from_bytes(bytes: Seq<u8>) -> Option<(Self::V, nat)>;

    /// Reads a value from `reader`, advancing it past the bytes consumed.
    /// Where the remaining bytes are too short, `Eof` is returned and the
    /// reader is left in an unspecified position.
    fn from_bytes(reader: &mut ByteReader<'_>) -> (r: Result<Self, Error>)
        requires
            old(reader).wf(),
        ensures
            final(reader).wf(),
            match Self::spec_from_bytes(old(reader).remaining()) {
                Some((v, n)) => r matches Ok(x) && x@ == v && final(reader).remaining()
                    == old(reader).remaining().skip(n as int),
                None => r == Err::<Self, Error>(Error::Eof),
            },
    ;
}

/// A type whose values can be written as bytes.
pub trait ToBytes: View {
    /// The encoding of the value `v`.
    spec fn spec_to_bytes(v: Self::V) -> Seq<u8>;

    /// Appends the encoding of `self` to `writer`. Where the writer has too
    /// little room, `InsufficientSpace` is returned and the caller must
    /// discard whatever was written.
    fn to_bytes(&self, writer: &mut ByteWriter) -> (r: Result<(), Error>)
        requires
            old(writer).wf(),
        ensures
            final(writer).wf(),
            final(writer).capacity() == old(writer).capacity(),
            old(writer).room() >= Self::spec_to_bytes(self@).len() ==> r == Ok::<(), Error>(())
                && final(writer).written() == old(writer).written() + Self::spec_to_bytes(self@),
            old(writer).room() < Self::spec_to_bytes(self@).len() ==> r == Err::<(), Error>(
                Error::InsufficientSpace,
            ),
    ;
}

} // verus!
