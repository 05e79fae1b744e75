//! Attribute handles and handle ranges.

use crate::bytes::{u16_from_le, u16_to_le, ByteReader, ByteWriter, Error, FromBytes, ToBytes};
use crate::error::{AttError, ErrorCode};
use vstd::prelude::*;

verus! {

/// A 16-bit handle that identifies an attribute on an ATT server.
///
/// The `0x0000` handle (`NULL`) never identifies an attribute.
#[derive(Debug, Clone, Copy, PartialEq, Eq, Structural)]
pub struct Handle(u16);

impl View for Handle {
    type V = u16;

    closed spec fn view(&self) -> u16 {
        self.0
    }
}

impl Handle {
    /// The `0x0000` handle. It identifies no attribute and stands where no
    /// handle applies (in error responses, for instance).
    pub fn null() -> (r: Self)
        ensures
            r@ == 0,
    {
        Handle(0x0000)
    }

    /// Returns the raw 16-bit value of this handle.
    pub fn as_u16(&self) -> (r: u16)
        ensures
            r == self@,
    {
        self.0
    }

    /// Creates a handle from its raw 16-bit value, without any check:
    /// the `NULL` handle can be made this way.
    pub fn from_raw(raw: u16) -> (r: Self)
        ensures
            r@ == raw,
    {
        Handle(raw)
    }
}

impl FromBytes for Handle {
    open spec fn spec_from_bytes(bytes: Seq<u8>) -> Option<(u16, nat)> {
        if bytes.len() >= 2 {
            Some((u16_from_le(bytes[0], bytes[1]), 2))
        } else {
            None
        }
    }

    fn from_bytes(reader: &mut ByteReader<'_>) -> (r: Result<Self, Error>) {
        let raw = reader.read_u16_le()?;
        Ok(Handle(raw))
    }
}

impl ToBytes for Handle {
    open spec fn spec_to_bytes(v: u16) -> Seq<u8> {
        u16_to_le(v)
    }

    fn to_bytes(&self, writer: &mut ByteWriter) -> (r: Result<(), Error>) {
        writer.write_u16_le(self.as_u16())
    }
}

/// Handle equality is bitwise: two handles are equal exactly when their raw
/// values are.
pub proof fn lemma_handle_eq(a: Handle, b: Handle)
    ensures
        (a == b) == (a@ == b@),
{
}

/// Decoding the 2-byte little-endian encoding of any `u16` value `v` gives
/// the handle whose raw value is `v`, and encoding that handle gives the same
/// 2 bytes back.
pub proof fn lemma_handle_round_trip(v: u16)
    ensures
        Handle::spec_from_bytes(seq![(v % 256) as u8, (v / 256) as u8]) == Some((v, 2nat)),
        Handle::spec_to_bytes(v) == seq![(v % 256) as u8, (v / 256) as u8],
{
    let b = seq![(v % 256) as u8, (v / 256) as u8];
    assert(b[0] == (v % 256) as u8 && b[1] == (v / 256) as u8);
    assert(u16_from_le(b[0], b[1]) == v);
}

/// Whether `start..=end` is a valid handle range: it does not start at the
/// `NULL` handle and does not end before it starts.
pub open spec fn is_valid_range(start: u16, end: u16) -> bool {
    start != 0 && start <= end
}

/// A handle range as it is read off the wire, not yet checked for validity.
#[derive(Debug, Clone, Copy)]
pub struct RawHandleRange {
    start: Handle,
    end: Handle,
}

impl View for RawHandleRange {
    /// The raw values of the first and of the last handle.
    type V = (u16, u16);

    closed spec fn view(&self) -> (u16, u16) {
        (self.start@, self.end@)
    }
}

impl RawHandleRange {
    /// Creates a raw range from its first and its last handle, unchecked.
    pub fn new(start: Handle, end: Handle) -> (r: Self)
        ensures
            r@ == (start@, end@),
    {
        RawHandleRange { start, end }
    }

    /// Checks that this range is valid. A valid range is returned unchanged
    /// as a `HandleRange`; an invalid one gives an `InvalidHandle` error that
    /// reports the range's first handle, to be sent back as a response.
    pub fn check(&self) -> (r: Result<HandleRange, AttError>)
        ensures
            match r {
                Ok(range) => is_valid_range(self@.0, self@.1) && range@ == self@,
                Err(e) => !is_valid_range(self@.0, self@.1) && e.code == ErrorCode::InvalidHandle
                    && e.handle@ == self@.0,
            },
    {
        if self.start.0 > self.end.0 || self.start.0 == 0 {
            Err(AttError::new(ErrorCode::InvalidHandle, self.start))
        } else {
            Ok(HandleRange { start: self.start, end: self.end })
        }
    }
}

impl FromBytes for RawHandleRange {
    open spec fn spec_from_bytes(bytes: Seq<u8>) -> Option<((u16, u16), nat)> {
        if bytes.len() >= 4 {
            Some(((u16_from_le(bytes[0], bytes[1]), u16_from_le(bytes[2], bytes[3])), 4))
        } else {
            None
        }
    }

    fn from_bytes(reader: &mut ByteReader<'_>) -> (r: Result<Self, Error>) {
        let ghost bytes = reader.remaining();
        let start = Handle::from_bytes(reader)?;
        let end = Handle::from_bytes(reader)?;
        assert(bytes.skip(2).skip(2) == bytes.skip(4));
        Ok(RawHandleRange { start, end })
    }
}

impl ToBytes for RawHandleRange {
    open spec fn spec_to_bytes(v: (u16, u16)) -> Seq<u8> {
        u16_to_le(v.0) + u16_to_le(v.1)
    }

    fn to_bytes(&self, writer: &mut ByteWriter) -> (r: Result<(), Error>) {
        let ghost before = writer.written();
        writer.write_u16_le(self.start.as_u16())?;
        writer.write_u16_le(self.end.as_u16())?;
        assert(writer.written() == before + (u16_to_le(self.start@) + u16_to_le(self.end@)));
        Ok(())
    }
}

/// An inclusive range of handles that has been checked for validity: it
/// does not start at the `NULL` handle and does not end before it starts.
#[derive(Debug)]
pub struct HandleRange {
    start: Handle,
    end: Handle,
}

impl View for HandleRange {
    /// The raw values of the first and of the last handle.
    type V = (u16, u16);

    closed spec fn view(&self) -> (u16, u16) {
        (self.start@, self.end@)
    }
}

impl HandleRange {
    #[verifier::type_invariant]
    spec fn inv(&self) -> bool {
        is_valid_range(self.start.0, self.end.0)
    }

    /// Creates the range `from..=to` without a check at run time: the caller
    /// establishes that the range is valid.
    pub fn new(from: Handle, to: Handle) -> (r: Self)
        requires
            is_valid_range(from@, to@),
        ensures
            r@ == (from@, to@),
    {
        HandleRange { start: from, end: to }
    }

    /// Returns whether `handle` lies in this range, both bounds included.
    pub fn contains(&self, handle: Handle) -> (r: bool)
        ensures
            r == (self@.0 <= handle@ && handle@ <= self@.1),
    {
        self.start.0 <= handle.as_u16() && self.end.0 >= handle.as_u16()
    }

    /// Returns the first (lowest) handle of the range.
    pub fn start(&self) -> (r: Handle)
        ensures
            r@ == self@.0,
            is_valid_range(self@.0, self@.1),
    {
        proof {
            use_type_invariant(self);
        }
        self.start
    }

    /// Returns the last (highest) handle of the range.
    pub fn end(&self) -> (r: Handle)
        ensures
            r@ == self@.1,
            is_valid_range(self@.0, self@.1),
    {
        proof {
            use_type_invariant(self);
        }
        self.end
    }
}

} // verus!
