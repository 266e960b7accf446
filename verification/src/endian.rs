//! Byte order of a stream, and how it is found out.

use vstd::prelude::*;
use crate::error::XmrgError;
use crate::read_bytes::{i32_value, FromBytes};
use crate::reader::ByteReader;

verus! {

/// Order in which the bytes of a number follow each other in a stream.
#[derive(Debug, Clone, Copy, PartialEq, Eq, Structural)]
pub enum Endian {
    Little,
    Big,
}

/// The record-length word that opens a well-formed file.
pub const HEADER_RECORD_LENGTH: i32 = 16;

/// Byte order of a stream that opens with the four bytes `probe`.
///
/// A file starts with the length of its header record, which is 16. Read
/// most significant byte first, the word shows 16 only in a big-endian file;
/// whatever else it shows is taken for little-endian, with no further test.
pub open spec fn detect_endian(probe: Seq<u8>) -> Endian {
    if i32_value(Endian::Big, probe) == HEADER_RECORD_LENGTH {
        Endian::Big
    } else {
        Endian::Little
    }
}

/// A stream is taken for big-endian exactly when it opens with the bytes
/// 0, 0, 0, 16: of all words of four bytes, only this one shows 16 when it
/// is read most significant byte first.
pub proof fn lemma_big_endian_probe(probe: Seq<u8>)
    requires
        probe.len() == 4,
    ensures
        detect_endian(probe) == Endian::Big <==> probe == seq![0u8, 0u8, 0u8, 16u8],
        detect_endian(probe) == Endian::Little <==> probe != seq![0u8, 0u8, 0u8, 16u8],
{
    if probe[0] == 0 && probe[1] == 0 && probe[2] == 0 && probe[3] == 16 {
        assert(probe =~= seq![0u8, 0u8, 0u8, 16u8]);
    }
}

impl Endian {
    /// Reads one value of type `T` in this byte order.
    pub fn read<T: FromBytes>(self, reader: &mut ByteReader) -> (r: Result<T, XmrgError>)
        ensures
            final(reader).after_read(old(reader), T::width() as int, r is Ok),
            r matches Ok(value) ==> value == T::decode(
                self,
                old(reader).remaining().take(T::width() as int),
            ),
            r matches Err(e) ==> e == XmrgError::UnexpectedEof,
    {
        T::from_bytes(self, reader)
    }
}

/// Reads four bytes as a signed number, most significant byte first.
pub fn read_b_int32(reader: &mut ByteReader) -> (r: Result<i32, XmrgError>)
    ensures
        final(reader).after_read(old(reader), 4, r is Ok),
        r matches Ok(value) ==> value == i32_value(Endian::Big, old(reader).remaining().take(4)),
        r matches Err(e) ==> e == XmrgError::UnexpectedEof,
{
    Endian::Big.read::<i32>(reader)
}

/// Finds the byte order of a stream from its next four bytes.
pub fn get_endian(reader: &mut ByteReader) -> (r: Result<Endian, XmrgError>)
    ensures
        final(reader).after_read(old(reader), 4, r is Ok),
        r matches Ok(endian) ==> endian == detect_endian(old(reader).remaining().take(4)),
        r matches Err(e) ==> e == XmrgError::UnexpectedEof,
{
    match read_b_int32(reader) {
        Ok(word) => {
            if word == HEADER_RECORD_LENGTH {
                Ok(Endian::Big)
            } else {
                Ok(Endian::Little)
            }
        },
        Err(e) => Err(e),
    }
}

} // verus!
