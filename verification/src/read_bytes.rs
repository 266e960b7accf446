//! Numbers of fixed width, read from a stream in a given byte order.

use vstd::prelude::*;
use vstd::arithmetic::mul::{lemma_mul_inequality, lemma_mul_is_distributive_add_other_way};
use crate::endian::Endian;
use crate::error::XmrgError;
use crate::reader::ByteReader;

verus! {

/// The unsigned number that two bytes stand for.
pub open spec fn u16_value(endianness: Endian, bytes: Seq<u8>) -> int {
    match endianness {
        Endian::Big => bytes[0] * 0x100 + bytes[1],
        Endian::Little => bytes[1] * 0x100 + bytes[0],
    }
}

/// The unsigned number that four bytes stand for.
pub open spec fn u32_value(endianness: Endian, bytes: Seq<u8>) -> int {
    match endianness {
        Endian::Big => bytes[0] * 0x100_0000 + bytes[1] * 0x1_0000 + bytes[2] * 0x100 + bytes[3],
        Endian::Little => bytes[3] * 0x100_0000 + bytes[2] * 0x1_0000 + bytes[1] * 0x100
            + bytes[0],
    }
}

/// The signed number that two bytes stand for, in two's complement.
pub open spec fn i16_value(endianness: Endian, bytes: Seq<u8>) -> int {
    let unsigned = u16_value(endianness, bytes);
    if unsigned < 0x8000 {
        unsigned
    } else {
        unsigned - 0x1_0000
    }
}

/// The signed number that four bytes stand for, in two's complement.
pub open spec fn i32_value(endianness: Endian, bytes: Seq<u8>) -> int {
    let unsigned = u32_value(endianness, bytes);
    if unsigned < 0x8000_0000 {
        unsigned
    } else {
        unsigned - 0x1_0000_0000
    }
}

/// A number that takes a fixed count of bytes in a stream.
pub trait FromBytes: Sized {
    /// Count of bytes that one value takes.
    spec fn width() -> nat;

    /// The value that `bytes`, `width()` of them, stand for.
    spec fn decode(endianness: Endian, bytes: Seq<u8>) -> Self;

    /// Reads one value from `reader`.
    fn from_bytes(endianness: Endian, reader: &mut ByteReader) -> (r: Result<Self, XmrgError>)
        ensures
            final(reader).after_read(old(reader), Self::width() as int, r is Ok),
            r matches Ok(value) ==> value == Self::decode(
                endianness,
                old(reader).remaining().take(Self::width() as int),
            ),
            r matches Err(e) ==> e == XmrgError::UnexpectedEof,
    ;
}

/// A single byte, whatever the byte order.
impl FromBytes for u8 {
    open spec fn width() -> nat {
        1
    }

    open spec fn decode(endianness: Endian, bytes: Seq<u8>) -> u8 {
        bytes[0]
    }

    fn from_bytes(endianness: Endian, reader: &mut ByteReader) -> (r: Result<u8, XmrgError>) {
        let buffer = reader.read_array::<1>()?;
        Ok(buffer[0])
    }
}

/// A signed number of two bytes, in two's complement.
impl FromBytes for i16 {
    open spec fn width() -> nat {
        2
    }

    open spec fn decode(endianness: Endian, bytes: Seq<u8>) -> i16 {
        i16_value(endianness, bytes) as i16
    }

    fn from_bytes(endianness: Endian, reader: &mut ByteReader) -> (r: Result<i16, XmrgError>) {
        let buffer = reader.read_array::<2>()?;
        let (high, low) = match endianness {
            Endian::Big => (buffer[0], buffer[1]),
            Endian::Little => (buffer[1], buffer[0]),
        };
        let unsigned: i32 = high as i32 * 0x100 + low as i32;
        if unsigned < 0x8000 {
            Ok(unsigned as i16)
        } else {
            Ok((unsigned - 0x1_0000) as i16)
        }
    }
}

/// An unsigned number of four bytes. A 32-bit IEEE 754 number is read as
/// this, the bits that encode it.
impl FromBytes for u32 {
    open spec fn width() -> nat {
        4
    }

    open spec fn decode(endianness: Endian, bytes: Seq<u8>) -> u32 {
        u32_value(endianness, bytes) as u32
    }

    fn from_bytes(endianness: Endian, reader: &mut ByteReader) -> (r: Result<u32, XmrgError>) {
        let buffer = reader.read_array::<4>()?;
        let (b3, b2, b1, b0) = match endianness {
            Endian::Big => (buffer[0], buffer[1], buffer[2], buffer[3]),
            Endian::Little => (buffer[3], buffer[2], buffer[1], buffer[0]),
        };
        Ok(b3 as u32 * 0x100_0000 + b2 as u32 * 0x1_0000 + b1 as u32 * 0x100 + b0 as u32)
    }
}

/// A signed number of four bytes, in two's complement.
impl FromBytes for i32 {
    open spec fn width() -> nat {
        4
    }

    open spec fn decode(endianness: Endian, bytes: Seq<u8>) -> i32 {
        i32_value(endianness, bytes) as i32
    }

    fn from_bytes(endianness: Endian, reader: &mut ByteReader) -> (r: Result<i32, XmrgError>) {
        let unsigned = u32::from_bytes(endianness, reader)?;
        if unsigned < 0x8000_0000 {
            Ok(unsigned as i32)
        } else {
            Ok((unsigned as i64 - 0x1_0000_0000) as i32)
        }
    }
}

/// The values that `bytes` hold one after the other, `count` of them.
pub open spec fn decode_all<T: FromBytes>(endianness: Endian, bytes: Seq<u8>, count: int) -> Seq<T> {
    Seq::new(
        count as nat,
        |i: int| T::decode(endianness, bytes.subrange(i * T::width(), (i + 1) * T::width())),
    )
}

/// A run of values of one type: how many there are and their byte order.
#[derive(Debug, Clone, Copy)]
pub struct ReadBytes {
    count: i32,
    endian: Endian,
}

impl ReadBytes {
    /// How many values the run was made for.
    pub closed spec fn count(&self) -> i32 {
        self.count
    }

    /// Byte order of the values.
    pub closed spec fn endian(&self) -> Endian {
        self.endian
    }

    /// Count of the values that a read yields: a run made for a negative
    /// count is empty.
    pub open spec fn len(&self) -> int {
        if self.count() > 0 {
            self.count() as int
        } else {
            0
        }
    }

    /// A run of `count` values in the byte order `endian`.
    pub fn new(count: i32, endian: Endian) -> (run: Self)
        ensures
            run.count() == count,
            run.endian() == endian,
    {
        Self { count, endian }
    }

    /// Reads the values of the run one after the other, and stops at the
    /// first that the stream is too short for.
    pub fn iter<T: FromBytes>(self, reader: &mut ByteReader) -> (r: Result<Vec<T>, XmrgError>)
        ensures
            final(reader).after_read(old(reader), self.len() * T::width(), r is Ok),
            r matches Ok(values) ==> values@ == decode_all::<T>(
                self.endian(),
                old(reader).remaining(),
                self.len(),
            ),
            r matches Err(e) ==> e == XmrgError::UnexpectedEof,
    {
        let ghost width = T::width() as int;
        let ghost bytes = reader.remaining();
        let mut values: Vec<T> = Vec::new();
        let mut i: i32 = 0;
        while i < self.count
            invariant
                0 <= i,
                i <= self.len(),
                width == T::width(),
                bytes == old(reader).remaining(),
                reader.advanced_from(old(reader), i * width),
                i * width <= bytes.len(),
                values@ == decode_all::<T>(self.endian, bytes, i as int),
            decreases self.count - i,
        {
            let ghost before = *reader;
            proof {
                reader.offset_in_bounds();
                old(reader).offset_in_bounds();
                lemma_mul_is_distributive_add_other_way(width, i as int, 1);
            }
            match T::from_bytes(self.endian, reader) {
                Ok(value) => {
                    assert(before.remaining().take(width) == bytes.subrange(
                        i * width,
                        (i + 1) * width,
                    ));
                    values.push(value);
                    i = i + 1;
                },
                Err(e) => {
                    proof {
                        lemma_mul_inequality(i + 1, self.len(), width);
                    }
                    return Err(e);
                },
            }
        }
        Ok(values)
    }

    /// Reads the run as signed 32-bit numbers.
    pub fn read_int32s(self, reader: &mut ByteReader) -> (r: Result<Vec<i32>, XmrgError>)
        ensures
            final(reader).after_read(old(reader), self.len() * 4, r is Ok),
            r matches Ok(values) ==> values@ == decode_all::<i32>(
                self.endian(),
                old(reader).remaining(),
                self.len(),
            ),
            r matches Err(e) ==> e == XmrgError::UnexpectedEof,
    {
        self.iter(reader)
    }

    /// Reads the run as signed 16-bit numbers.
    pub fn read_int16s(self, reader: &mut ByteReader) -> (r: Result<Vec<i16>, XmrgError>)
        ensures
            final(reader).after_read(old(reader), self.len() * 2, r is Ok),
            r matches Ok(values) ==> values@ == decode_all::<i16>(
                self.endian(),
                old(reader).remaining(),
                self.len(),
            ),
            r matches Err(e) ==> e == XmrgError::UnexpectedEof,
    {
        self.iter(reader)
    }

    /// Reads the run as single bytes.
    pub fn read_u8s(self, reader: &mut ByteReader) -> (r: Result<Vec<u8>, XmrgError>)
        ensures
            final(reader).after_read(old(reader), self.len(), r is Ok),
            r matches Ok(values) ==> values@ == old(reader).remaining().take(self.len()),
            r matches Err(e) ==> e == XmrgError::UnexpectedEof,
    {
        let values = self.iter::<u8>(reader)?;
        assert(values@ == old(reader).remaining().take(self.len()));
        Ok(values)
    }
}

} // verus!
