//! The grid header, the cells that it spans, and the metadata records of the
//! later layouts.

use vstd::prelude::*;
use vstd::arithmetic::div_mod::{
    lemma_basic_div, lemma_div_plus_one, lemma_mod_add_multiples_vanish, lemma_small_mod,
};
use crate::endian::Endian;
use crate::error::XmrgError;
use crate::geo::GridCell;
use crate::read_bytes::{i32_value, u32_value, ReadBytes};
use crate::reader::ByteReader;
use crate::text::{decode_text, field_text};

verus! {

/// The first record of a file: where the grid lies on the HRAP grid and how
/// large it is. The numbers are kept as read; none is checked.
#[derive(Debug, Clone, Copy, PartialEq, Eq, Structural)]
pub struct Header {
    /// Column of the grid's first cell.
    pub xor: i32,
    /// Row of the grid's first cell.
    pub yor: i32,
    /// Count of cells in a row.
    pub columns: i32,
    /// Count of rows.
    pub rows: i32,
}

impl Header {
    /// Count of values in a row of the grid: `columns`, and none where that
    /// is negative.
    pub open spec fn width(&self) -> int {
        if self.columns > 0 {
            self.columns as int
        } else {
            0
        }
    }

    /// Count of rows of the grid: `rows`, and none where that is negative.
    pub open spec fn height(&self) -> int {
        if self.rows > 0 {
            self.rows as int
        } else {
            0
        }
    }

    /// The header that a header record holds: four signed numbers of four
    /// bytes each, in the order of the fields.
    pub open spec fn decoded(endian: Endian, bytes: Seq<u8>) -> Header {
        Header {
            xor: i32_value(endian, bytes.subrange(0, 4)) as i32,
            yor: i32_value(endian, bytes.subrange(4, 8)) as i32,
            columns: i32_value(endian, bytes.subrange(8, 12)) as i32,
            rows: i32_value(endian, bytes.subrange(12, 16)) as i32,
        }
    }

    /// The cell of the `k`th value, counted row by row.
    pub open spec fn cell(&self, k: int) -> GridCell {
        GridCell {
            x: (self.xor + k % self.width()) as i64,
            y: (self.yor + k / self.width()) as i64,
        }
    }

    /// The cells of the grid in the order of their values in a file: along
    /// a row first, then on to the next row.
    pub open spec fn cells(&self) -> Seq<GridCell> {
        Seq::new((self.width() * self.height()) as nat, |k: int| self.cell(k))
    }

    /// Takes the header from the four numbers of the first record.
    pub fn from_vec(vec: Vec<i32>) -> (header: Self)
        requires
            vec.len() >= 4,
        ensures
            header == (Header { xor: vec[0], yor: vec[1], columns: vec[2], rows: vec[3] }),
    {
        Self { xor: vec[0], yor: vec[1], columns: vec[2], rows: vec[3] }
    }

    /// Starts a walk over the cells of the grid.
    pub fn into_iter(self) -> (generator: CoordinateGenerator)
        ensures
            generator@ == self.cells(),
    {
        let generator = CoordinateGenerator {
            start_x: self.xor as i64,
            next_x: self.xor as i64,
            next_y: self.yor as i64,
            x_end: self.xor as i64 + self.columns as i64,
            y_end: self.yor as i64 + self.rows as i64,
        };
        proof {
            if self.columns > 0 && self.rows > 0 {
                assert(self.rows * self.columns == self.columns * self.rows) by (nonlinear_arith);
                assert(generator@ =~= self.cells());
            } else {
                assert(self.width() * self.height() == 0) by (nonlinear_arith)
                    requires
                        self.width() == 0 || self.height() == 0,
                ;
                assert(generator@ =~= self.cells());
            }
        }
        generator
    }
}

/// Reads the header record. No number in it is refused.
pub fn header_reader(reader: &mut ByteReader, endian: Endian) -> (r: Result<Header, XmrgError>)
    ensures
        final(reader).after_read(old(reader), 16, r is Ok),
        r matches Ok(header) ==> header == Header::decoded(endian, old(reader).remaining()),
        r matches Err(e) ==> e == XmrgError::UnexpectedEof,
{
    let numbers = ReadBytes::new(4, endian).read_int32s(reader)?;
    Ok(Header::from_vec(numbers))
}

/// A walk over the cells of a grid, in the order of their values in a file.
pub struct CoordinateGenerator {
    start_x: i64,
    next_x: i64,
    next_y: i64,
    x_end: i64,
    y_end: i64,
}

impl View for CoordinateGenerator {
    type V = Seq<GridCell>;

    /// The cells still to come.
    closed spec fn view(&self) -> Seq<GridCell> {
        if self.start_x < self.x_end && self.next_y < self.y_end {
            let width = self.x_end - self.start_x;
            let done = self.next_x - self.start_x;
            Seq::new(
                ((self.y_end - self.next_y) * width - done) as nat,
                |k: int|
                    GridCell {
                        x: (self.start_x + (done + k) % width) as i64,
                        y: (self.next_y + (done + k) / width) as i64,
                    },
            )
        } else {
            Seq::empty()
        }
    }
}

impl CoordinateGenerator {
    #[verifier::type_invariant]
    spec fn inside_row(&self) -> bool {
        self.start_x < self.x_end && self.next_y < self.y_end ==> self.start_x <= self.next_x
            < self.x_end
    }

    /// Hands out the next cell, if one is left.
    pub fn next(&mut self) -> (cell: Option<GridCell>)
        ensures
            old(self)@.len() == 0 ==> cell is None && final(self)@ == old(self)@,
            old(self)@.len() > 0 ==> cell == Some(old(self)@[0]) && final(self)@ == old(self)@.skip(
                1,
            ),
    {
        proof {
            use_type_invariant(&*self);
        }
        if self.start_x < self.x_end && self.next_y < self.y_end {
            let ghost width = self.x_end - self.start_x;
            let ghost done = self.next_x - self.start_x;
            let ghost left = self.y_end - self.next_y;
            let cell = GridCell { x: self.next_x, y: self.next_y };
            proof {
                assert(left * width >= width) by (nonlinear_arith)
                    requires
                        left >= 1,
                        width >= 1,
                ;
                lemma_small_mod(done as nat, width as nat);
                lemma_basic_div(done, width);
            }
            assert(old(self)@[0] == cell);
            if self.next_x + 1 < self.x_end {
                self.next_x = self.next_x + 1;
                assert(self@ =~= old(self)@.skip(1));
            } else {
                self.next_x = self.start_x;
                self.next_y = self.next_y + 1;
                proof {
                    assert(done == width - 1);
                    assert((left - 1) * width == left * width - width) by (nonlinear_arith);
                    assert(left == 1 ==> left * width == width) by (nonlinear_arith);
                    assert(self@.len() == old(self)@.len() - 1);
                    assert forall|k: int| 0 <= k < self@.len() implies self@[k] == old(self)@[k
                        + 1] by {
                        lemma_mod_add_multiples_vanish(k, width);
                        lemma_div_plus_one(k, width);
                        assert(done + (k + 1) == k + width);
                    }
                    assert(self@ =~= old(self)@.skip(1));
                }
            }
            Some(cell)
        } else {
            None
        }
    }
}

/// The metadata that every layout since 1997 holds.
#[derive(Debug, PartialEq, Eq)]
pub struct Build1997Header {
    pub user_id: String,
    pub saved_datetime: String,
    pub process_flag: String,
}

impl Build1997Header {
    /// Whether this is the record that `bytes` hold: the user's name in 10
    /// bytes, the time of saving in 20 and the process flag in 8.
    pub open spec fn decoded_from(&self, bytes: Seq<u8>) -> bool {
        &&& self.user_id@ == field_text(bytes.subrange(0, 10))
        &&& self.saved_datetime@ == field_text(bytes.subrange(10, 30))
        &&& self.process_flag@ == field_text(bytes.subrange(30, 38))
    }

    /// A record of these three fields.
    pub fn new(user_id: String, saved_datetime: String, process_flag: String) -> (header: Self)
        ensures
            header.user_id == user_id,
            header.saved_datetime == saved_datetime,
            header.process_flag == process_flag,
    {
        Build1997Header { user_id, saved_datetime, process_flag }
    }
}

/// What build 4.2 added to the metadata.
#[derive(Debug, PartialEq, Eq)]
pub struct Build4_2Additions {
    pub valid_datetime: String,
    pub max_value: i32,
    /// The version number, a 32-bit IEEE 754 number, as the bits read.
    pub version_number: u32,
}

impl Build4_2Additions {
    /// Whether these are the additions that `bytes` hold: the time that the
    /// data is valid for in 20 bytes, then the largest value and the version
    /// number in 4 bytes each.
    pub open spec fn decoded_from(&self, endian: Endian, bytes: Seq<u8>) -> bool {
        &&& self.valid_datetime@ == field_text(bytes.subrange(0, 20))
        &&& self.max_value == i32_value(endian, bytes.subrange(20, 24))
        &&& self.version_number == u32_value(endian, bytes.subrange(24, 28))
    }

    /// Additions of these three fields; `version_number` holds the bits of
    /// the number.
    pub fn new(valid_datetime: String, max_value: i32, version_number: u32) -> (additions: Self)
        ensures
            additions.valid_datetime == valid_datetime,
            additions.max_value == max_value,
            additions.version_number == version_number,
    {
        Build4_2Additions { valid_datetime, max_value, version_number }
    }
}

/// The metadata of a file of build 4.2.
#[derive(Debug, PartialEq, Eq)]
pub struct Build4_2Header {
    pub original: Build1997Header,
    pub build_4_2_additions: Build4_2Additions,
}

impl Build4_2Header {
    /// Whether this is the record that `bytes` hold: the record of 1997,
    /// then the additions.
    pub open spec fn decoded_from(&self, endian: Endian, bytes: Seq<u8>) -> bool {
        &&& self.original.decoded_from(bytes.subrange(0, 38))
        &&& self.build_4_2_additions.decoded_from(endian, bytes.subrange(38, 66))
    }

    /// A record of these six fields.
    pub fn new(
        user_id: String,
        saved_datetime: String,
        process_flag: String,
        valid_datetime: String,
        max_value: i32,
        version_number: u32,
    ) -> (header: Self)
        ensures
            header.original.user_id == user_id,
            header.original.saved_datetime == saved_datetime,
            header.original.process_flag == process_flag,
            header.build_4_2_additions.valid_datetime == valid_datetime,
            header.build_4_2_additions.max_value == max_value,
            header.build_4_2_additions.version_number == version_number,
    {
        Build4_2Header {
            original: Build1997Header::new(user_id, saved_datetime, process_flag),
            build_4_2_additions: Build4_2Additions::new(valid_datetime, max_value, version_number),
        }
    }

    /// A record of these two parts.
    pub fn new_2(original: Build1997Header, build_4_2_additions: Build4_2Additions) -> (header:
        Self)
        ensures
            header.original == original,
            header.build_4_2_additions == build_4_2_additions,
    {
        Build4_2Header { original, build_4_2_additions }
    }
}

/// The operating system that a file of build 5.2.2 was written on.
#[derive(Debug, Clone, Copy, PartialEq, Eq, Structural)]
pub enum OperSys {
    HP,
    LX,
    Unknown,
}

impl OperSys {
    /// The system that a tag names: "LX" and "HP" in capitals, and no other
    /// text, name one.
    pub open spec fn of_tag(tag: Seq<char>) -> OperSys {
        if tag == seq!['L', 'X'] {
            OperSys::LX
        } else if tag == seq!['H', 'P'] {
            OperSys::HP
        } else {
            OperSys::Unknown
        }
    }

    /// Reads the tag of an operating system.
    pub fn from_tag(tag: &String) -> (system: OperSys)
        ensures
            system == OperSys::of_tag(tag@),
    {
        proof {
            reveal_strlit("LX");
            reveal_strlit("HP");
            assert("LX"@ =~= seq!['L', 'X']);
            assert("HP"@ =~= seq!['H', 'P']);
        }
        if *tag == "LX".to_owned() {
            OperSys::LX
        } else if *tag == "HP".to_owned() {
            OperSys::HP
        } else {
            OperSys::Unknown
        }
    }
}

/// The metadata of a file of build 5.2.2.
#[derive(Debug, PartialEq, Eq)]
pub struct Build5_2_2Header {
    pub operating_system: OperSys,
    pub user_id: String,
    pub saved_datetime: String,
    pub process_flag: String,
    pub build_4_2_additions: Build4_2Additions,
}

impl Build5_2_2Header {
    /// Whether this is the record that `bytes` hold: the tag of the
    /// operating system in 2 bytes, then the record of 1997 and the
    /// additions of build 4.2.
    pub open spec fn decoded_from(&self, endian: Endian, bytes: Seq<u8>) -> bool {
        &&& self.operating_system == OperSys::of_tag(field_text(bytes.subrange(0, 2)))
        &&& self.user_id@ == field_text(bytes.subrange(2, 12))
        &&& self.saved_datetime@ == field_text(bytes.subrange(12, 32))
        &&& self.process_flag@ == field_text(bytes.subrange(32, 40))
        &&& self.build_4_2_additions.decoded_from(endian, bytes.subrange(40, 68))
    }

    /// A record of these seven fields.
    pub fn new(
        operating_system: OperSys,
        user_id: String,
        saved_datetime: String,
        process_flag: String,
        valid_datetime: String,
        max_value: i32,
        version_number: u32,
    ) -> (header: Self)
        ensures
            header.operating_system == operating_system,
            header.user_id == user_id,
            header.saved_datetime == saved_datetime,
            header.process_flag == process_flag,
            header.build_4_2_additions.valid_datetime == valid_datetime,
            header.build_4_2_additions.max_value == max_value,
            header.build_4_2_additions.version_number == version_number,
    {
        Build5_2_2Header {
            operating_system,
            user_id,
            saved_datetime,
            process_flag,
            build_4_2_additions: Build4_2Additions::new(valid_datetime, max_value, version_number),
        }
    }

    /// A record of these four fields and the additions of build 4.2.
    pub fn new_2(
        operating_system: OperSys,
        user_id: String,
        saved_datetime: String,
        process_flag: String,
        build_4_2_additions: Build4_2Additions,
    ) -> (header: Self)
        ensures
            header.operating_system == operating_system,
            header.user_id == user_id,
            header.saved_datetime == saved_datetime,
            header.process_flag == process_flag,
            header.build_4_2_additions == build_4_2_additions,
    {
        Build5_2_2Header {
            operating_system,
            user_id,
            saved_datetime,
            process_flag,
            build_4_2_additions,
        }
    }
}

/// Reads a text field of `width` bytes.
fn read_text(reader: &mut ByteReader, endian: Endian, width: i32) -> (r: Result<String, XmrgError>)
    requires
        width >= 0,
    ensures
        final(reader).after_read(old(reader), width as int, r is Ok),
        r matches Ok(text) ==> text@ == field_text(old(reader).remaining().take(width as int)),
        r matches Err(e) ==> e == XmrgError::UnexpectedEof,
{
    let bytes = ReadBytes::new(width, endian).read_u8s(reader)?;
    Ok(decode_text(bytes))
}

/// Reads the record that the layouts since 1997 share.
pub fn build_1997_reader(reader: &mut ByteReader, endian: Endian) -> (r: Result<
    Build1997Header,
    XmrgError,
>)
    ensures
        final(reader).after_read(old(reader), 38, r is Ok),
        r matches Ok(header) ==> header.decoded_from(old(reader).remaining()),
        r matches Err(e) ==> e == XmrgError::UnexpectedEof,
{
    let ghost bytes = reader.remaining();
    proof {
        reader.offset_in_bounds();
    }
    let user_id = read_text(reader, endian, 10)?;
    let ghost after_user_id = reader.remaining();
    let saved_datetime = read_text(reader, endian, 20)?;
    let ghost after_saved_datetime = reader.remaining();
    let process_flag = read_text(reader, endian, 8)?;
    proof {
        assert(bytes.take(10) == bytes.subrange(0, 10));
        assert(after_user_id.take(20) == bytes.subrange(10, 30));
        assert(after_saved_datetime.take(8) == bytes.subrange(30, 38));
    }
    Ok(Build1997Header::new(user_id, saved_datetime, process_flag))
}

/// Reads what build 4.2 added to the metadata.
pub fn build_4_2_add_reader(reader: &mut ByteReader, endian: Endian) -> (r: Result<
    Build4_2Additions,
    XmrgError,
>)
    ensures
        final(reader).after_read(old(reader), 28, r is Ok),
        r matches Ok(additions) ==> additions.decoded_from(endian, old(reader).remaining()),
        r matches Err(e) ==> e == XmrgError::UnexpectedEof,
{
    let ghost bytes = reader.remaining();
    proof {
        reader.offset_in_bounds();
    }
    let valid_datetime = read_text(reader, endian, 20)?;
    let ghost after_valid_datetime = reader.remaining();
    let max_value: i32 = endian.read(reader)?;
    let ghost after_max_value = reader.remaining();
    let version_number: u32 = endian.read(reader)?;
    proof {
        assert(bytes.take(20) == bytes.subrange(0, 20));
        assert(after_valid_datetime.take(4) == bytes.subrange(20, 24));
        assert(after_max_value.take(4) == bytes.subrange(24, 28));
    }
    Ok(Build4_2Additions::new(valid_datetime, max_value, version_number))
}

/// Reads the metadata of a file of build 4.2.
pub fn build_4_2_reader(reader: &mut ByteReader, endian: Endian) -> (r: Result<
    Build4_2Header,
    XmrgError,
>)
    ensures
        final(reader).after_read(old(reader), 66, r is Ok),
        r matches Ok(header) ==> header.decoded_from(endian, old(reader).remaining()),
        r matches Err(e) ==> e == XmrgError::UnexpectedEof,
{
    let ghost bytes = reader.remaining();
    proof {
        reader.offset_in_bounds();
    }
    let original = build_1997_reader(reader, endian)?;
    let ghost after_original = reader.remaining();
    let additions = build_4_2_add_reader(reader, endian)?;
    proof {
        assert(after_original == bytes.skip(38));
        lemma_decoded_from_prefix(original, bytes, 38);
        lemma_additions_decoded_from_part(additions, endian, bytes, 38, 66);
    }
    Ok(Build4_2Header::new_2(original, additions))
}

/// Reads the metadata of a file of build 5.2.2.
pub fn build_5_2_2_reader(reader: &mut ByteReader, endian: Endian) -> (r: Result<
    Build5_2_2Header,
    XmrgError,
>)
    ensures
        final(reader).after_read(old(reader), 68, r is Ok),
        r matches Ok(header) ==> header.decoded_from(endian, old(reader).remaining()),
        r matches Err(e) ==> e == XmrgError::UnexpectedEof,
{
    let ghost bytes = reader.remaining();
    proof {
        reader.offset_in_bounds();
    }
    let tag = read_text(reader, endian, 2)?;
    let ghost after_tag = reader.remaining();
    let user_id = read_text(reader, endian, 10)?;
    let ghost after_user_id = reader.remaining();
    let saved_datetime = read_text(reader, endian, 20)?;
    let ghost after_saved_datetime = reader.remaining();
    let process_flag = read_text(reader, endian, 8)?;
    let ghost after_process_flag = reader.remaining();
    let build_4_2_additions = build_4_2_add_reader(reader, endian)?;
    let operating_system = OperSys::from_tag(&tag);
    proof {
        assert(bytes.take(2) == bytes.subrange(0, 2));
        assert(after_tag.take(10) == bytes.subrange(2, 12));
        assert(after_user_id.take(20) == bytes.subrange(12, 32));
        assert(after_saved_datetime.take(8) == bytes.subrange(32, 40));
        assert(after_process_flag == bytes.skip(40));
        lemma_additions_decoded_from_part(build_4_2_additions, endian, bytes, 40, 68);
    }
    Ok(
        Build5_2_2Header::new_2(
            operating_system,
            user_id,
            saved_datetime,
            process_flag,
            build_4_2_additions,
        ),
    )
}

/// A record of 1997 read from the start of `bytes` is the record that the
/// first `end` of them hold.
proof fn lemma_decoded_from_prefix(header: Build1997Header, bytes: Seq<u8>, end: int)
    requires
        38 <= end <= bytes.len(),
        header.decoded_from(bytes),
    ensures
        header.decoded_from(bytes.subrange(0, end)),
{
    let part = bytes.subrange(0, end);
    assert(part.subrange(0, 10) == bytes.subrange(0, 10));
    assert(part.subrange(10, 30) == bytes.subrange(10, 30));
    assert(part.subrange(30, 38) == bytes.subrange(30, 38));
}

/// Additions read from `bytes` after their first `start` are the additions
/// that the part from `start` to `end` holds.
proof fn lemma_additions_decoded_from_part(
    additions: Build4_2Additions,
    endian: Endian,
    bytes: Seq<u8>,
    start: int,
    end: int,
)
    requires
        0 <= start,
        start + 28 <= end <= bytes.len(),
        additions.decoded_from(endian, bytes.skip(start)),
    ensures
        additions.decoded_from(endian, bytes.subrange(start, end)),
{
    let rest = bytes.skip(start);
    let part = bytes.subrange(start, end);
    assert(part.subrange(0, 20) == rest.subrange(0, 20));
    assert(part.subrange(20, 24) == rest.subrange(20, 24));
    assert(part.subrange(24, 28) == rest.subrange(24, 28));
}

/// The metadata of a file, by the layout that holds it.
#[derive(Debug, PartialEq, Eq)]
pub enum Metadata {
    Header1997(Build1997Header),
    Header4_2(Build4_2Header),
    Header5_2_2(Build5_2_2Header),
}

impl Metadata {
    /// The time at which the file was saved.
    pub fn datetime(&self) -> (text: String)
        ensures
            text == match *self {
                Metadata::Header1997(header) => header.saved_datetime,
                Metadata::Header4_2(header) => header.original.saved_datetime,
                Metadata::Header5_2_2(header) => header.saved_datetime,
            },
    {
        match self {
            Metadata::Header1997(header) => header.saved_datetime.clone(),
            Metadata::Header4_2(header) => header.original.saved_datetime.clone(),
            Metadata::Header5_2_2(header) => header.saved_datetime.clone(),
        }
    }

    /// The operating system that the file was written on, where the layout
    /// records it.
    pub fn os(&self) -> (system: Option<OperSys>)
        ensures
            system == match *self {
                Metadata::Header1997(_) => None,
                Metadata::Header4_2(_) => None,
                Metadata::Header5_2_2(header) => Some(header.operating_system),
            },
    {
        match self {
            Metadata::Header1997(_) => None,
            Metadata::Header4_2(_) => None,
            Metadata::Header5_2_2(header) => Some(header.operating_system),
        }
    }

    /// The largest value of the grid, where the layout records it.
    pub fn max_value(&self) -> (value: Option<i32>)
        ensures
            value == match *self {
                Metadata::Header1997(_) => None,
                Metadata::Header4_2(header) => Some(header.build_4_2_additions.max_value),
                Metadata::Header5_2_2(header) => Some(header.build_4_2_additions.max_value),
            },
    {
        match self {
            Metadata::Header1997(_) => None,
            Metadata::Header4_2(header) => Some(header.build_4_2_additions.max_value),
            Metadata::Header5_2_2(header) => Some(header.build_4_2_additions.max_value),
        }
    }

    /// The name of the user who saved the file.
    pub fn user_id(&self) -> (text: Option<String>)
        ensures
            text == Some(
                match *self {
                    Metadata::Header1997(header) => header.user_id,
                    Metadata::Header4_2(header) => header.original.user_id,
                    Metadata::Header5_2_2(header) => header.user_id,
                },
            ),
    {
        match self {
            Metadata::Header1997(header) => Some(header.user_id.clone()),
            Metadata::Header4_2(header) => Some(header.original.user_id.clone()),
            Metadata::Header5_2_2(header) => Some(header.user_id.clone()),
        }
    }

    /// The process flag of the file.
    pub fn process_flag(&self) -> (text: Option<String>)
        ensures
            text == Some(
                match *self {
                    Metadata::Header1997(header) => header.process_flag,
                    Metadata::Header4_2(header) => header.original.process_flag,
                    Metadata::Header5_2_2(header) => header.process_flag,
                },
            ),
    {
        match self {
            Metadata::Header1997(header) => Some(header.process_flag.clone()),
            Metadata::Header4_2(header) => Some(header.original.process_flag.clone()),
            Metadata::Header5_2_2(header) => Some(header.process_flag.clone()),
        }
    }

    /// The bits of the version number, where the layout records one.
    pub fn version(&self) -> (bits: Option<u32>)
        ensures
            bits == match *self {
                Metadata::Header1997(_) => None,
                Metadata::Header4_2(header) => Some(header.build_4_2_additions.version_number),
                Metadata::Header5_2_2(header) => Some(header.build_4_2_additions.version_number),
            },
    {
        match self {
            Metadata::Header1997(_) => None,
            Metadata::Header4_2(header) => Some(header.build_4_2_additions.version_number),
            Metadata::Header5_2_2(header) => Some(header.build_4_2_additions.version_number),
        }
    }

    /// The time that the data is valid for, where the layout records it.
    pub fn valid_datetime(&self) -> (text: Option<String>)
        ensures
            text == match *self {
                Metadata::Header1997(_) => None,
                Metadata::Header4_2(header) => Some(header.build_4_2_additions.valid_datetime),
                Metadata::Header5_2_2(header) => Some(header.build_4_2_additions.valid_datetime),
            },
    {
        match self {
            Metadata::Header1997(_) => None,
            Metadata::Header4_2(header) => Some(header.build_4_2_additions.valid_datetime.clone()),
            Metadata::Header5_2_2(header) => Some(
                header.build_4_2_additions.valid_datetime.clone(),
            ),
        }
    }
}

} // verus!
