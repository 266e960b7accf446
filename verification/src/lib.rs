//! Decoder for XMRG gridded precipitation files and the HRAP grid cells that
//! their values belong to.
//!
//! A file opens with the header record between two record-length words:
//! bytes 0 to 4 hold the length of the header, 16, which also shows the byte
//! order of the file; bytes 4 to 20 hold the four numbers of the header;
//! bytes 20 to 24 hold the length again. The word at bytes 24 to 28 is the
//! length of the second record, by which the layouts are told apart. In the
//! layout from before 1997 the second record is the first row of the grid,
//! so that the rows start at byte 24: each is a length word, one 16-bit
//! reading for every column, and the length word again.

pub mod endian;
pub mod error;
pub mod geo;
pub mod headers;
pub mod read_bytes;
pub mod reader;
pub mod text;
pub mod utils;
pub mod xmrg_version;

use vstd::prelude::*;
use vstd::arithmetic::div_mod::lemma_fundamental_div_mod_converse;
use vstd::arithmetic::mul::{lemma_mul_inequality, lemma_mul_is_distributive_add_other_way};
use vstd::seq_lib::lemma_flatten_concat;
use crate::endian::{detect_endian, get_endian, Endian};
use crate::error::XmrgError;
use crate::geo::{Feature, GridCell};
use crate::headers::{header_reader, Header, Metadata};
use crate::read_bytes::{i16_value, i32_value, ReadBytes};
use crate::reader::ByteReader;
use crate::utils::{to_mm, Millimeters};
use crate::xmrg_version::{get_xmrg_version, resolve_version, XmrgVersion};

verus! {

/// Count of bytes in the length word that stands before and after a record.
pub const MARKER_LENGTH: usize = 4;

/// Offset of the first row of the grid in a file from before 1997.
pub const ROWS_START: usize = 24;

/// The depths that a row record holds, which starts at the head of `bytes`
/// and has `count` readings between its two length words.
pub open spec fn row_values(endian: Endian, bytes: Seq<u8>, count: int) -> Seq<Millimeters> {
    Seq::new(
        count as nat,
        |j: int|
            Millimeters::of_reading(
                i16_value(endian, bytes.subrange(4 + 2 * j, 4 + 2 * j + 2)) as i16,
            ),
    )
}

/// Reads one row of the grid: passes over the length word, reads the
/// readings of `read_bytes` as depths, and passes over the length word at
/// the end. What the two words hold is not looked at.
pub fn process_row(read_bytes: ReadBytes, reader: &mut ByteReader) -> (r: Result<
    Vec<Millimeters>,
    XmrgError,
>)
    ensures
        final(reader).after_read(old(reader), 4 + 2 * read_bytes.len() + 4, r is Ok),
        r matches Ok(row) ==> row@ == row_values(
            read_bytes.endian(),
            old(reader).remaining(),
            read_bytes.len(),
        ),
        r matches Err(e) ==> e == XmrgError::UnexpectedEof,
{
    let ghost bytes = reader.remaining();
    proof {
        reader.offset_in_bounds();
    }
    reader.skip(MARKER_LENGTH)?;
    let ghost readings = reader.remaining();
    let raw = read_bytes.read_int16s(reader)?;
    reader.skip(MARKER_LENGTH)?;
    let mut row: Vec<Millimeters> = Vec::new();
    let mut j: usize = 0;
    while j < raw.len()
        invariant
            j <= raw.len(),
            row@.len() == j,
            forall|k: int| 0 <= k < j ==> row@[k] == Millimeters::of_reading(raw@[k]),
        decreases raw.len() - j,
    {
        row.push(to_mm(raw[j]));
        j = j + 1;
    }
    proof {
        let expected = row_values(read_bytes.endian(), bytes, read_bytes.len());
        assert forall|k: int| 0 <= k < read_bytes.len() implies row@[k] == expected[k] by {
            assert(readings.subrange(k * 2, (k + 1) * 2) == bytes.subrange(
                4 + 2 * k,
                4 + 2 * k + 2,
            ));
        }
        assert(row@ =~= expected);
    }
    Ok(row)
}

/// Byte order of the file that holds `bytes`.
pub open spec fn file_endian(bytes: Seq<u8>) -> Endian {
    detect_endian(bytes.subrange(0, 4))
}

/// The header that a file holds.
pub open spec fn file_header(bytes: Seq<u8>) -> Header {
    Header::decoded(file_endian(bytes), bytes.skip(4))
}

/// The layout of a file, if the length of its second record shows one.
pub open spec fn file_version(bytes: Seq<u8>) -> Option<XmrgVersion> {
    resolve_version(
        i32_value(file_endian(bytes), bytes.subrange(24, 28)),
        file_header(bytes).columns as int,
    )
}

/// Count of bytes in one row record of a grid with this header.
pub open spec fn row_length(header: Header) -> int {
    4 + 2 * header.width() + 4
}

/// Count of bytes up to the end of the last row in a file from before 1997.
pub open spec fn file_length(bytes: Seq<u8>) -> int {
    let header = file_header(bytes);
    24 + header.height() * row_length(header)
}

/// The grid that a file holds: row by row as `row_values` reads them in a
/// file from before 1997, and no rows at all in a file of a later layout,
/// whose rows are not read.
pub open spec fn file_grid(bytes: Seq<u8>) -> Seq<Seq<Millimeters>> {
    let header = file_header(bytes);
    if file_version(bytes) == Some(XmrgVersion::Pre1997) {
        Seq::new(
            header.height() as nat,
            |i: int|
                row_values(
                    file_endian(bytes),
                    bytes.skip(24 + i * row_length(header)),
                    header.width(),
                ),
        )
    } else {
        Seq::empty()
    }
}

/// Why a file cannot be decoded, if it cannot: it ends before the length of
/// its second record, that length shows no known layout, or the file is from
/// before 1997 and ends before its last row does.
pub open spec fn file_error(bytes: Seq<u8>) -> Option<XmrgError> {
    if bytes.len() < 28 {
        Some(XmrgError::UnexpectedEof)
    } else {
        match file_version(bytes) {
            None => Some(XmrgError::UnresolvedVersion),
            Some(XmrgVersion::Pre1997) => if bytes.len() < file_length(bytes) {
                Some(XmrgError::UnexpectedEof)
            } else {
                None
            },
            Some(_) => None,
        }
    }
}

/// What a file holds.
#[derive(Debug, PartialEq, Eq)]
pub struct XmrgData {
    pub header: Header,
    pub metadata: Option<Metadata>,
    pub values: Vec<Vec<Millimeters>>,
}

impl XmrgData {
    /// The values of the grid, row by row.
    pub open spec fn grid(&self) -> Seq<Seq<Millimeters>> {
        Seq::new(self.values@.len(), |i: int| self.values@[i]@)
    }

    /// The contents of a file from their three parts.
    pub fn new(header: Header, metadata: Option<Metadata>, values: Vec<Vec<Millimeters>>) -> (data:
        Self)
        ensures
            data.header == header,
            data.metadata == metadata,
            data.values == values,
    {
        XmrgData { header, metadata, values }
    }

    /// Pairs the values of the grid, row by row, with the cells that the
    /// header spans, in their order. Where there are more of the one than of
    /// the other, those without a partner are left out.
    pub fn generate_features(&self) -> (features: Vec<Feature>)
        ensures
            features@ == paired(self.header.cells(), self.grid().flatten()),
    {
        let ghost cells = self.header.cells();
        let ghost grid = self.grid();
        let mut generator = self.header.into_iter();
        let mut features: Vec<Feature> = Vec::new();
        let mut i: usize = 0;
        assert(grid.take(0).flatten() =~= Seq::<Millimeters>::empty());
        while i < self.values.len()
            invariant
                i <= self.values.len(),
                cells == self.header.cells(),
                grid == self.grid(),
                features@.len() == grid.take(i as int).flatten().len(),
                features@ == paired(cells, grid.take(i as int).flatten()),
                generator@ == cells.skip(features@.len() as int),
            decreases self.values.len() - i,
        {
            let row = &self.values[i];
            let ghost above = grid.take(i as int).flatten();
            let mut j: usize = 0;
            assert(above + row@.take(0) =~= above);
            while j < row.len()
                invariant
                    j <= row.len(),
                    i < self.values.len(),
                    cells == self.header.cells(),
                    grid == self.grid(),
                    row@ == grid[i as int],
                    above == grid.take(i as int).flatten(),
                    features@.len() == above.len() + j,
                    features@ == paired(cells, above + row@.take(j as int)),
                    generator@ == cells.skip(features@.len() as int),
                decreases row.len() - j,
            {
                proof {
                    lemma_flatten_prefix(grid, i as int, j as int);
                    lemma_flatten_prefix(grid, i as int, j + 1);
                }
                match generator.next() {
                    Some(cell) => {
                        features.push(Feature::new(cell, row[j]));
                        assert(features@ =~= paired(cells, above + row@.take(j + 1)));
                    },
                    None => {
                        assert(features@ =~= paired(cells, grid.flatten()));
                        return features;
                    },
                }
                j = j + 1;
            }
            proof {
                assert(row@.take(j as int) =~= row@);
                grid.take(i as int).lemma_flatten_push(row@);
                assert(grid.take(i + 1) =~= grid.take(i as int).push(row@));
            }
            i = i + 1;
        }
        assert(grid.take(i as int) =~= grid);
        features
    }
}

/// The first `i` rows of a grid and the first `j` values of the next, laid
/// end to end, are how the whole grid, laid end to end, begins.
proof fn lemma_flatten_prefix(grid: Seq<Seq<Millimeters>>, i: int, j: int)
    requires
        0 <= i < grid.len(),
        0 <= j <= grid[i].len(),
    ensures
        grid.take(i).flatten().len() + j <= grid.flatten().len(),
        grid.take(i).flatten() + grid[i].take(j) == grid.flatten().take(
            grid.take(i).flatten().len() + j,
        ),
{
    let rest = grid.skip(i);
    assert(grid.take(i) + rest =~= grid);
    lemma_flatten_concat(grid.take(i), rest);
    assert(rest.flatten() == rest.first() + rest.drop_first().flatten());
    assert(rest.first() == grid[i]);
    assert(grid.take(i).flatten() + grid[i].take(j) =~= grid.flatten().take(
        grid.take(i).flatten().len() + j,
    ));
}

/// The cells and the values of a grid in pairs, the first with the first and
/// so on, as far as both reach.
pub open spec fn paired(cells: Seq<GridCell>, values: Seq<Millimeters>) -> Seq<Feature> {
    Seq::new(
        if cells.len() <= values.len() {
            cells.len()
        } else {
            values.len()
        },
        |k: int| Feature { cell: cells[k], value: values[k] },
    )
}

/// Decodes the file that holds `bytes`.
///
/// The rows are read in a file from before 1997 only. A file of a later
/// layout yields its header and an empty grid; no layout yields metadata.
pub fn read_xmrg(bytes: Vec<u8>) -> (r: Result<XmrgData, XmrgError>)
    ensures
        r matches Err(e) ==> file_error(bytes@) == Some(e),
        r matches Ok(data) ==> {
            &&& file_error(bytes@) is None
            &&& data.header == file_header(bytes@)
            &&& data.metadata is None
            &&& data.grid() == file_grid(bytes@)
        },
        r matches Ok(data) ==> file_version(bytes@) == Some(XmrgVersion::Pre1997) ==> {
            &&& data.values@.len() == data.header.height()
            &&& forall|i: int|
                0 <= i < data.values@.len() ==> (#[trigger] data.values@[i])@.len()
                    == data.header.width()
        },
{
    let mut reader = ByteReader::new(bytes);
    proof {
        reader.offset_in_bounds();
        assert(reader.remaining() == bytes@);
    }
    let endian = get_endian(&mut reader)?;
    assert(bytes@.take(4) == bytes@.subrange(0, 4));
    let header = header_reader(&mut reader, endian)?;
    reader.skip(MARKER_LENGTH)?;
    let ghost after_header = reader.remaining();
    let record_2_bytes: i32 = endian.read(&mut reader)?;
    proof {
        reader.offset_in_bounds();
        assert(after_header.take(4) == bytes@.subrange(24, 28));
    }
    let values = match get_xmrg_version(record_2_bytes, header.columns) {
        None => {
            return Err(XmrgError::UnresolvedVersion);
        },
        Some(XmrgVersion::Pre1997) => {
            reader.seek(ROWS_START)?;
            let row_reader = ReadBytes::new(header.columns, endian);
            let ghost length = row_length(header);
            let mut values: Vec<Vec<Millimeters>> = Vec::new();
            let mut i: i32 = 0;
            while i < header.rows
                invariant
                    0 <= i <= header.height(),
                    header == file_header(bytes@),
                    endian == file_endian(bytes@),
                    file_version(bytes@) == Some(XmrgVersion::Pre1997),
                    row_reader.endian() == endian,
                    row_reader.len() == header.width(),
                    length == row_length(header),
                    reader.stream() == bytes@,
                    reader.offset() == 24 + i * length,
                    values@.len() == i,
                    forall|k: int| 0 <= k < i ==> (#[trigger] values@[k])@ == file_grid(bytes@)[k],
                decreases header.rows - i,
            {
                proof {
                    reader.offset_in_bounds();
                    lemma_mul_is_distributive_add_other_way(length, i as int, 1);
                }
                match process_row(row_reader, &mut reader) {
                    Ok(row) => {
                        values.push(row);
                        i = i + 1;
                    },
                    Err(e) => {
                        proof {
                            lemma_mul_inequality(i + 1, header.height(), length);
                        }
                        return Err(e);
                    },
                }
            }
            proof {
                reader.offset_in_bounds();
            }
            values
        },
        Some(_) => Vec::new(),
    };
    let data = XmrgData::new(header, None, values);
    assert(data.grid() =~= file_grid(bytes@));
    Ok(data)
}

/// Rows of one length, laid end to end: the value in row `i` and column `j`
/// comes after `i` full rows and `j` values of its own row.
pub proof fn lemma_flatten_full_rows(grid: Seq<Seq<Millimeters>>, width: int, i: int, j: int)
    requires
        forall|r: int| 0 <= r < grid.len() ==> (#[trigger] grid[r]).len() == width,
        0 <= i < grid.len(),
        0 <= j < width,
    ensures
        grid.flatten().len() == grid.len() * width,
        0 <= i * width + j < grid.flatten().len(),
        grid.flatten()[i * width + j] == grid[i][j],
    decreases grid.len(),
{
    let above = grid.drop_last();
    let last = grid.last();
    above.lemma_flatten_push(last);
    assert(above.push(last) =~= grid);
    lemma_mul_is_distributive_add_other_way(width, above.len() as int, 1);
    if above.len() == 0 {
        assert(above.flatten() =~= Seq::<Millimeters>::empty());
        assert(i * width == 0 && above.len() * width == 0) by (nonlinear_arith)
            requires
                i == 0,
                above.len() == 0,
        ;
    } else if i < above.len() {
        lemma_flatten_full_rows(above, width, i, j);
    } else {
        lemma_flatten_full_rows(above, width, 0, j);
    }
}

/// In a grid that has all the rows and columns of its header, every value
/// is paired with its own cell: the value in row `i` and column `j` with the
/// cell in column `xor + j` and row `yor + i`, and none is left out.
pub proof fn lemma_features_follow_grid(header: Header, grid: Seq<Seq<Millimeters>>, i: int, j: int)
    requires
        grid.len() == header.height(),
        forall|r: int| 0 <= r < grid.len() ==> (#[trigger] grid[r]).len() == header.width(),
        0 <= i < header.height(),
        0 <= j < header.width(),
    ensures
        paired(header.cells(), grid.flatten()).len() == header.width() * header.height(),
        0 <= i * header.width() + j < header.width() * header.height(),
        paired(header.cells(), grid.flatten())[i * header.width() + j] == (Feature {
            cell: GridCell { x: (header.xor + j) as i64, y: (header.yor + i) as i64 },
            value: grid[i][j],
        }),
{
    let width = header.width();
    lemma_flatten_full_rows(grid, width, i, j);
    assert(grid.len() * width == width * header.height()) by (nonlinear_arith)
        requires
            grid.len() == header.height(),
    ;
    lemma_fundamental_div_mod_converse(i * width + j, width, i, j);
}

} // verus!
