//! Raw readings and the depths of precipitation that they stand for.

use vstd::prelude::*;

verus! {

/// The depth that stands for "no data", in hundredths of a millimetre:
/// minus 999 millimetres.
pub const NO_DATA_HUNDREDTHS: i32 = -99_900;

/// A depth of precipitation in millimetres, held exactly as a count of
/// hundredths of a millimetre.
#[derive(Debug, Clone, Copy, PartialEq, Eq, Structural)]
pub struct Millimeters {
    pub hundredths: i32,
}

impl Millimeters {
    /// The depth that stands for a cell without data.
    pub open spec fn no_data() -> Millimeters {
        Millimeters { hundredths: NO_DATA_HUNDREDTHS }
    }

    /// The depth that a raw reading stands for. A file holds hundredths of a
    /// millimetre; a negative reading marks a cell without data.
    pub open spec fn of_reading(data_point: i16) -> Millimeters {
        if data_point < 0 {
            Millimeters::no_data()
        } else {
            Millimeters { hundredths: data_point as i32 }
        }
    }

    /// Whether this is the depth that marks a cell without data.
    pub fn is_no_data(&self) -> (b: bool)
        ensures
            b == (*self == Millimeters::no_data()),
    {
        self.hundredths == NO_DATA_HUNDREDTHS
    }
}

/// Turns a raw reading into millimetres.
pub fn to_mm(data_point: i16) -> (depth: Millimeters)
    ensures
        depth == Millimeters::of_reading(data_point),
        data_point < 0 ==> depth.hundredths == -99_900,
        data_point >= 0 ==> depth.hundredths == data_point,
{
    if data_point < 0 {
        Millimeters { hundredths: NO_DATA_HUNDREDTHS }
    } else {
        Millimeters { hundredths: data_point as i32 }
    }
}

} // verus!
