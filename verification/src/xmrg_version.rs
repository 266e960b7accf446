//! The three historical layouts of an XMRG file and the rule that tells them
//! apart.

use vstd::prelude::*;

verus! {

/// Layout of an XMRG file, named after the build that introduced it.
#[derive(Debug, Clone, Copy, PartialEq, Eq, Structural)]
pub enum XmrgVersion {
    Pre1997,
    Build4_2,
    Build5_2_2,
}

/// The layout that a second-record byte count of `byte_count` stands for in a
/// grid that is `max_x` columns wide, if any.
///
/// The two fixed counts are looked at first, 66 before 38; only then is the
/// count compared with the length of one row of 16-bit values.
pub open spec fn resolve_version(byte_count: int, max_x: int) -> Option<XmrgVersion> {
    if byte_count == 66 {
        Some(XmrgVersion::Build5_2_2)
    } else if byte_count == 38 {
        Some(XmrgVersion::Build4_2)
    } else if byte_count == max_x * 2 {
        Some(XmrgVersion::Pre1997)
    } else {
        None
    }
}

/// The rules in their order of precedence: a count of 66 is build 5.2.2 and
/// a count of 38 is build 4.2, however wide the grid is; twice the width of
/// the grid is the layout from before 1997, but for the two widths, 33 and
/// 19, whose double is one of the fixed counts; every other count stands
/// for no layout.
pub proof fn lemma_version_rules(byte_count: int, max_x: int)
    ensures
        resolve_version(66, max_x) == Some(XmrgVersion::Build5_2_2),
        resolve_version(38, max_x) == Some(XmrgVersion::Build4_2),
        max_x != 33 && max_x != 19 ==> resolve_version(2 * max_x, max_x) == Some(
            XmrgVersion::Pre1997,
        ),
        resolve_version(2 * 33int, 33) == Some(XmrgVersion::Build5_2_2),
        resolve_version(2 * 19int, 19) == Some(XmrgVersion::Build4_2),
        byte_count != 66 && byte_count != 38 && byte_count != 2 * max_x ==> resolve_version(
            byte_count,
            max_x,
        ) is None,
{
}

/// Classifies a file by the byte count of its second record.
pub fn get_xmrg_version(byte_count: i32, max_x: i32) -> (version: Option<XmrgVersion>)
    ensures
        version == resolve_version(byte_count as int, max_x as int),
{
    if byte_count == 66 {
        Some(XmrgVersion::Build5_2_2)
    } else if byte_count == 38 {
        Some(XmrgVersion::Build4_2)
    } else if byte_count as i64 == max_x as i64 * 2 {
        Some(XmrgVersion::Pre1997)
    } else {
        None
    }
}

} // verus!
