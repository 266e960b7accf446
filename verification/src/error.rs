//! What can stop a decode.

use vstd::prelude::*;

verus! {

/// Reason for which decoding stopped. Nothing is retried after either.
#[derive(Debug, Clone, Copy, PartialEq, Eq, Structural)]
pub enum XmrgError {
    /// The stream ended before a field of fixed width was complete.
    UnexpectedEof,
    /// The second-record byte count stands for none of the known layouts.
    UnresolvedVersion,
}

} // verus!
