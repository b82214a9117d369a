//! What is said of a connection that has ended well: the bytes that went up
//! and down, in words.

use vstd::prelude::*;

verus! {

/// A number of bytes written out with a unit, as `byte_unit` does in its
/// alternate format: `10 KiB` for 10240, `10 KB` for 10000.
pub uninterp spec fn byte_text(size: u64) -> Seq<char>;

/// `Byte::from_u64` of `byte_unit`, formatted with `{:#}`: the size with
/// the unit in which it is written out exactly. The text depends on the
/// size alone.
#[verifier::external_body]
fn format_bytes(size: u64) -> (text: String)
    ensures
        text@ == byte_text(size),
{
    format!("{0:#}", byte_unit::Byte::from_u64(size))
}

/// The bytes that a relay sent up and down, in words.
#[derive(Clone, Debug, PartialEq, Eq)]
pub struct TransferSummary {
    pub up: String,
    pub down: String,
}

/// Writes out the bytes that a relay sent up and down.
pub fn transfer_summary(up: u64, down: u64) -> (summary: TransferSummary)
    ensures
        summary.up@ == byte_text(up),
        summary.down@ == byte_text(down),
{
    TransferSummary { up: format_bytes(up), down: format_bytes(down) }
}

} // verus!
