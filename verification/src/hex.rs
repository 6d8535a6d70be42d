//! Bytes in text.

use nom::HexDisplay;
use vstd::prelude::*;

verus! {

/// What `HexDisplay::to_hex` of `nom` prints of these bytes, `chunk_size` of
/// them to a line.
pub uninterp spec fn hex_dump(data: Seq<u8>, chunk_size: usize) -> Seq<char>;

/// The dump of these bytes has lines, and fits into memory: a byte takes no
/// more than twenty-five bytes of text, and the text may grow into twice the
/// memory that it needs.
pub open spec fn can_dump(data: Seq<u8>, chunk_size: usize) -> bool {
    0 < chunk_size && 64 * (data.len() + chunk_size) <= isize::MAX
}

/// `HexDisplay::to_hex` on a byte slice: the text depends on the bytes and on
/// how many of them go to a line, and on nothing else.
#[verifier::external_body]
pub(crate) fn to_hex(data: &[u8], chunk_size: usize) -> (dump: String)
    requires
        can_dump(data@, chunk_size),
    ensures
        dump@ == hex_dump(data@, chunk_size),
{
    data.to_hex(chunk_size)
}

} // verus!
