//! Text that crosses the boundary: UTF-8 bytes closed by one terminator byte.

use vstd::prelude::*;
use vstd::utf8::encode_utf8;

verus! {

/// Some byte of `bytes` is the terminator.
pub open spec fn has_nul(bytes: Seq<u8>) -> bool {
    exists|i: int| 0 <= i < bytes.len() && bytes[i] == 0u8
}

/// `bytes` is well-formed boundary text: it ends in the terminator and holds
/// no other.
pub open spec fn is_c_text(bytes: Seq<u8>) -> bool {
    bytes.len() > 0 && bytes.last() == 0u8 && !has_nul(bytes.drop_last())
}

/// Whether `bytes` holds a terminator byte.
pub fn contains_nul(bytes: &Vec<u8>) -> (found: bool)
    ensures
        found == has_nul(bytes@),
{
    let mut i: usize = 0;
    while i < bytes.len()
        invariant
            i <= bytes.len(),
            forall|j: int| 0 <= j < i ==> bytes@[j] != 0u8,
        decreases bytes.len() - i,
    {
        if bytes[i] == 0 {
            return true;
        }
        i += 1;
    }
    false
}

/// Encodes `text` for the boundary: its UTF-8 bytes followed by the
/// terminator. Text with an embedded terminator has no encoding.
pub fn c_text(text: &str) -> (encoded: Option<Vec<u8>>)
    ensures
        encoded is None <==> has_nul(encode_utf8(text@)),
        encoded matches Some(bytes) ==> bytes@ == encode_utf8(text@).push(0u8) && is_c_text(
            bytes@,
        ),
{
    let mut bytes = text.as_bytes_vec();
    if contains_nul(&bytes) {
        return None;
    }
    bytes.push(0);
    proof {
        assert(bytes@.drop_last() =~= encode_utf8(text@));
    }
    Some(bytes)
}

} // verus!

verus! {

/// `needle` occurs in `hay` as a run of consecutive characters.
pub open spec fn contains_text(hay: Seq<char>, needle: Seq<char>) -> bool {
    exists|i: int|
        0 <= i && i + needle.len() <= hay.len() && #[trigger] hay.subrange(i, i + needle.len())
            == needle
}

} // verus!
