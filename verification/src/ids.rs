//! Random identifiers.

use vstd::prelude::*;

verus! {

/// A lower-case hexadecimal digit.
pub open spec fn is_hex_digit(c: char) -> bool {
    '0' <= c <= '9' || 'a' <= c <= 'f'
}

/// The text of a version 4 UUID: groups of 8, 4, 4, 4 and 12 hexadecimal
/// digits with hyphens between them, which tell the version and the variant.
pub open spec fn is_uuid_v4(s: Seq<char>) -> bool {
    &&& s.len() == 36
    &&& s[8] == '-' && s[13] == '-' && s[18] == '-' && s[23] == '-'
    &&& forall|i: int|
        0 <= i < 36 && i != 8 && i != 13 && i != 18 && i != 23 ==> is_hex_digit(#[trigger] s[i])
    &&& s[14] == '4'
    &&& (s[19] == '8' || s[19] == '9' || s[19] == 'a' || s[19] == 'b')
}

/// Whether this text may be drawn at random. It is a relation and picks no text.
pub uninterp spec fn may_be_drawn(text: Seq<char>) -> bool;

/// A random identifier: the text of a version 4 UUID that may be drawn.
pub open spec fn is_random_id(text: Seq<char>) -> bool {
    is_uuid_v4(text) && may_be_drawn(text)
}

/// Calls `uuid::Uuid::new_v4` and writes the identifier out with `to_string`.
/// The digits are random, so that all that is claimed of them is that they may be
/// drawn; the form of the text, its version and its variant are not.
#[verifier::external_body]
pub(crate) fn random_uuid() -> (r: String)
    ensures
        is_uuid_v4(r@),
        may_be_drawn(r@),
{
    uuid::Uuid::new_v4().to_string()
}

} // verus!
