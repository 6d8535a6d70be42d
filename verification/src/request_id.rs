//! The identifier that every request gets.

use uuid::Uuid;
use vstd::prelude::*;

verus! {

/// A hexadecimal digit in lower case.
pub open spec fn is_hex_digit(c: char) -> bool {
    '0' <= c <= '9' || 'a' <= c <= 'f'
}

/// Where the hyphens of an identifier stand.
pub open spec fn is_hyphen_place(i: int) -> bool {
    i == 8 || i == 13 || i == 18 || i == 23
}

/// The form of an identifier: a random (version 4) UUID in its hyphenated
/// notation, in lower case.
pub open spec fn is_request_id(id: Seq<char>) -> bool {
    &&& id.len() == 36
    &&& forall|i: int|
        0 <= i < 36 ==> if is_hyphen_place(i) {
            #[trigger] id[i] == '-'
        } else {
            is_hex_digit(id[i])
        }
    &&& id[14] == '4'
    &&& id[19] == '8' || id[19] == '9' || id[19] == 'a' || id[19] == 'b'
}

/// `Uuid::new_v4`, printed through `Uuid::hyphenated`: a random identifier.
/// Nothing but its form is known in advance.
#[verifier::external_body]
pub(crate) fn new_request_id() -> (id: String)
    ensures
        is_request_id(id@),
{
    Uuid::new_v4().hyphenated().to_string()
}

} // verus!
