//! Fresh identifiers for sessions and for the files of one call.

use vstd::prelude::*;

verus! {

/// The shape of a hyphenated identifier: 36 characters, a hyphen at
/// positions 8, 13, 18 and 23, and a lower-case hexadecimal digit everywhere
/// else.
pub open spec fn is_hyphenated_id(id: Seq<char>) -> bool {
    &&& id.len() == 36
    &&& forall|i: int|
        0 <= i < 36 ==> if i == 8 || i == 13 || i == 18 || i == 23 {
            #[trigger] id[i] == '-'
        } else {
            ('0' <= id[i] <= '9') || ('a' <= id[i] <= 'f')
        }
}

/// `uuid::Uuid::new_v4` written out by `to_string`: random bits in the
/// lower-case hyphenated form. Which identifier comes back is a matter of
/// chance, so only its shape is stated. The call needs the operating system's
/// source of randomness and panics where that fails.
#[verifier::external_body]
fn random_id() -> (id: String)
    ensures
        is_hyphenated_id(id@),
{
    uuid::Uuid::new_v4().to_string()
}

/// A new identifier, for a session or for the files of one call. Two calls
/// give two identifiers but by the smallest of chances; what is certain is
/// the shape.
pub fn fresh_id() -> (id: String)
    ensures
        is_hyphenated_id(id@),
{
    random_id()
}

} // verus!
