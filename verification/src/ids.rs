//! User and peer ids as the clients and tokens write them: UUID text.
use vstd::prelude::*;
use crate::models::Id;

verus! {

/// The UUID that `text` denotes, as its 128-bit value: `None` when `text` is
/// not a UUID in one of the forms `uuid` accepts (hyphenated, simple,
/// braced or URN, hex digits of either case).
pub uninterp spec fn uuid_of(text: Seq<char>) -> Option<u128>;

/// `uuid::Uuid::parse_str`, the id taken as its 128-bit value; a text that
/// is not a UUID gives the parser's error text (which is not stated).
#[verifier::external_body]
pub(crate) fn parse_uuid(text: &str) -> (id: Result<Id, String>)
    ensures
        id is Ok <==> uuid_of(text@) is Some,
        id matches Ok(v) ==> uuid_of(text@) == Some(v),
{
    match uuid::Uuid::parse_str(text) {
        Ok(u) => Ok(u.as_u128()),
        Err(e) => Err(e.to_string()),
    }
}

} // verus!
