//! Record ids: the UUIDs that name tasks and books, read from their text.
use vstd::prelude::*;
use vstd::string::*;
use uuid::Uuid;

verus! {

/// What `Uuid::parse_str` makes of a text: the 128 bits of the UUID, or the
/// text of the error it reports.
pub uninterp spec fn uuid_parse_of(text: Seq<char>) -> Result<u128, Seq<char>>;

/// `Uuid::parse_str`, then `Uuid::as_u128` on success and the error's
/// display text on failure. Only four shapes are read (32 digits; 36
/// characters with hyphens; the same in braces, 38; with the prefix
/// `urn:uuid:`, 45), all ASCII, so a text of any other length is refused.
#[verifier::external_body]
pub(crate) fn parse_uuid(text: &str) -> (res: Result<u128, String>)
    ensures
        match res {
            Ok(v) => uuid_parse_of(text@) == Ok::<u128, Seq<char>>(v),
            Err(e) => uuid_parse_of(text@) == Err::<u128, Seq<char>>(e@),
        },
        res is Ok ==> (text@.len() == 32 || text@.len() == 36 || text@.len() == 38
            || text@.len() == 45),
{
    match Uuid::parse_str(text) {
        Ok(id) => Ok(id.as_u128()),
        Err(e) => Err(e.to_string()),
    }
}

/// Reads a record id: the bits of the UUID, or the text of the error that
/// refuses the id.
pub fn parse_record_id(text: &str) -> (res: Result<u128, String>)
    ensures
        match res {
            Ok(v) => uuid_parse_of(text@) == Ok::<u128, Seq<char>>(v),
            Err(e) => uuid_parse_of(text@) == Err::<u128, Seq<char>>(e@),
        },
        !(text@.len() == 32 || text@.len() == 36 || text@.len() == 38 || text@.len() == 45)
            ==> res is Err,
{
    parse_uuid(text)
}

/// The answer to a path id that is no UUID.
pub open spec fn bad_id_answer() -> (u16, Seq<char>) {
    (400, "Invalid UUID format"@)
}

/// Reads the id in a request path: its UUID bits, or the 400 answer the
/// task and book handlers give for a malformed id.
pub fn parse_path_id(text: &str) -> (res: Result<u128, (u16, &'static str)>)
    ensures
        match res {
            Ok(v) => uuid_parse_of(text@) == Ok::<u128, Seq<char>>(v),
            Err(answer) => uuid_parse_of(text@) is Err && answer.0 == bad_id_answer().0
                && answer.1@ == bad_id_answer().1,
        },
{
    match parse_uuid(text) {
        Ok(v) => Ok(v),
        Err(_) => Err((400, "Invalid UUID format")),
    }
}

} // verus!
