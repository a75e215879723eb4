use vstd::prelude::*;

verus! {

/// The 128-bit value of the UUID that a text spells, if it spells one.
pub uninterp spec fn uuid_parsed(s: Seq<char>) -> Option<u128>;

/// Relies on `uuid::Uuid::parse_str` and `Uuid::as_u128`: reads the handle
/// that the vector index returned as text. The result depends on the text
/// alone.
#[verifier::external_body]
fn parse_uuid(s: &str) -> (r: Option<u128>)
    ensures
        r == uuid_parsed(s@),
{
    uuid::Uuid::parse_str(s).ok().map(|u| u.as_u128())
}

/// Errors of the index path. Neither is ever fatal to an upsert.
#[derive(Clone, Copy, Debug, PartialEq, Eq, Structural)]
pub enum IndexError {
    /// The index service could not be reached or failed transiently.
    IndexUnavailable,
    /// The index service refused the text.
    IndexRejected,
}

/// The handle that an indexing reply yields: the parsed key of a stored
/// entry, or nothing when indexing failed or the key is not a UUID.
pub open spec fn handle_of_reply(reply: Result<Seq<char>, IndexError>) -> Option<u128> {
    match reply {
        Ok(key) => uuid_parsed(key),
        Err(_) => None,
    }
}

/// The reply of the index service with the key as characters.
pub open spec fn reply_view(reply: Result<String, IndexError>) -> Result<Seq<char>, IndexError> {
    match reply {
        Ok(k) => Ok(k@),
        Err(e) => Err(e),
    }
}

/// Reads the handle out of the reply of the index service.
pub fn handle_from_reply(reply: &Result<String, IndexError>) -> (r: Option<u128>)
    ensures
        r == handle_of_reply(reply_view(*reply)),
{
    match reply {
        Ok(key) => parse_uuid(key.as_str()),
        Err(_) => None,
    }
}

} // verus!
