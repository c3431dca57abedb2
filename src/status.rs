//! Reading the open state out of a status endpoint's response.

use vstd::prelude::*;

verus! {

#[verifier::external_type_specification]
#[verifier::external_body]
pub struct ExJsonError(serde_json::Error);

/// Why one fetch of a status endpoint gave no state.
#[derive(Clone, Copy, Debug, PartialEq, Eq, Structural)]
pub enum FetchError {
    /// The endpoint could not be reached (DNS, refused connection, timeout).
    Unreachable,
    /// The response is not a valid status document.
    Malformed,
}

/// The `state.open` field of the status document in `body`: `None` where
/// `body` is no status document, `Some(None)` where the field is absent.
pub uninterp spec fn status_open_field(body: Seq<char>) -> Option<Option<bool>>;

/// Relies on serde_json::from_str into spaceapi::Status: whether the text
/// parses, and the `state.open` field of the result, depend on the text alone.
#[verifier::external_body]
fn parse_status_document(body: &str) -> (r: Result<Option<bool>, serde_json::Error>)
    ensures
        r is Ok <==> status_open_field(body@) is Some,
        r is Ok ==> status_open_field(body@) == Some(r->Ok_0),
{
    serde_json::from_str::<spaceapi::Status>(body).map(|s| s.state.and_then(|st| st.open))
}

/// An absent `open` field counts as closed.
pub open spec fn open_state(field: Option<bool>) -> bool {
    match field {
        Some(b) => b,
        None => false,
    }
}

/// The observed state for a parsed `open` field.
pub fn observed_state(field: Option<bool>) -> (r: bool)
    ensures
        r == open_state(field),
{
    match field {
        Some(b) => b,
        None => false,
    }
}

/// The observed state carried by a status response body.
pub open spec fn body_outcome(body: Seq<char>) -> Result<bool, FetchError> {
    match status_open_field(body) {
        Some(field) => Ok(open_state(field)),
        None => Err(FetchError::Malformed),
    }
}

/// Reads the open state out of a status response body; a body that is no
/// status document is `Malformed`.
pub fn parse_status(body: &str) -> (r: Result<bool, FetchError>)
    ensures
        r == body_outcome(body@),
{
    match parse_status_document(body) {
        Ok(field) => Ok(observed_state(field)),
        Err(_) => Err(FetchError::Malformed),
    }
}

} // verus!
