//! Upstream response validation.
//!
//! The proxy forwards an upstream response only when its status is exactly
//! 200 and it carries a content-type header; anything else is refused
//! uniformly, since the downstream client cannot act on upstream detail.

use vstd::prelude::*;
use crate::stream::ByteStream;

verus! {

/// HTTP status of a successful response.
pub const STATUS_OK: u16 = 200;

/// What the upstream client hands back: status, the one header the proxy
/// inspects, and the still-unconsumed body stream.
pub struct UpstreamResponse {
    /// Upstream HTTP status code.
    pub status: u16,
    /// Value of the upstream content-type header, if any.
    pub content_type: Option<String>,
    /// Lazy handle on the upstream body; nothing has been pulled yet.
    pub body: ByteStream,
}

/// Why an upstream response was refused.
#[derive(PartialEq, Eq, Structural, Clone, Copy, Debug)]
pub enum ValidationError {
    /// The upstream status was not exactly 200.
    BadStatus,
    /// The upstream response had no content-type header, so the
    /// downstream client could not parse the stream; the proxy refuses
    /// to guess one.
    MissingContentType,
}

/// A validated upstream response: the content type to forward and the
/// body stream, ownership of which passes to the relay.
pub struct ValidatedStream {
    /// The exact upstream content-type value.
    pub content_type: String,
    /// The still-unconsumed upstream body.
    pub body: ByteStream,
}

/// Decides on status and content-type header alone, as plain values:
/// refused unless the status is exactly 200 and a content-type is present;
/// accepted with exactly the upstream's content-type value otherwise.
pub fn validate_parts(status: u16, content_type: Option<String>) -> (r: Result<
    String,
    ValidationError,
>)
    ensures
        r matches Err(e) ==> (
            (e == ValidationError::BadStatus <==> status != STATUS_OK)
            && (e == ValidationError::MissingContentType
                <==> status == STATUS_OK && content_type is None)
        ),
        r matches Ok(ct) ==> status == STATUS_OK && content_type == Some(ct),
        r is Ok <==> status == STATUS_OK && content_type is Some,
{
    if status != STATUS_OK {
        Err(ValidationError::BadStatus)
    } else {
        match content_type {
            Some(ct) => Ok(ct),
            None => Err(ValidationError::MissingContentType),
        }
    }
}

/// Validates a whole upstream response, forwarding ownership of the
/// untouched body on success.
pub fn validate(resp: UpstreamResponse) -> (r: Result<ValidatedStream, ValidationError>)
    ensures
        r matches Err(e) ==> (
            (e == ValidationError::BadStatus <==> resp.status != STATUS_OK)
            && (e == ValidationError::MissingContentType
                <==> resp.status == STATUS_OK && resp.content_type is None)
        ),
        r matches Ok(v) ==> (
            resp.status == STATUS_OK
            && resp.content_type == Some(v.content_type)
            && v.body == resp.body
        ),
        r is Ok <==> resp.status == STATUS_OK && resp.content_type is Some,
{
    match validate_parts(resp.status, resp.content_type) {
        Ok(content_type) => Ok(ValidatedStream { content_type, body: resp.body }),
        Err(e) => Err(e),
    }
}

} // verus!
