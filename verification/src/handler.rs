//! The proxy's one request handler.
//!
//! `mjpeg` turns the outcome of the upstream fetch into exactly one
//! outbound response: a 200 whose body relays the upstream stream
//! unchanged when the upstream answered 200 with a content-type, and a
//! bodyless 502 in every other case. Response assembly in this module
//! cannot fail, so no local 500 ever arises from it.

use vstd::prelude::*;
use crate::relay::StreamWithLoggedEnd;
use crate::stream::ByteStream;
use crate::trace::Scope;
use crate::upstream::FetchError;
use crate::validate::{validate, UpstreamResponse, STATUS_OK};

verus! {

/// HTTP status telling the client the upstream could not be proxied.
pub const STATUS_BAD_GATEWAY: u16 = 502;

/// The response handed downstream. Its body always carries the request's
/// lifecycle scope, so the completion record fires exactly once whatever
/// becomes of the response — an error response simply carries an empty
/// stream.
pub struct OutboundResponse {
    /// HTTP status sent to the client.
    pub status: u16,
    /// The single content-type header of the response, if one is set.
    pub content_type: Option<String>,
    /// The response body, bound to the request's lifecycle scope.
    pub body: StreamWithLoggedEnd,
}

/// Builds the success response: status 200, the validated content-type as
/// its single content-type header, and a body that is a pass-through
/// wrapper over the still-unconsumed upstream stream.
pub fn relay(content_type: String, body: ByteStream, scope: Scope) -> (r: OutboundResponse)
    requires
        body.is_open(),
        scope.wf(),
        !scope.closed(),
    ensures
        r.status == STATUS_OK,
        r.content_type == Some(content_type),
        r.body.wf(),
        !r.body.is_done(),
        r.body.pending() == body.remaining(),
        r.body.source_fails() == body.fails_at_end(),
        r.body.scope() == scope,
{
    OutboundResponse {
        status: STATUS_OK,
        content_type: Some(content_type),
        body: StreamWithLoggedEnd::new(body, scope),
    }
}

/// Builds the bodyless error response for a failed fetch or a refused
/// upstream response: nothing of the upstream leaks into it.
fn error_response(status: u16, scope: Scope) -> (r: OutboundResponse)
    requires
        scope.wf(),
        !scope.closed(),
    ensures
        r.status == status,
        r.content_type is None,
        r.body.wf(),
        !r.body.is_done(),
        r.body.pending() == Seq::<Seq<u8>>::empty(),
        r.body.scope() == scope,
{
    OutboundResponse {
        status,
        content_type: None,
        body: StreamWithLoggedEnd::new(ByteStream::empty(), scope),
    }
}

/// The handler: one outcome of the upstream fetch in, exactly one
/// response out.
///
/// A fetch error, an upstream status other than 200, or a missing
/// content-type each yield one 502 with no content-type and an empty
/// body; a valid upstream response yields a 200 preserving the upstream
/// content-type exactly, whose body relays the upstream stream unchanged.
/// Either way the body carries the request's scope, still open, so the
/// lifecycle close fires exactly once when the response is consumed or
/// dropped.
pub fn mjpeg(outcome: Result<UpstreamResponse, FetchError>, scope: Scope) -> (r: OutboundResponse)
    requires
        scope.wf(),
        !scope.closed(),
        outcome matches Ok(u) ==> u.body.is_open(),
    ensures
        r.body.wf(),
        !r.body.is_done(),
        r.body.scope().ctx() == scope.ctx(),
        match outcome {
            Err(_) => r.status == STATUS_BAD_GATEWAY && r.content_type is None
                && r.body.pending() == Seq::<Seq<u8>>::empty(),
            Ok(u) => {
                if u.status == STATUS_OK && u.content_type is Some {
                    &&& r.status == STATUS_OK
                    &&& r.content_type == u.content_type
                    &&& r.body.pending() == u.body.remaining()
                    &&& r.body.source_fails() == u.body.fails_at_end()
                } else {
                    &&& r.status == STATUS_BAD_GATEWAY
                    &&& r.content_type is None
                    &&& r.body.pending() == Seq::<Seq<u8>>::empty()
                }
            },
        },
        r.status == STATUS_OK || r.status == STATUS_BAD_GATEWAY,
{
    match outcome {
        Err(_) => error_response(STATUS_BAD_GATEWAY, scope),
        Ok(u) => match validate(u) {
            Ok(v) => relay(v.content_type, v.body, scope),
            Err(_) => error_response(STATUS_BAD_GATEWAY, scope),
        },
    }
}

} // verus!
