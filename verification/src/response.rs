//! Handler-model responses as the connection model receives them.

use crate::body::HttpToActixBody;
use crate::headers::{actix_headers, http_headers};
use http::header::HeaderValue;
use http::StatusCode;
use std::convert::Infallible;
use std::task::Poll;
use vstd::prelude::*;

verus! {

/// `http::StatusCode`, opaque: carried through as it is.
#[verifier::external_type_specification]
#[verifier::external_body]
pub struct ExStatusCode(StatusCode);

/// A response as a handler produces it.
pub struct HandlerResponse<B> {
    pub status: StatusCode,
    pub headers: http::HeaderMap<HeaderValue>,
    pub body: B,
}

/// A response as the connection model sends it.
pub struct ConnectionResponse<B> {
    pub status: StatusCode,
    pub headers: actix_http::header::HeaderMap,
    pub body: B,
}

/// `out` is the connection-model form of `resp`: the status is that of
/// `resp`, the body is wrapped as it is, and the header map holds what the
/// handler's header map held, and nothing else.
pub open spec fn response_converted<B>(resp: HandlerResponse<B>, out: ConnectionResponse<HttpToActixBody<B>>) -> bool {
    &&& out.status == resp.status
    &&& out.body.inner == resp.body
    &&& actix_headers(out.headers) == http_headers(resp.headers)
}

/// Converts the response of a handler into the response that the
/// connection model sends.
pub fn http_to_actix_response<B>(resp: HandlerResponse<B>) -> (out: ConnectionResponse<HttpToActixBody<B>>)
    ensures
        response_converted(resp, out),
{
    let HandlerResponse { status, headers, body } = resp;
    ConnectionResponse {
        status,
        headers: crate::headers::actix_headers_from(headers),
        body: HttpToActixBody::new(body),
    }
}

/// A pending handler-model response presented to the connection model.
pub struct HttpToActixResponseFuture<F> {
    pub inner: F,
}

impl<F> HttpToActixResponseFuture<F> {
    /// Wraps the future that the handler returned when the call was started.
    pub fn new(inner: F) -> (future: Self)
        ensures
            future.inner == inner,
    {
        Self { inner }
    }

    /// The answer to one poll, given what the wrapped future answered: a
    /// response that is ready is converted, and a pending poll stays
    /// pending.
    pub fn poll<B>(polled: Poll<Result<HandlerResponse<B>, Infallible>>) -> (out: Poll<
        Result<ConnectionResponse<HttpToActixBody<B>>, Infallible>,
    >)
        ensures
            match polled {
                Poll::Pending => out is Pending,
                Poll::Ready(Ok(resp)) => out matches Poll::Ready(Ok(converted)) && response_converted(
                    resp,
                    converted,
                ),
                Poll::Ready(Err(never)) => out matches Poll::Ready(Err(same)) && same == never,
            },
    {
        match polled {
            Poll::Pending => Poll::Pending,
            Poll::Ready(Ok(resp)) => Poll::Ready(Ok(http_to_actix_response(resp))),
            Poll::Ready(Err(never)) => Poll::Ready(Err(never)),
        }
    }
}

} // verus!
