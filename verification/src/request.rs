//! Connection-model requests as the handler receives them.

use crate::body::StreamBody;
use crate::flat::{flattens, rebuilt};
use crate::headers::{
    actix_headers, actix_headers_drain, fits, flat_view, http_headers, rebuild_headers, starts_named, FlatEntry,
    HeaderError,
};
use http::header::HeaderValue;
use http::{Method, Uri, Version};
use vstd::prelude::*;

verus! {

/// `http::Method`, opaque: carried through as it is.
#[verifier::external_type_specification]
#[verifier::external_body]
pub struct ExMethod(Method);

/// `http::Uri`, opaque: carried through as it is.
#[verifier::external_type_specification]
#[verifier::external_body]
pub struct ExUri(Uri);

/// `http::Version`, opaque: carried through as it is.
#[verifier::external_type_specification]
#[verifier::external_body]
pub struct ExVersion(Version);

/// A request as the connection model holds it: the headers are flattened
/// and the payload is a handle that has not been read.
pub struct ConnectionRequest<P> {
    pub method: Method,
    pub uri: Uri,
    pub version: Version,
    pub headers: Vec<FlatEntry>,
    pub payload: P,
}

impl<P> ConnectionRequest<P> {
    /// Puts a request together from the parts that the connection model
    /// holds, flattening its header map.
    pub fn from_parts(
        method: Method,
        uri: Uri,
        version: Version,
        headers: actix_http::header::HeaderMap,
        payload: P,
    ) -> (req: Self)
        ensures
            req.method == method,
            req.uri == uri,
            req.version == version,
            req.payload == payload,
            flattens(flat_view(req.headers@), actix_headers(headers)),
    {
        ConnectionRequest { method, uri, version, headers: actix_headers_drain(headers), payload }
    }
}

/// A request as a handler takes it.
pub struct HandlerRequest<B> {
    pub method: Method,
    pub uri: Uri,
    pub version: Version,
    pub headers: http::HeaderMap<HeaderValue>,
    pub body: B,
}

/// `out` is the handler-model form of `req`: method, URI and version are
/// those of `req`, the payload is wrapped as it is, and the header map is
/// the one that the flattened headers rebuild to.
pub open spec fn request_converted<P>(req: ConnectionRequest<P>, out: HandlerRequest<StreamBody<P>>) -> bool {
    &&& out.method == req.method
    &&& out.uri == req.uri
    &&& out.version == req.version
    &&& out.body.stream == req.payload
    &&& http_headers(out.headers) == rebuilt(flat_view(req.headers@))
}

/// Converts a connection-model request into the request that the handler
/// is called with.
///
/// Fails with [`HeaderError::MissingName`] exactly when the flattened
/// headers start with a continuation. A request whose headers fit never
/// fails for want of room.
pub fn actix_to_http_request<P>(req: ConnectionRequest<P>) -> (result: Result<
    HandlerRequest<StreamBody<P>>,
    HeaderError,
>)
    ensures
        !starts_named(req.headers@) <==> (result matches Err(HeaderError::MissingName)),
        starts_named(req.headers@) && fits(req.headers@) ==> result is Ok,
        result matches Ok(out) ==> request_converted(req, out),
{
    let ConnectionRequest { method, uri, version, headers, payload } = req;
    let body = StreamBody::new(payload);
    match rebuild_headers(headers) {
        Ok(headers) => Ok(HandlerRequest { method, uri, version, headers, body }),
        Err(error) => Err(error),
    }
}

} // verus!
