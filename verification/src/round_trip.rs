//! A request that goes to the handler and comes back as a response.

use crate::body::{HttpToActixBody, StreamBody};
use crate::flat::{distinct_names, flattens, grouped, well_formed};
use crate::flat_laws::{lemma_flattened_rebuilds, lemma_rebuilt_is_grouped};
use crate::headers::{actix_headers, flat_view, http_headers, HeaderModel};
use crate::request::{request_converted, ConnectionRequest, HandlerRequest};
use crate::response::{response_converted, ConnectionResponse, HandlerResponse};
use vstd::prelude::*;

verus! {

/// Nothing of a request is lost on the way to the handler and back.
///
/// Take a request whose flattened headers are well formed and open no two
/// runs for one name. The handler is called with its method, URI and
/// version. If the handler answers with the headers and the body that it
/// was called with, then the response that the connection model sends
/// holds every name of the request with all of its values in their order,
/// and the payload of the request as its body.
pub proof fn lemma_round_trip<P>(
    req: ConnectionRequest<P>,
    called_with: HandlerRequest<StreamBody<P>>,
    answer: HandlerResponse<StreamBody<P>>,
    sent: ConnectionResponse<HttpToActixBody<StreamBody<P>>>,
)
    requires
        well_formed(flat_view(req.headers@)),
        distinct_names(flat_view(req.headers@)),
        request_converted(req, called_with),
        http_headers(answer.headers) == http_headers(called_with.headers),
        answer.body == called_with.body,
        response_converted(answer, sent),
    ensures
        called_with.method == req.method,
        called_with.uri == req.uri,
        called_with.version == req.version,
        actix_headers(sent.headers) == grouped(flat_view(req.headers@)),
        sent.body.inner.stream == req.payload,
{
    lemma_rebuilt_is_grouped(flat_view(req.headers@));
}

/// The same for a request that was put together from a connection-model
/// header map: the response that the connection model sends for an echo
/// holds exactly what that map held.
pub proof fn lemma_round_trip_of_map<P>(
    held: HeaderModel,
    req: ConnectionRequest<P>,
    called_with: HandlerRequest<StreamBody<P>>,
    answer: HandlerResponse<StreamBody<P>>,
    sent: ConnectionResponse<HttpToActixBody<StreamBody<P>>>,
)
    requires
        flattens(flat_view(req.headers@), held),
        request_converted(req, called_with),
        http_headers(answer.headers) == http_headers(called_with.headers),
        response_converted(answer, sent),
    ensures
        http_headers(called_with.headers) == held,
        actix_headers(sent.headers) == held,
{
    lemma_flattened_rebuilds(flat_view(req.headers@), held);
}

} // verus!
