//! Body adaptation in both directions.
//!
//! A body is a lazy, single-pass sequence of chunks. Each adapter answers
//! one poll of the body it wraps with one poll result of its own, so a
//! function from the one to the other says all that the adapter does.

use actix_http::body::BodySize;
use http_body::SizeHint;
use std::task::Poll;
use vstd::prelude::*;

verus! {

/// `std::task::Poll`, with its variants `Ready` and `Pending`.
#[verifier::external_type_specification]
#[verifier::reject_recursive_types(T)]
pub struct ExPoll<T>(Poll<T>);

/// `actix_http::body::BodySize`, with its variants `None`, `Sized` and
/// `Stream`.
#[verifier::external_type_specification]
pub struct ExBodySize(BodySize);

/// `http_body::SizeHint`, opaque. Its bounds are [`size_hint_lower`] and
/// [`size_hint_upper`].
#[verifier::external_type_specification]
#[verifier::external_body]
pub struct ExSizeHint(SizeHint);

/// The least number of bytes that a body with this hint will yield.
pub uninterp spec fn size_hint_lower(hint: SizeHint) -> u64;

/// The greatest number of bytes that a body with this hint will yield, if
/// there is a known bound.
pub uninterp spec fn size_hint_upper(hint: SizeHint) -> Option<u64>;

/// The length that a hint fixes: its upper bound, where the lower bound
/// meets it.
pub open spec fn exact_size(hint: SizeHint) -> Option<u64> {
    if size_hint_upper(hint) == Some(size_hint_lower(hint)) {
        size_hint_upper(hint)
    } else {
        None
    }
}

/// The connection-model size of a body whose length is `exact`, if known:
/// a known length is reported as such, zero included, and an unknown one as
/// a stream. No body is ever reported as absent.
pub open spec fn size_for(exact: Option<u64>) -> BodySize {
    match exact {
        Some(n) => BodySize::Sized(n),
        None => BodySize::Stream,
    }
}

/// `http_body::SizeHint::exact`: the upper bound if the lower bound equals
/// it, and nothing otherwise.
#[verifier::external_body]
fn size_hint_exact(hint: &SizeHint) -> (exact: Option<u64>)
    ensures
        exact == (if size_hint_upper(*hint) == Some(size_hint_lower(*hint)) {
            size_hint_upper(*hint)
        } else {
            None
        }),
{
    hint.exact()
}

/// How one poll result of a wrapped body relates to the poll result that
/// the adapter gives for it, where `chunk_ok` and `error_ok` say which
/// chunk and which error may stand for a given one.
pub open spec fn carried<D, E, T, X>(
    polled: Poll<Option<Result<D, E>>>,
    out: Poll<Option<Result<T, X>>>,
    chunk_ok: spec_fn(D, T) -> bool,
    error_ok: spec_fn(E, X) -> bool,
) -> bool {
    match polled {
        Poll::Pending => out is Pending,
        Poll::Ready(None) => out matches Poll::Ready(None),
        Poll::Ready(Some(Ok(chunk))) => out matches Poll::Ready(Some(Ok(data))) && chunk_ok(chunk, data),
        Poll::Ready(Some(Err(error))) => out matches Poll::Ready(Some(Err(failure))) && error_ok(
            error,
            failure,
        ),
    }
}

/// A handler-model body presented to the connection model.
pub struct HttpToActixBody<B> {
    pub inner: B,
}

impl<B> HttpToActixBody<B> {
    /// Wraps a handler-model body without touching it.
    pub fn new(inner: B) -> (body: Self)
        ensures
            body.inner == inner,
    {
        Self { inner }
    }

    /// The size that the connection model is told for a body with the given
    /// hint.
    pub fn size(hint: &SizeHint) -> (size: BodySize)
        ensures
            size == size_for(exact_size(*hint)),
            exact_size(*hint) == Some(0u64) ==> size == BodySize::Sized(0),
            exact_size(*hint) is None <==> size is Stream,
            !(size is None),
    {
        Self::size_of_exact(size_hint_exact(hint))
    }

    /// The size that the connection model is told for a body whose length
    /// is `exact`, if it is known.
    pub fn size_of_exact(exact: Option<u64>) -> (size: BodySize)
        ensures
            size == size_for(exact),
            exact == Some(0u64) ==> size == BodySize::Sized(0),
            exact is None <==> size is Stream,
            !(size is None),
    {
        match exact {
            Some(n) => BodySize::Sized(n),
            None => BodySize::Stream,
        }
    }

    /// The answer to one poll, given what the wrapped body answered.
    ///
    /// A chunk is handed on as the one contiguous buffer that `coalesce`
    /// makes of it; an error is handed on as it is; the end of the body and
    /// a pending poll are reported as such.
    pub fn poll_next<D, E, T, C: FnOnce(D) -> T>(polled: Poll<Option<Result<D, E>>>, coalesce: C) -> (out:
        Poll<Option<Result<T, E>>>)
        requires
            polled matches Poll::Ready(Some(Ok(chunk))) ==> coalesce.requires((chunk,)),
        ensures
            carried(
                polled,
                out,
                |chunk: D, data: T| coalesce.ensures((chunk,), data),
                |error: E, failure: E| failure == error,
            ),
    {
        match polled {
            Poll::Pending => Poll::Pending,
            Poll::Ready(None) => Poll::Ready(None),
            Poll::Ready(Some(Ok(chunk))) => Poll::Ready(Some(Ok(coalesce(chunk)))),
            Poll::Ready(Some(Err(error))) => Poll::Ready(Some(Err(error))),
        }
    }
}

/// A fallible stream of chunks presented to the handler model as a body.
pub struct StreamBody<S> {
    pub stream: S,
}

impl<S> From<S> for StreamBody<S> {
    /// Wraps a stream without touching it.
    fn from(stream: S) -> (body: Self) {
        Self::new(stream)
    }
}

impl<S> vstd::std_specs::convert::FromSpecImpl<S> for StreamBody<S> {
    open spec fn obeys_from_spec() -> bool {
        true
    }

    open spec fn from_spec(stream: S) -> Self {
        StreamBody { stream }
    }
}

impl<S> StreamBody<S> {
    /// Wraps a stream without touching it.
    pub fn new(stream: S) -> (body: Self)
        ensures
            body.stream == stream,
    {
        Self { stream }
    }

    /// The answer to one poll for data, given what the wrapped stream
    /// answered: chunks and errors are converted to the types that the body
    /// declares, and nothing else changes.
    pub fn poll_data<T: Into<D>, E: Into<X>, D, X>(polled: Poll<Option<Result<T, E>>>) -> (out: Poll<
        Option<Result<D, X>>,
    >)
        ensures
            carried(
                polled,
                out,
                |chunk: T, data: D| call_ensures(<T as Into<D>>::into, (chunk,), data),
                |error: E, failure: X| call_ensures(<E as Into<X>>::into, (error,), failure),
            ),
    {
        match polled {
            Poll::Pending => Poll::Pending,
            Poll::Ready(None) => Poll::Ready(None),
            Poll::Ready(Some(Ok(chunk))) => Poll::Ready(Some(Ok(chunk.into()))),
            Poll::Ready(Some(Err(error))) => Poll::Ready(Some(Err(error.into()))),
        }
    }

    /// The answer to a poll for trailers: there are none, at once and
    /// always.
    pub fn poll_trailers<H, X>() -> (out: Poll<Result<Option<H>, X>>)
        ensures
            out matches Poll::Ready(Ok(None)),
    {
        Poll::Ready(Ok(None))
    }
}

} // verus!
