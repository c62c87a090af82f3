use actix_axum::body::{HttpToActixBody, StreamBody};
use actix_http::body::BodySize;
use bytes::{Buf, Bytes};
use http_body::SizeHint;
use std::task::Poll;

type Source = Poll<Option<Result<Bytes, &'static str>>>;

fn forward(polled: Source) -> Source {
    HttpToActixBody::<()>::poll_next(polled, |mut chunk: Bytes| chunk.copy_to_bytes(chunk.remaining()))
}

#[test]
fn body_wraps_inner() {
    assert_eq!(HttpToActixBody::new("inner").inner, "inner");
    assert_eq!(StreamBody::new(5).stream, 5);
}

#[test]
fn exact_zero_is_sized_zero() {
    let size = HttpToActixBody::<()>::size(&SizeHint::with_exact(0));
    assert_eq!(size, BodySize::Sized(0));
    assert_ne!(size, BodySize::None);
    assert_ne!(size, BodySize::Stream);
}

#[test]
fn exact_length_is_sized() {
    assert_eq!(HttpToActixBody::<()>::size(&SizeHint::with_exact(1)), BodySize::Sized(1));
    assert_eq!(HttpToActixBody::<()>::size(&SizeHint::with_exact(4096)), BodySize::Sized(4096));
    assert_eq!(HttpToActixBody::<()>::size(&SizeHint::with_exact(u64::MAX)), BodySize::Sized(u64::MAX));
}

#[test]
fn unknown_length_is_stream() {
    assert_eq!(HttpToActixBody::<()>::size(&SizeHint::new()), BodySize::Stream);
}

#[test]
fn bounds_that_differ_are_stream() {
    let mut hint = SizeHint::new();
    hint.set_upper(10);
    assert_eq!(HttpToActixBody::<()>::size(&hint), BodySize::Stream);
    hint.set_lower(3);
    assert_eq!(HttpToActixBody::<()>::size(&hint), BodySize::Stream);
}

#[test]
fn bounds_that_meet_are_sized() {
    let mut hint = SizeHint::new();
    hint.set_upper(10);
    hint.set_lower(10);
    assert_eq!(HttpToActixBody::<()>::size(&hint), BodySize::Sized(10));
}

#[test]
fn lower_bound_alone_is_stream() {
    let mut hint = SizeHint::new();
    hint.set_lower(10);
    assert_eq!(HttpToActixBody::<()>::size(&hint), BodySize::Stream);
}

#[test]
fn chunks_come_out_one_for_one() {
    let source: Vec<Source> = vec![
        Poll::Ready(Some(Ok(Bytes::from_static(b"ab")))),
        Poll::Ready(Some(Ok(Bytes::from_static(b"cd")))),
        Poll::Ready(Some(Ok(Bytes::from_static(b"ef")))),
        Poll::Ready(None),
    ];
    let seen: Vec<Source> = source.into_iter().map(forward).collect();
    assert_eq!(seen.len(), 4);
    assert_eq!(seen[0], Poll::Ready(Some(Ok(Bytes::from_static(b"ab")))));
    assert_eq!(seen[1], Poll::Ready(Some(Ok(Bytes::from_static(b"cd")))));
    assert_eq!(seen[2], Poll::Ready(Some(Ok(Bytes::from_static(b"ef")))));
    assert_eq!(seen[3], Poll::Ready(None));
}

#[test]
fn pending_polls_between_chunks_stay_pending() {
    let source: Vec<Source> = vec![
        Poll::Pending,
        Poll::Ready(Some(Ok(Bytes::from_static(b"ab")))),
        Poll::Pending,
        Poll::Ready(None),
    ];
    let seen: Vec<Source> = source.into_iter().map(forward).collect();
    assert_eq!(seen[0], Poll::Pending);
    assert_eq!(seen[1], Poll::Ready(Some(Ok(Bytes::from_static(b"ab")))));
    assert_eq!(seen[2], Poll::Pending);
    assert_eq!(seen[3], Poll::Ready(None));
}

#[test]
fn segments_of_one_chunk_are_joined() {
    let chunk = Bytes::from_static(b"ab").chain(Bytes::from_static(b"cd")).chain(Bytes::from_static(b"ef"));
    let polled: Poll<Option<Result<_, &'static str>>> = Poll::Ready(Some(Ok(chunk)));
    let out = HttpToActixBody::<()>::poll_next(polled, |mut chunk| chunk.copy_to_bytes(chunk.remaining()));
    assert_eq!(out, Poll::Ready(Some(Ok(Bytes::from_static(b"abcdef")))));
}

#[test]
fn empty_chunk_is_still_a_chunk() {
    assert_eq!(forward(Poll::Ready(Some(Ok(Bytes::new())))), Poll::Ready(Some(Ok(Bytes::new()))));
}

#[test]
fn chunk_error_is_handed_on_unchanged() {
    assert_eq!(forward(Poll::Ready(Some(Err("broken")))), Poll::Ready(Some(Err("broken"))));
}

#[test]
fn stream_chunks_are_converted() {
    let polled: Poll<Option<Result<&'static str, String>>> = Poll::Ready(Some(Ok("chunk")));
    let out: Poll<Option<Result<Bytes, Box<dyn std::error::Error>>>> = StreamBody::<()>::poll_data(polled);
    match out {
        Poll::Ready(Some(Ok(data))) => assert_eq!(data, Bytes::from_static(b"chunk")),
        _ => panic!("a chunk must be handed on as a chunk"),
    }
}

#[test]
fn stream_errors_are_converted() {
    let polled: Poll<Option<Result<&'static str, String>>> = Poll::Ready(Some(Err("lost".to_owned())));
    let out: Poll<Option<Result<Bytes, Box<dyn std::error::Error>>>> = StreamBody::<()>::poll_data(polled);
    match out {
        Poll::Ready(Some(Err(error))) => assert_eq!(error.to_string(), "lost"),
        _ => panic!("an error must be handed on as an error"),
    }
}

#[test]
fn stream_end_and_pending_are_handed_on() {
    let end: Poll<Option<Result<Vec<u8>, String>>> = Poll::Ready(None);
    let out: Poll<Option<Result<Bytes, String>>> = StreamBody::<()>::poll_data(end);
    assert_eq!(out, Poll::Ready(None));
    let pending: Poll<Option<Result<Vec<u8>, String>>> = Poll::Pending;
    let out: Poll<Option<Result<Bytes, String>>> = StreamBody::<()>::poll_data(pending);
    assert_eq!(out, Poll::Pending);
}

#[test]
fn stream_body_has_no_trailers() {
    let out: Poll<Result<Option<http::HeaderMap>, String>> = StreamBody::<()>::poll_trailers();
    assert_eq!(out, Poll::Ready(Ok(None)));
}

#[test]
fn stream_body_from_stream() {
    let body: StreamBody<&str> = StreamBody::from("stream");
    assert_eq!(body.stream, "stream");
}

#[test]
fn size_of_exact_length() {
    assert_eq!(HttpToActixBody::<()>::size_of_exact(Some(0)), BodySize::Sized(0));
    assert_eq!(HttpToActixBody::<()>::size_of_exact(Some(9)), BodySize::Sized(9));
    assert_eq!(HttpToActixBody::<()>::size_of_exact(None), BodySize::Stream);
}
