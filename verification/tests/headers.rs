use actix_axum::headers::{rebuild_headers, FlatEntry, HeaderError, ROOMY_NAMES};
use http::header::{HeaderMap, HeaderName, HeaderValue};

fn named(name: &'static str, value: &'static str) -> FlatEntry {
    (Some(HeaderName::from_static(name)), HeaderValue::from_static(value))
}

fn unnamed(value: &'static str) -> FlatEntry {
    (None, HeaderValue::from_static(value))
}

fn values(map: &HeaderMap, name: &str) -> Vec<String> {
    map.get_all(name).iter().map(|value| value.to_str().unwrap().to_owned()).collect()
}

fn distinct(count: usize) -> Vec<FlatEntry> {
    (0..count)
        .map(|i| {
            let name = HeaderName::from_bytes(format!("h{}", i).as_bytes()).unwrap();
            (Some(name), HeaderValue::from_static("v"))
        })
        .collect()
}

#[test]
fn empty_sequence_gives_empty_map() {
    let map = rebuild_headers(Vec::new()).unwrap();
    assert!(map.is_empty());
    assert_eq!(map.keys_len(), 0);
}

#[test]
fn runs_become_multi_valued_names() {
    let map = rebuild_headers(vec![named("x", "1"), unnamed("2"), named("y", "3")]).unwrap();
    assert_eq!(values(&map, "x"), vec!["1", "2"]);
    assert_eq!(values(&map, "y"), vec!["3"]);
    assert_eq!(map.keys_len(), 2);
    assert_eq!(map.len(), 3);
}

#[test]
fn leading_continuation_is_refused() {
    let result = rebuild_headers(vec![unnamed("1"), named("x", "2")]);
    assert_eq!(result.unwrap_err(), HeaderError::MissingName);
}

#[test]
fn lone_continuation_is_refused() {
    let result = rebuild_headers(vec![unnamed("1")]);
    assert_eq!(result.unwrap_err(), HeaderError::MissingName);
}

#[test]
fn single_named_entry() {
    let map = rebuild_headers(vec![named("host", "example.com")]).unwrap();
    assert_eq!(values(&map, "host"), vec!["example.com"]);
    assert_eq!(map.len(), 1);
}

#[test]
fn continuations_follow_the_latest_name() {
    let map = rebuild_headers(vec![
        named("a", "1"),
        named("b", "2"),
        unnamed("3"),
        unnamed("4"),
        named("c", "5"),
        unnamed("6"),
    ])
    .unwrap();
    assert_eq!(values(&map, "a"), vec!["1"]);
    assert_eq!(values(&map, "b"), vec!["2", "3", "4"]);
    assert_eq!(values(&map, "c"), vec!["5", "6"]);
    assert_eq!(map.keys_len(), 3);
}

#[test]
fn a_name_that_comes_again_replaces_its_values() {
    let map = rebuild_headers(vec![named("x", "1"), unnamed("2"), named("y", "3"), named("x", "4")]).unwrap();
    assert_eq!(values(&map, "x"), vec!["4"]);
    assert_eq!(values(&map, "y"), vec!["3"]);
    assert_eq!(map.len(), 2);
}

#[test]
fn a_name_that_comes_again_takes_the_continuations() {
    let map = rebuild_headers(vec![named("x", "1"), named("y", "2"), named("x", "3"), unnamed("4")]).unwrap();
    assert_eq!(values(&map, "x"), vec!["3", "4"]);
    assert_eq!(values(&map, "y"), vec!["2"]);
}

#[test]
fn equal_values_are_kept_apart() {
    let map = rebuild_headers(vec![named("x", "1"), unnamed("1"), unnamed("1")]).unwrap();
    assert_eq!(values(&map, "x"), vec!["1", "1", "1"]);
}

#[test]
fn names_without_distinction_of_case_are_one_name() {
    let upper = HeaderName::from_bytes(b"X-Token").unwrap();
    let map = rebuild_headers(vec![
        (Some(upper), HeaderValue::from_static("1")),
        (Some(HeaderName::from_static("x-token")), HeaderValue::from_static("2")),
    ])
    .unwrap();
    assert_eq!(values(&map, "x-token"), vec!["2"]);
    assert_eq!(map.keys_len(), 1);
}

#[test]
fn a_roomy_sequence_never_fails() {
    let map = rebuild_headers(distinct(ROOMY_NAMES)).unwrap();
    assert_eq!(map.keys_len(), ROOMY_NAMES);
    assert_eq!(values(&map, "h0"), vec!["v"]);
    assert_eq!(values(&map, "h6552"), vec!["v"]);
}

#[test]
fn many_values_under_one_name() {
    let mut flat: Vec<FlatEntry> = vec![named("set-cookie", "0")];
    for _ in 0..10_000 {
        flat.push(unnamed("n"));
    }
    let map = rebuild_headers(flat).unwrap();
    assert_eq!(map.keys_len(), 1);
    assert_eq!(map.len(), 10_001);
}

#[test]
fn beyond_the_roomy_bound_the_map_decides() {
    match rebuild_headers(distinct(ROOMY_NAMES + 1)) {
        Ok(map) => assert_eq!(map.keys_len(), ROOMY_NAMES + 1),
        Err(error) => assert_eq!(error, HeaderError::MapFull),
    }
}

#[test]
fn a_map_that_cannot_grow_is_reported() {
    let result = rebuild_headers(distinct(24_577));
    assert_eq!(result.unwrap_err(), HeaderError::MapFull);
}

#[test]
fn a_leading_continuation_is_refused_before_anything_else() {
    let mut flat = vec![unnamed("stray")];
    flat.extend(distinct(24_577));
    assert_eq!(rebuild_headers(flat).unwrap_err(), HeaderError::MissingName);
}
