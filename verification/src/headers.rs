//! Headers in the flattened connection-model form and in the multi-valued
//! handler-model map.
//!
//! The connection model hands headers over as a sequence of entries. An
//! entry with a name opens a run; the entries without a name that follow it
//! carry further values for the same name. The handler model wants a map
//! from each name to its values in order. [`rebuild_headers`] builds that
//! map and [`rebuilt`] says which map it is.
//!
//! Names and values are outside types that this library never looks into.
//! The contracts speak of them by their bytes: a name is its text in lower
//! case, a value the bytes that it was made of.

use crate::flat::{
    appended, flattens, inserted, lemma_open_name, lemma_prefix_names_within, lemma_rebuilt_within_names,
    names_of, open_name, rebuilt, well_formed,
};
use http::header::{HeaderName, HeaderValue, MaxSizeReached};
use vstd::prelude::*;

verus! {

/// `http::header::HeaderName`, opaque. Its text is [`name_text`].
#[verifier::external_type_specification]
#[verifier::external_body]
pub struct ExHeaderName(HeaderName);

/// `http::header::HeaderValue`, opaque. Its bytes are [`value_bytes`].
#[verifier::external_type_specification]
#[verifier::external_body]
pub struct ExHeaderValue(HeaderValue);

/// `http::header::MaxSizeReached`, the error of a map that cannot grow.
#[verifier::external_type_specification]
#[verifier::external_body]
pub struct ExMaxSizeReached(MaxSizeReached);

/// `http::HeaderMap`, the header map of the handler model. What it holds is
/// [`http_headers`].
#[verifier::external_type_specification]
#[verifier::external_body]
#[verifier::reject_recursive_types(T)]
pub struct ExHttpHeaderMap<T>(http::HeaderMap<T>);

/// `actix_http::header::HeaderMap`, the header map of the connection model.
/// What it holds is [`actix_headers`].
#[verifier::external_type_specification]
#[verifier::external_body]
pub struct ExActixHeaderMap(actix_http::header::HeaderMap);

/// A multi-valued header map as a mathematical value: the text of each
/// name that is present, with the bytes of its values in order.
pub type HeaderModel = Map<Seq<u8>, Seq<Seq<u8>>>;

/// One entry of the flattened form: a value, and the name it opens a run
/// for, if it opens one.
pub type FlatEntry = (Option<HeaderName>, HeaderValue);

/// A flattened entry as a mathematical value.
pub type FlatModel = (Option<Seq<u8>>, Seq<u8>);

/// The text of a header name, as `HeaderName::as_str` gives it: in lower
/// case, so that names which compare equal have the same text.
pub uninterp spec fn name_text(name: HeaderName) -> Seq<u8>;

/// The bytes of a header value, as `HeaderValue::as_bytes` gives them.
pub uninterp spec fn value_bytes(value: HeaderValue) -> Seq<u8>;

/// What a handler-model header map holds.
pub uninterp spec fn http_headers(map: http::HeaderMap<HeaderValue>) -> HeaderModel;

/// What a connection-model header map holds.
pub uninterp spec fn actix_headers(map: actix_http::header::HeaderMap) -> HeaderModel;

/// A handler-model map with at most this many names always takes one more
/// entry.
pub const ROOMY_NAMES: usize = 6553;

/// Why a flattened header sequence could not be rebuilt.
#[derive(Debug, Clone, Copy, PartialEq, Eq, Structural)]
pub enum HeaderError {
    /// The sequence starts with an entry without a name, so there is no run
    /// that the entry could continue.
    MissingName,
    /// The handler-model map refused to grow.
    MapFull,
}

/// The text of a name that may be absent.
pub open spec fn text_of(name: Option<HeaderName>) -> Option<Seq<u8>> {
    match name {
        Some(name) => Some(name_text(name)),
        None => None,
    }
}

/// An entry by the text of its name and the bytes of its value.
pub open spec fn entry_view(entry: FlatEntry) -> FlatModel {
    (text_of(entry.0), value_bytes(entry.1))
}

/// A flattened sequence by the texts of its names and the bytes of its
/// values.
pub open spec fn flat_view(flat: Seq<FlatEntry>) -> Seq<FlatModel> {
    flat.map_values(|entry: FlatEntry| entry_view(entry))
}

/// Whether `m` is certain to accept another entry.
pub open spec fn roomy(m: HeaderModel) -> bool {
    m.dom().finite() && m.dom().len() <= ROOMY_NAMES
}

/// `http::HeaderMap::new`: the map starts out without any name.
#[verifier::external_body]
fn http_headers_new() -> (headers: http::HeaderMap<HeaderValue>)
    ensures
        http_headers(headers) == HeaderModel::empty(),
{
    http::HeaderMap::new()
}

/// `http::HeaderMap::try_insert`: on success the name is bound to the new
/// value alone and every other name keeps its values.
///
/// The call fails only where the map would have to hold more than 32768
/// names or its table would have to grow beyond 32768 slots. A table of
/// that size is asked to grow when three quarters of its slots are in use
/// or, after many collisions, when a fifth of them are, which takes 6554
/// names. So a [`roomy`] map does not fail.
#[verifier::external_body]
fn http_headers_insert(
    headers: &mut http::HeaderMap<HeaderValue>,
    name: &HeaderName,
    value: HeaderValue,
) -> (done: Result<Option<HeaderValue>, MaxSizeReached>)
    ensures
        done is Ok ==> http_headers(*final(headers)) == inserted(
            http_headers(*old(headers)),
            name_text(*name),
            value_bytes(value),
        ),
        roomy(http_headers(*old(headers))) ==> done is Ok,
{
    headers.try_insert(name, value)
}

/// `http::HeaderMap::try_append`: on success the value stands behind the
/// values that the name had, or alone if it had none, and every other name
/// keeps its values. The call fails where `try_insert` would, so a
/// [`roomy`] map does not fail.
#[verifier::external_body]
fn http_headers_append(
    headers: &mut http::HeaderMap<HeaderValue>,
    name: &HeaderName,
    value: HeaderValue,
) -> (done: Result<bool, MaxSizeReached>)
    ensures
        done is Ok ==> http_headers(*final(headers)) == appended(
            http_headers(*old(headers)),
            name_text(*name),
            value_bytes(value),
        ),
        roomy(http_headers(*old(headers))) ==> done is Ok,
{
    headers.try_append(name, value)
}

/// `actix_http::header::HeaderMap::from`: the connection-model map holds
/// the same names with the same values in the same order.
#[verifier::external_body]
pub(crate) fn actix_headers_from(headers: http::HeaderMap<HeaderValue>) -> (converted: actix_http::header::HeaderMap)
    ensures
        actix_headers(converted) == http_headers(headers),
{
    actix_http::header::HeaderMap::from(headers)
}

/// `actix_http::header::HeaderMap::drain`, collected: a flattening of the
/// map. The iterator walks the names in the order of the map's hash table,
/// so nothing is said of the order of the runs; for each name it yields the
/// first value with the name and the further values, in order, without.
#[verifier::external_body]
pub(crate) fn actix_headers_drain(headers: actix_http::header::HeaderMap) -> (flat: Vec<FlatEntry>)
    ensures
        flattens(flat_view(flat@), actix_headers(headers)),
{
    let mut headers = headers;
    headers.drain().collect()
}

/// Whether a sequence is certain to fit into a handler-model map: no more
/// than [`ROOMY_NAMES`] names occur in it.
pub open spec fn fits(flat: Seq<FlatEntry>) -> bool {
    names_of(flat_view(flat)).len() <= ROOMY_NAMES
}

/// A sequence is well formed when it does not start with a continuation.
pub open spec fn starts_named(flat: Seq<FlatEntry>) -> bool {
    well_formed(flat_view(flat))
}

/// Builds the handler-model header map from the flattened sequence.
///
/// Fails with [`HeaderError::MissingName`] exactly when the sequence starts
/// with a continuation. Otherwise the result is the map that [`rebuilt`]
/// describes, unless the map refuses to grow, which it does not do for a
/// sequence that [`fits`].
pub fn rebuild_headers(flat: Vec<FlatEntry>) -> (result: Result<http::HeaderMap<HeaderValue>, HeaderError>)
    ensures
        !starts_named(flat@) <==> (result matches Err(HeaderError::MissingName)),
        starts_named(flat@) && fits(flat@) ==> result is Ok,
        result matches Ok(headers) ==> http_headers(headers) == rebuilt(flat_view(flat@)),
{
    let mut headers = http_headers_new();
    let mut previous: Option<HeaderName> = None;
    let ghost whole = flat_view(flat@);
    let ghost mut seen: Seq<FlatModel> = Seq::empty();
    for entry in it: flat
        invariant
            it.seq() == flat@,
            whole == flat_view(flat@),
            seen == whole.take(it.index() as int),
            well_formed(seen),
            http_headers(headers) == rebuilt(seen),
            text_of(previous) == open_name(seen),
    {
        let ghost before = seen;
        proof {
            seen = whole.take(it.index() + 1);
            assert(seen.drop_last() == before);
            assert(seen.last() == entry_view(entry));
            lemma_rebuilt_within_names(before);
            lemma_rebuilt_within_names(whole);
            lemma_prefix_names_within(whole, it.index() as int);
            vstd::set_lib::lemma_len_subset(rebuilt(before).dom(), names_of(before));
            vstd::set_lib::lemma_len_subset(names_of(before), names_of(whole));
        }
        let (name, value) = entry;
        match name {
            Some(name) => {
                let done = http_headers_insert(&mut headers, &name, value);
                if done.is_err() {
                    return Err(HeaderError::MapFull);
                }
                previous = Some(name);
            },
            None => {
                match &previous {
                    Some(name) => {
                        let done = http_headers_append(&mut headers, name, value);
                        if done.is_err() {
                            return Err(HeaderError::MapFull);
                        }
                    },
                    None => {
                        proof {
                            if before.len() > 0 {
                                lemma_open_name(before);
                            }
                        }
                        return Err(HeaderError::MissingName);
                    },
                }
            },
        }
    }
    assert(whole.take(whole.len() as int) == whole);
    Ok(headers)
}

} // verus!
