//! Header storage.
//!
//! Headers are kept in a `multimap::MultiMap` from header name to the list of
//! values given for that name. The map is opaque to the verifier; this module
//! names its contents and gives contracts to the two operations the library
//! performs on it.

use multimap::MultiMap;
use vstd::prelude::*;

verus! {

/// The header map of a request or response.
pub type Headers = MultiMap<String, Vec<u8>>;

/// The mathematical content of a header map.
pub type HeaderView = Map<Seq<char>, Seq<Seq<u8>>>;

#[verifier::external_type_specification]
#[verifier::external_body]
#[verifier::reject_recursive_types(K)]
#[verifier::reject_recursive_types(V)]
#[verifier::reject_recursive_types(S)]
pub struct ExMultiMap<K, V, S>(MultiMap<K, V, S>);

/// What a header map holds: for each header name present, the values
/// inserted under that name, oldest first.
pub uninterp spec fn header_values(headers: MultiMap<String, Vec<u8>>) -> Map<Seq<char>, Seq<Seq<u8>>>;

/// The contents of a header map after one more value was given for `name`:
/// the value stands at the end of the name's list, which it starts if the
/// name had none.
pub open spec fn inserted(headers: HeaderView, name: Seq<char>, value: Seq<u8>) -> HeaderView {
    if headers.contains_key(name) {
        headers.insert(name, headers[name].push(value))
    } else {
        headers.insert(name, seq![value])
    }
}

/// Wraps `MultiMap::new`, which creates a multimap over an empty hash map.
/// Trusted: the new map holds no header.
#[verifier::external_body]
pub(crate) fn empty_headers() -> (fresh: Headers)
    ensures
        header_values(fresh) == HeaderView::empty(),
{
    MultiMap::new()
}

/// Wraps `MultiMap::clone`, which clones the inner hash map with its keys and
/// value vectors. Trusted: the copy holds the same values under the same names.
#[verifier::external_body]
pub(crate) fn clone_headers(headers: &Headers) -> (copy: Headers)
    ensures
        header_values(copy) == header_values(*headers),
{
    headers.clone()
}

/// Wraps `MultiMap::insert`, which pushes the value onto the vector kept
/// for the key, or keeps a new vector of that one value if the key had none.
/// Trusted: the map then holds the value as the last under its name, and
/// everything else as before.
#[verifier::external_body]
pub(crate) fn insert_header(headers: &mut Headers, name: String, value: Vec<u8>)
    ensures
        header_values(*final(headers)) == inserted(header_values(*old(headers)), name@, value@),
{
    headers.insert(name, value)
}

/// Wraps `MultiMap::keys`, which walks the keys of the inner hash map, and
/// copies each key. Trusted: the names of the map come out once each, in an
/// order that is not stated.
#[verifier::external_body]
pub(crate) fn header_names(headers: &Headers) -> (names: Vec<String>)
    ensures
        names.deep_view().no_duplicates(),
        names.deep_view().to_set() == header_values(*headers).dom(),
{
    headers.keys().cloned().collect()
}

/// Wraps `MultiMap::get_vec`, which looks the key up in the inner hash map.
/// Trusted: for a name of the map the result is the list of its values, and
/// for any other name there is none.
#[verifier::external_body]
pub(crate) fn header_list<'a>(headers: &'a Headers, name: &str) -> (values: Option<
    &'a Vec<Vec<u8>>,
>)
    ensures
        values is Some <==> header_values(*headers).contains_key(name@),
        values matches Some(list) ==> list.deep_view() == header_values(*headers)[name@],
{
    headers.get_vec(name)
}

} // verus!
