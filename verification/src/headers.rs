//! The request headers, as the host keeps them: a `HeaderMap` of `hyper`.
//! Only the lookup of a header's first value is needed here.

use vstd::prelude::*;

verus! {

/// The header map of `hyper`. It is read through [`header_value`] only.
#[verifier::external_type_specification]
#[verifier::external_body]
#[verifier::reject_recursive_types(T)]
pub struct ExHeaderMap<T>(hyper::HeaderMap<T>);

/// The header value of `hyper`: what a header map holds.
#[verifier::external_type_specification]
#[verifier::external_body]
pub struct ExHeaderValue(hyper::header::HeaderValue);

/// The bytes of the first value that `headers` holds under `name`, if it
/// holds one: what `HeaderMap::get` finds, as `HeaderValue::as_bytes` shows
/// it.
pub uninterp spec fn header_value(
    headers: hyper::HeaderMap<hyper::header::HeaderValue>,
    name: Seq<char>,
) -> Option<Seq<u8>>;

/// `HeaderMap::get` with a name given as text, and `HeaderValue::as_bytes` on
/// what it finds: a copy of the first value under the name, or `None` where
/// there is no value under it.
#[verifier::external_body]
pub(crate) fn first_value(
    headers: &hyper::HeaderMap<hyper::header::HeaderValue>,
    name: &str,
) -> (value: Option<Vec<u8>>)
    ensures
        match value {
            Some(bytes) => header_value(*headers, name@) == Some(bytes@),
            None => header_value(*headers, name@) is None,
        },
{
    headers.get(name).map(|found| found.as_bytes().to_vec())
}

} // verus!
