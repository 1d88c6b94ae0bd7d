//! The HTTP endpoints of the service, as functions from a request to a response.

use actix_web::HttpRequest;
use vstd::prelude::*;
use vstd::string::StringSliceAdditionalSpecFns;
use vstd::utf8::encode_utf8;

pub mod guarantees;
pub mod health_check;
pub mod imaging;
pub mod response;
pub mod webp_convert;

verus! {

/// Largest request body, in bytes, that the conversion endpoints accept (20 MiB).
pub const MAX_SIZE_BYTES_20MB: usize = 20971520;

/// Name of the request header that carries the API key.
pub const API_KEY_HEADER: &'static str = "x-api-key";

/// What every request handler is given: the API key that clients must present.
pub struct WebserverData {
    pub apikey: String,
}

/// `actix_web::HttpRequest`, a request as the framework hands it over. Only
/// its headers are spoken of, by name.
#[verifier::external_type_specification]
#[verifier::external_body]
pub struct ExHttpRequest(actix_web::HttpRequest);

/// The bytes of the first value that a request holds for the header `name`,
/// looked up without regard to the case of the name's letters, as
/// `HeaderMap::get` finds it; `None` where the request has no such header.
pub uninterp spec fn header_value(request: HttpRequest, name: Seq<char>) -> Option<Seq<u8>>;

/// `HttpRequest::headers` and `HeaderMap::get`, with the value found copied
/// out as bytes: the result is what `header_value` names. A name that is no
/// valid header name finds nothing.
#[verifier::external_body]
pub(crate) fn lookup_header(request: &HttpRequest, name: &str) -> (value: Option<Vec<u8>>)
    ensures
        match value {
            Some(bytes) => header_value(*request, name@) == Some(bytes@),
            None => header_value(*request, name@) is None,
        },
{
    request.headers().get(name).map(|value| value.as_bytes().to_vec())
}

/// Whether a request that holds `presented` as its API-key header is let in
/// under `apikey`: the header is there, and its bytes are those of the key.
pub open spec fn key_matches(apikey: Seq<u8>, presented: Option<Seq<u8>>) -> bool {
    presented == Some(apikey)
}

/// Whether `request` presents `apikey` in its API-key header.
pub open spec fn authorized(apikey: Seq<char>, request: HttpRequest) -> bool {
    key_matches(encode_utf8(apikey), header_value(request, API_KEY_HEADER@))
}

/// Compares two byte strings.
pub fn bytes_equal(left: &[u8], right: &[u8]) -> (equal: bool)
    ensures
        equal == (left@ == right@),
{
    if left.len() != right.len() {
        return false;
    }
    let mut index: usize = 0;
    while index < left.len()
        invariant
            left@.len() == right@.len(),
            index <= left@.len(),
            forall|i: int| 0 <= i < index ==> left@[i] == right@[i],
        decreases left@.len() - index,
    {
        if left[index] != right[index] {
            return false;
        }
        index += 1;
    }
    assert(left@ =~= right@);
    true
}

/// Decides whether the value found for the API-key header, if any, lets a
/// request in under `apikey`.
pub fn check_presented_key(apikey: &str, presented: Option<&[u8]>) -> (allowed: bool)
    ensures
        allowed == key_matches(
            apikey.spec_bytes(),
            match presented {
                Some(bytes) => Some(bytes@),
                None => None,
            },
        ),
{
    match presented {
        Some(bytes) => bytes_equal(bytes, apikey.as_bytes()),
        None => false,
    }
}

/// Checks the API key of a request: true exactly when the request has an
/// `x-api-key` header whose first value is, byte for byte, `apikey`.
pub fn check_apikey(apikey: &str, request: &HttpRequest) -> (allowed: bool)
    ensures
        allowed == authorized(apikey@, *request),
{
    match lookup_header(request, API_KEY_HEADER) {
        Some(bytes) => check_presented_key(apikey, Some(bytes.as_slice())),
        None => check_presented_key(apikey, None),
    }
}

} // verus!
