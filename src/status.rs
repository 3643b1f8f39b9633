//! Reason phrases of HTTP status codes.
use vstd::prelude::*;

verus! {

/// The standard reason phrase of a status code; empty where it has none.
pub uninterp spec fn status_reason(code: u16) -> Seq<char>;

/// Relies on `http::StatusCode::from_u16` and `http::StatusCode::canonical_reason`:
/// the registered reason phrase of the code, or the empty string for a code
/// without one or outside 100 to 999.
#[verifier::external_body]
pub(crate) fn canonical_reason(code: u16) -> (r: String)
    ensures
        r@ == status_reason(code),
{
    match actix_web::http::StatusCode::from_u16(code) {
        Ok(status) => status.canonical_reason().unwrap_or_default().to_string(),
        Err(_) => String::new(),
    }
}

} // verus!
