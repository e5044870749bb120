//! A minimal HTTP relay: it turns a structured request description into an
//! outbound call (validating the method and filtering a small set of
//! disallowed headers), and turns the raw wire response back into a
//! structured result.  The network dispatch itself is left to the host
//! application; everything decided here is stated in contracts and proved.

use vstd::prelude::*;

pub mod diag;
pub mod forwarder;
pub mod laws;
pub mod request;
pub mod response;
pub mod text;

verus! {

/// The five supported HTTP method tokens, matched case-sensitively.
pub open spec fn method_supported(m: Seq<char>) -> bool {
    m == "GET"@ || m == "POST"@ || m == "PUT"@ || m == "DELETE"@ || m == "PATCH"@
}

/// Decides whether `m` is one of the supported method tokens.
pub fn method_ok(m: &str) -> (r: bool)
    ensures
        r == method_supported(m@),
{
    crate::text::str_eq(m, "GET") || crate::text::str_eq(m, "POST") || crate::text::str_eq(
        m,
        "PUT",
    ) || crate::text::str_eq(m, "DELETE") || crate::text::str_eq(m, "PATCH")
}

} // verus!
