//! The fixed-API forwarder: it builds a POST request with two fixed JSON
//! headers, and classifies the relayed outcome by the HTTP status range.

use vstd::prelude::*;
use vstd::string::StringExecFns;

use crate::request::ProxyRequest;
use crate::text::dec_digits;

verus! {

/// The two headers every fixed-API request carries.
pub open spec fn fixed_headers() -> Seq<(Seq<char>, Seq<char>)> {
    seq![("Content-Type"@, "application/json"@), ("Accept"@, "application/json"@)]
}

/// Builds the request the fixed-API forwarder sends: method POST, exactly
/// the two fixed headers, and the given body.
pub fn build_fixed_request(url: String, body: String) -> (r: ProxyRequest)
    ensures
        r@.url == url@,
        r@.method == "POST"@,
        r@.headers == fixed_headers(),
        r@.body == Some(body@),
{
    let mut headers: Vec<(String, String)> = Vec::new();
    headers.push((String::from_str("Content-Type"), String::from_str("application/json")));
    headers.push((String::from_str("Accept"), String::from_str("application/json")));
    let r = ProxyRequest { url, method: String::from_str("POST"), headers, body: Some(body) };
    proof {
        assert(r@.headers =~~= fixed_headers());
    }
    r
}

/// A relayed status counts as success exactly when it lies in [200, 300).
pub open spec fn forwarder_success(status: int) -> bool {
    200 <= status < 300
}

/// The failure text for a non-success status and the body that came with it.
pub open spec fn http_error_text(status: int, body: Seq<char>) -> Seq<char> {
    "HTTP "@ + dec_digits(status) + ": "@ + body
}

/// Classifies a relayed response: the body itself on a status in [200, 300),
/// and otherwise a failure text naming the status and the body.
pub fn classify_outcome(status: u16, body: String) -> (r: Result<String, String>)
    ensures
        r is Ok <==> forwarder_success(status as int),
        r matches Ok(b) ==> b@ == body@,
        r matches Err(e) ==> e@ == http_error_text(status as int, body@),
{
    if 200 <= status && status < 300 {
        Ok(body)
    } else {
        let mut msg = String::from_str("HTTP ");
        let digits = crate::text::u16_digits(status);
        msg.append(digits.as_str());
        msg.append(": ");
        msg.append(body.as_str());
        Err(msg)
    }
}

} // verus!
