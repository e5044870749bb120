//! The inbound side of the relay: the structured request handed in by the
//! host application, and its translation into an outbound call (method
//! validation and header filtering).

use vstd::prelude::*;
use vstd::string::StringExecFns;

use crate::text::name_matches_ci;

verus! {

/// A request description received from the host application's front end.
pub struct ProxyRequest {
    pub url: String,
    pub method: String,
    /// Ordered name/value pairs; duplicates are permitted and order matters.
    pub headers: Vec<(String, String)>,
    /// `None` means no body is sent at all, which differs from `Some("")`.
    pub body: Option<String>,
}

/// Mathematical model of a request: every field as plain sequences.
#[verifier::ext_equal]
pub struct ReqModel {
    pub url: Seq<char>,
    pub method: Seq<char>,
    pub headers: Seq<(Seq<char>, Seq<char>)>,
    pub body: Option<Seq<char>>,
}

impl View for ProxyRequest {
    type V = ReqModel;

    open spec fn view(&self) -> ReqModel {
        ReqModel {
            url: self.url@,
            method: self.method@,
            headers: self.headers.deep_view(),
            body: self.body.deep_view(),
        }
    }
}

/// The outbound call the host application is asked to dispatch: a validated
/// method, the forwarded headers, and the body exactly as given.
pub struct OutboundCall {
    pub url: String,
    pub method: String,
    pub headers: Vec<(String, String)>,
    pub body: Option<String>,
}

/// Mathematical model of an outbound call.
#[verifier::ext_equal]
pub struct CallModel {
    pub url: Seq<char>,
    pub method: Seq<char>,
    pub headers: Seq<(Seq<char>, Seq<char>)>,
    pub body: Option<Seq<char>>,
}

impl View for OutboundCall {
    type V = CallModel;

    open spec fn view(&self) -> CallModel {
        CallModel {
            url: self.url@,
            method: self.method@,
            headers: self.headers.deep_view(),
            body: self.body.deep_view(),
        }
    }
}

/// A header name is blocked when, ignoring ASCII case, it is "origin" or
/// "host": the transport computes those itself, so a caller-supplied value
/// is dropped.
pub open spec fn blocked_header_name(n: Seq<char>) -> bool {
    name_matches_ci(n, "origin"@) || name_matches_ci(n, "host"@)
}

/// Decides whether a header name is blocked.
pub fn header_blocked(n: &str) -> (r: bool)
    ensures
        r == blocked_header_name(n@),
{
    crate::text::str_matches_ci(n, "origin") || crate::text::str_matches_ci(n, "host")
}

/// The headers that are forwarded: the input pairs with every blocked name
/// removed, all else kept in order, duplicates included.
pub open spec fn forward_headers(hs: Seq<(Seq<char>, Seq<char>)>) -> Seq<(Seq<char>, Seq<char>)>
    decreases hs.len(),
{
    if hs.len() == 0 {
        Seq::empty()
    } else {
        let rest = forward_headers(hs.drop_last());
        if blocked_header_name(hs.last().0) {
            rest
        } else {
            rest.push(hs.last())
        }
    }
}

/// The error text for a method outside the supported set.
pub open spec fn unsupported_method_text(m: Seq<char>) -> Seq<char> {
    "Unsupported HTTP method: "@ + m
}

/// Translates a request into the outbound call to dispatch.
///
/// The method must be one of the five supported tokens, case-sensitively;
/// any other token is rejected before any network activity.  Headers named
/// "origin" or "host" (ignoring ASCII case) are dropped; all other headers
/// are forwarded unchanged and in order.  The body is passed through
/// exactly: an absent body stays absent, an empty body stays empty.
pub fn prepare_request(request: ProxyRequest) -> (r: Result<OutboundCall, String>)
    ensures
        r is Ok <==> crate::method_supported(request@.method),
        r matches Ok(c) ==> c@.url == request@.url && c@.method == request@.method
            && c@.headers == forward_headers(request@.headers) && c@.body == request@.body,
        r matches Err(e) ==> e@ == unsupported_method_text(request@.method),
{
    let ProxyRequest { url, method, headers, body } = request;
    if !crate::method_ok(method.as_str()) {
        let mut msg = String::from_str("Unsupported HTTP method: ");
        msg.append(method.as_str());
        return Err(msg);
    }
    let ghost hdv = headers.deep_view();
    let mut kept: Vec<(String, String)> = Vec::new();
    let n = headers.len();
    let mut i: usize = 0;
    while i < n
        invariant
            0 <= i <= n,
            n == headers.len(),
            hdv == headers.deep_view(),
            kept.deep_view() == forward_headers(hdv.take(i as int)),
        decreases n - i,
    {
        let blocked = header_blocked(headers[i].0.as_str());
        if !blocked {
            let name = headers[i].0.clone();
            let value = headers[i].1.clone();
            kept.push((name, value));
        }
        proof {
            assert(hdv.take(i as int + 1).drop_last() =~= hdv.take(i as int));
            assert(hdv.take(i as int + 1).last() == hdv[i as int]);
            assert(kept.deep_view() =~= forward_headers(hdv.take(i as int + 1)));
        }
        i = i + 1;
    }
    proof {
        assert(hdv.take(n as int) =~= hdv);
    }
    Ok(OutboundCall { url, method, headers: kept, body })
}

} // verus!
