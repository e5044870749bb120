use http_relay::diag::test_echo;
use http_relay::diag::test_proxy;
use http_relay::forwarder::build_fixed_request;
use http_relay::forwarder::classify_outcome;
use http_relay::request::prepare_request;
use http_relay::request::ProxyRequest;
use http_relay::response::map_response;
use http_relay::response::RawResponse;

fn req(method: &str, headers: Vec<(String, String)>, body: Option<String>) -> ProxyRequest {
    ProxyRequest {
        url: "http://example.test/api".to_string(),
        method: method.to_string(),
        headers,
        body,
    }
}

fn pair(a: &str, b: &str) -> (String, String) {
    (a.to_string(), b.to_string())
}

#[test]
fn unsupported_method_is_rejected_before_any_dispatch() {
    let r = prepare_request(req("BREW", vec![], None));
    assert_eq!(r.err().unwrap(), "Unsupported HTTP method: BREW");
    let r = prepare_request(req("get", vec![], None));
    assert_eq!(r.err().unwrap(), "Unsupported HTTP method: get");
    let r = prepare_request(req("", vec![], None));
    assert!(r.is_err());
}

#[test]
fn supported_methods_pass_through() {
    for m in ["GET", "POST", "PUT", "DELETE", "PATCH"] {
        let call = prepare_request(req(m, vec![pair("X-A", "1")], None)).unwrap();
        assert_eq!(call.method, m);
        assert_eq!(call.url, "http://example.test/api");
        assert_eq!(call.headers, vec![pair("X-A", "1")]);
    }
}

#[test]
fn origin_and_host_headers_are_dropped_in_any_case() {
    let headers = vec![
        pair("Origin", "a"),
        pair("origin", "b"),
        pair("ORIGIN", "c"),
        pair("Host", "d"),
        pair("host", "e"),
        pair("hOsT", "f"),
        pair("X-Custom", "keep1"),
        pair("Content-Type", "keep2"),
        pair("X-Custom", "keep3"),
    ];
    let call = prepare_request(req("GET", headers, None)).unwrap();
    assert_eq!(
        call.headers,
        vec![pair("X-Custom", "keep1"), pair("Content-Type", "keep2"), pair("X-Custom", "keep3")]
    );
}

#[test]
fn near_miss_names_are_kept() {
    let headers = vec![
        pair("Originator", "x"),
        pair("hosting", "y"),
        pair("or1gin", "z"),
        pair("\u{d6}rigin", "w"),
    ];
    let call = prepare_request(req("GET", headers, None)).unwrap();
    assert_eq!(call.headers.len(), 4);
}

#[test]
fn absent_body_and_empty_body_stay_distinguishable() {
    let none = prepare_request(req("POST", vec![], None)).unwrap();
    assert!(none.body.is_none());
    let empty = prepare_request(req("POST", vec![], Some(String::new()))).unwrap();
    assert_eq!(empty.body, Some(String::new()));
    assert_ne!(none.body, empty.body);
    let full = prepare_request(req("POST", vec![], Some("x".to_string()))).unwrap();
    assert_eq!(full.body, Some("x".to_string()));
}

#[test]
fn echo_round_trip_preserves_status_and_body() {
    let call = prepare_request(
        req("POST", vec![pair("X-A", "1")], Some("hello relay".to_string())),
    ).unwrap();
    let echoed_body = call.body.clone().unwrap().into_bytes();
    let echoed_headers: Vec<(String, Vec<u8>)> = call
        .headers
        .iter()
        .map(|(n, v)| (n.clone(), v.clone().into_bytes()))
        .collect();
    let resp = map_response(RawResponse {
        status: 207,
        headers: echoed_headers,
        body: echoed_body,
    }).unwrap();
    assert_eq!(resp.status, 207);
    assert_eq!(resp.body, "hello relay");
    assert_eq!(resp.headers, vec![pair("X-A", "1")]);
}

#[test]
fn invalid_header_values_are_dropped_without_failing() {
    let raw = RawResponse {
        status: 200,
        headers: vec![
            ("Good".to_string(), b"fine value".to_vec()),
            ("Bad".to_string(), vec![0xff, 0xfe]),
            ("Ctl".to_string(), vec![0x01]),
            ("Del".to_string(), vec![127]),
            ("Tab".to_string(), vec![9, b'x']),
        ],
        body: b"ok".to_vec(),
    };
    let resp = map_response(raw).unwrap();
    assert_eq!(resp.headers, vec![pair("Good", "fine value"), pair("Tab", "\tx")]);
    assert_eq!(resp.body, "ok");
}

#[test]
fn invalid_body_fails_the_whole_call() {
    let raw = RawResponse { status: 200, headers: vec![], body: vec![0xff, 0x00] };
    let e = map_response(raw).err().unwrap();
    assert_eq!(e, "Failed to read response body: not valid UTF-8 text");
}

#[test]
fn multibyte_body_round_trips() {
    let text = "h\u{e9}llo \u{2603}";
    let raw = RawResponse { status: 204, headers: vec![], body: text.as_bytes().to_vec() };
    let resp = map_response(raw).unwrap();
    assert_eq!(resp.status, 204);
    assert_eq!(resp.body, text);
}

#[test]
fn forwarder_status_boundaries() {
    assert!(classify_outcome(199, "b".to_string()).is_err());
    assert_eq!(classify_outcome(200, "b".to_string()).unwrap(), "b");
    assert_eq!(classify_outcome(299, "b".to_string()).unwrap(), "b");
    assert!(classify_outcome(300, "b".to_string()).is_err());
}

#[test]
fn forwarder_error_names_status_and_body() {
    let e = classify_outcome(404, "not found".to_string()).err().unwrap();
    assert_eq!(e, "HTTP 404: not found");
    assert!(e.contains("404"));
    assert!(e.contains("not found"));
    let e = classify_outcome(500, String::new()).err().unwrap();
    assert_eq!(e, "HTTP 500: ");
    let e = classify_outcome(0, "zero".to_string()).err().unwrap();
    assert_eq!(e, "HTTP 0: zero");
}

#[test]
fn fixed_request_shape() {
    let r = build_fixed_request("https://api.test/x".to_string(), "{\"a\":1}".to_string());
    assert_eq!(r.url, "https://api.test/x");
    assert_eq!(r.method, "POST");
    assert_eq!(
        r.headers,
        vec![pair("Content-Type", "application/json"), pair("Accept", "application/json")]
    );
    assert_eq!(r.body, Some("{\"a\":1}".to_string()));
}

#[test]
fn fixed_request_relays_and_classifies() {
    let r = build_fixed_request("http://example.test/api".to_string(), "{}".to_string());
    let call = prepare_request(r).unwrap();
    assert_eq!(call.method, "POST");
    assert_eq!(call.body, Some("{}".to_string()));
    let resp = map_response(RawResponse {
        status: 201,
        headers: vec![],
        body: call.body.unwrap().into_bytes(),
    }).unwrap();
    assert_eq!(classify_outcome(resp.status, resp.body).unwrap(), "{}");
}

#[test]
fn diagnostics_answer() {
    assert_eq!(test_proxy().unwrap(), "Proxy is working!");
    assert_eq!(test_echo("ping".to_string()), "Echo: ping");
    assert_eq!(test_echo(String::new()), "Echo: ");
}
