//! Laws of the relay, stated over the same spec functions its contracts use
//! and proved once for all inputs.

use vstd::prelude::*;
use vstd::utf8::decode_utf8;
use vstd::utf8::encode_utf8;
use vstd::utf8::encode_utf8_decode_utf8;
use vstd::utf8::encode_utf8_valid_utf8;
use vstd::utf8::valid_utf8;

use crate::forwarder::http_error_text;
use crate::request::blocked_header_name;
use crate::request::forward_headers;
use crate::response::bytes_as_chars;
use crate::response::response_headers;
use crate::response::visible_text;
use crate::text::dec_digits;

verus! {

/// No header named "origin" or "host" (in any ASCII case) survives the
/// forwarding filter.
pub proof fn lemma_blocked_headers_absent(hs: Seq<(Seq<char>, Seq<char>)>)
    ensures
        forall|i: int|
            0 <= i < forward_headers(hs).len() ==> !blocked_header_name(
                (#[trigger] forward_headers(hs)[i]).0,
            ),
    decreases hs.len(),
{
    if hs.len() > 0 {
        lemma_blocked_headers_absent(hs.drop_last());
        let rest = forward_headers(hs.drop_last());
        assert forall|i: int|
            0 <= i < forward_headers(hs).len() implies !blocked_header_name(
            (#[trigger] forward_headers(hs)[i]).0,
        ) by {
            if i < rest.len() {
                assert(forward_headers(hs)[i] == rest[i]);
            }
        }
    }
}

/// A header list with no blocked name passes through the forwarding filter
/// unchanged: identical pairs, identical order.
pub proof fn lemma_unblocked_headers_kept(hs: Seq<(Seq<char>, Seq<char>)>)
    requires
        forall|i: int| 0 <= i < hs.len() ==> !blocked_header_name((#[trigger] hs[i]).0),
    ensures
        forward_headers(hs) == hs,
    decreases hs.len(),
{
    if hs.len() == 0 {
        assert(forward_headers(hs) =~= hs);
    } else {
        assert forall|i: int|
            0 <= i < hs.drop_last().len() implies !blocked_header_name(
            (#[trigger] hs.drop_last()[i]).0,
        ) by {
            assert(hs.drop_last()[i] == hs[i]);
        }
        lemma_unblocked_headers_kept(hs.drop_last());
        assert(forward_headers(hs) =~= hs);
    }
}

/// The forwarding filter works piecewise: filtering a concatenation filters
/// each part, so every kept header keeps its place relative to the others.
pub proof fn lemma_forward_headers_concat(
    a: Seq<(Seq<char>, Seq<char>)>,
    b: Seq<(Seq<char>, Seq<char>)>,
)
    ensures
        forward_headers(a + b) == forward_headers(a) + forward_headers(b),
    decreases b.len(),
{
    if b.len() == 0 {
        assert(a + b =~= a);
        assert(forward_headers(a) + forward_headers(b) =~= forward_headers(a));
    } else {
        lemma_forward_headers_concat(a, b.drop_last());
        assert((a + b).drop_last() =~= a + b.drop_last());
        assert((a + b).last() == b.last());
        assert(forward_headers(a + b) =~= forward_headers(a) + forward_headers(b));
    }
}

/// A single forwarded header survives exactly when its name is not blocked.
pub proof fn lemma_forward_headers_single(p: (Seq<char>, Seq<char>))
    ensures
        forward_headers(seq![p]) == if blocked_header_name(p.0) {
            Seq::<(Seq<char>, Seq<char>)>::empty()
        } else {
            seq![p]
        },
{
    assert(seq![p].drop_last() =~= Seq::<(Seq<char>, Seq<char>)>::empty());
    assert(forward_headers(Seq::<(Seq<char>, Seq<char>)>::empty()) =~= Seq::<(
        Seq<char>,
        Seq<char>,
    )>::empty());
    if blocked_header_name(p.0) {
        assert(forward_headers(seq![p]) =~= Seq::<(Seq<char>, Seq<char>)>::empty());
    } else {
        assert(forward_headers(seq![p]) =~= seq![p]);
    }
}

/// Mapping response headers works piecewise as well: dropping a non-text
/// value never disturbs the headers around it.
pub proof fn lemma_response_headers_concat(
    a: Seq<(Seq<char>, Seq<u8>)>,
    b: Seq<(Seq<char>, Seq<u8>)>,
)
    ensures
        response_headers(a + b) == response_headers(a) + response_headers(b),
    decreases b.len(),
{
    if b.len() == 0 {
        assert(a + b =~= a);
        assert(response_headers(a) + response_headers(b) =~= response_headers(a));
    } else {
        lemma_response_headers_concat(a, b.drop_last());
        assert((a + b).drop_last() =~= a + b.drop_last());
        assert((a + b).last() == b.last());
        assert(response_headers(a + b) =~= response_headers(a) + response_headers(b));
    }
}

/// A single response header is kept, decoded, exactly when its value is
/// text; otherwise it vanishes without any further effect.
pub proof fn lemma_response_headers_single(p: (Seq<char>, Seq<u8>))
    ensures
        response_headers(seq![p]) == if visible_text(p.1) {
            seq![(p.0, bytes_as_chars(p.1))]
        } else {
            Seq::<(Seq<char>, Seq<char>)>::empty()
        },
{
    assert(seq![p].drop_last() =~= Seq::<(Seq<char>, Seq<u8>)>::empty());
    assert(response_headers(Seq::<(Seq<char>, Seq<u8>)>::empty()) =~= Seq::<(
        Seq<char>,
        Seq<char>,
    )>::empty());
    if visible_text(p.1) {
        assert(response_headers(seq![p]) =~= seq![(p.0, bytes_as_chars(p.1))]);
    } else {
        assert(response_headers(seq![p]) =~= Seq::<(Seq<char>, Seq<char>)>::empty());
    }
}

/// Echo round trip: a transport that sends back exactly the bytes of the
/// body text it received produces a raw body that is valid UTF-8 and
/// decodes to that text, so the mapped response body equals the sent body.
pub proof fn lemma_echo_round_trip(body: Seq<char>)
    ensures
        valid_utf8(encode_utf8(body)),
        decode_utf8(encode_utf8(body)) == body,
{
    encode_utf8_valid_utf8(body);
    encode_utf8_decode_utf8(body);
}

/// A forwarder failure text names both the status and the body: the decimal
/// digits of the status start right after "HTTP ", and the body is the tail
/// after ": ".
pub proof fn lemma_error_text_names_status_and_body(status: int, body: Seq<char>)
    requires
        0 <= status,
    ensures
        http_error_text(status, body).subrange(5, 5 + dec_digits(status).len() as int)
            == dec_digits(status),
        http_error_text(status, body).subrange(
            http_error_text(status, body).len() - body.len(),
            http_error_text(status, body).len() as int,
        ) == body,
{
    reveal_strlit("HTTP ");
    reveal_strlit(": ");
    let msg = http_error_text(status, body);
    let d = dec_digits(status);
    assert(msg.subrange(5, 5 + d.len() as int) =~= d);
    assert(msg.subrange(msg.len() - body.len(), msg.len() as int) =~= body);
}

} // verus!
