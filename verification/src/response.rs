//! The return side of the relay: the raw wire response handed back by the
//! host application's transport, and its mapping into the structured
//! response (header-value text check and UTF-8 body decoding).

use vstd::prelude::*;
use vstd::string::StringExecFns;
use vstd::utf8::decode_utf8;
use vstd::utf8::encode_utf8;
use vstd::utf8::encode_utf8_decode_utf8;
use vstd::utf8::encode_utf8_valid_utf8;
use vstd::utf8::is_ascii_chars;
use vstd::utf8::is_ascii_chars_encode_utf8;
use vstd::utf8::valid_utf8;

verus! {

/// The raw response as read from the wire: the status code, each header as
/// its name and uninterpreted value bytes, and the body bytes.
pub struct RawResponse {
    pub status: u16,
    pub headers: Vec<(String, Vec<u8>)>,
    pub body: Vec<u8>,
}

/// Mathematical model of a raw response.
#[verifier::ext_equal]
pub struct RawModel {
    pub status: u16,
    pub headers: Seq<(Seq<char>, Seq<u8>)>,
    pub body: Seq<u8>,
}

impl View for RawResponse {
    type V = RawModel;

    open spec fn view(&self) -> RawModel {
        RawModel {
            status: self.status,
            headers: self.headers.deep_view(),
            body: self.body.deep_view(),
        }
    }
}

/// The structured response returned to the host application.
pub struct ProxyResponse {
    pub status: u16,
    /// Ordered name/value pairs as received, minus values that are not text.
    pub headers: Vec<(String, String)>,
    pub body: String,
}

/// Mathematical model of a structured response.
#[verifier::ext_equal]
pub struct RespModel {
    pub status: u16,
    pub headers: Seq<(Seq<char>, Seq<char>)>,
    pub body: Seq<char>,
}

impl View for ProxyResponse {
    type V = RespModel;

    open spec fn view(&self) -> RespModel {
        RespModel {
            status: self.status,
            headers: self.headers.deep_view(),
            body: self.body@,
        }
    }
}

/// A byte that may appear in a text header value: visible ASCII, space or
/// horizontal tab.
pub open spec fn visible_byte(b: u8) -> bool {
    (32 <= b && b <= 126) || b == 9
}

/// A header value is text when every byte of it is.
pub open spec fn visible_text(bytes: Seq<u8>) -> bool {
    forall|i: int| 0 <= i < bytes.len() ==> visible_byte(#[trigger] bytes[i])
}

/// The characters of a sequence of ASCII bytes, one per byte.
pub open spec fn bytes_as_chars(bytes: Seq<u8>) -> Seq<char> {
    bytes.map_values(|b: u8| b as char)
}

/// The headers kept in the structured response: every pair whose value is
/// text, in order, with the value decoded; pairs with non-text values are
/// dropped.
pub open spec fn response_headers(hs: Seq<(Seq<char>, Seq<u8>)>) -> Seq<(Seq<char>, Seq<char>)>
    decreases hs.len(),
{
    if hs.len() == 0 {
        Seq::empty()
    } else {
        let rest = response_headers(hs.drop_last());
        if visible_text(hs.last().1) {
            rest.push((hs.last().0, bytes_as_chars(hs.last().1)))
        } else {
            rest
        }
    }
}

/// The error text returned when the response body is not valid UTF-8.
pub open spec fn body_error_text() -> Seq<char> {
    "Failed to read response body: not valid UTF-8 text"@
}

/// A sequence of bytes below 128 is valid UTF-8 and decodes to one
/// character per byte.
pub proof fn lemma_ascii_bytes_decode(bytes: Seq<u8>)
    requires
        forall|i: int| 0 <= i < bytes.len() ==> #[trigger] bytes[i] < 128,
    ensures
        valid_utf8(bytes),
        decode_utf8(bytes) == bytes_as_chars(bytes),
{
    let chars = bytes_as_chars(bytes);
    assert forall|i: int| 0 <= i < chars.len() implies '\0' <= #[trigger] chars[i]
        <= '\u{7f}' by {
        assert(bytes[i] < 128);
        assert(chars[i] == bytes[i] as char);
    }
    assert(is_ascii_chars(chars));
    is_ascii_chars_encode_utf8(chars);
    assert(encode_utf8(chars) =~= bytes);
    encode_utf8_valid_utf8(chars);
    encode_utf8_decode_utf8(chars);
}

/// Decodes a header value: the text it spells when every byte is visible
/// ASCII, space or tab, and nothing otherwise.
pub fn header_value_text(bytes: &Vec<u8>) -> (r: Option<String>)
    ensures
        r is Some <==> visible_text(bytes@),
        r matches Some(s) ==> s@ == bytes_as_chars(bytes@),
{
    let n = bytes.len();
    let mut i: usize = 0;
    while i < n
        invariant
            0 <= i <= n,
            n == bytes@.len(),
            forall|j: int| 0 <= j < i ==> visible_byte(#[trigger] bytes@[j]),
        decreases n - i,
    {
        let b = bytes[i];
        if !((32 <= b && b <= 126) || b == 9) {
            assert(!visible_byte(bytes@[i as int]));
            return None;
        }
        i = i + 1;
    }
    proof {
        assert(visible_text(bytes@));
        assert(forall|j: int| 0 <= j < bytes@.len() ==> #[trigger] bytes@[j] < 128);
        lemma_ascii_bytes_decode(bytes@);
    }
    match crate::text::utf8_decode(bytes.as_slice()) {
        Some(s) => Some(s.to_owned()),
        None => {
            proof {
                assert(false);
            }
            None
        },
    }
}

/// Maps the raw wire response into the structured response.
///
/// The status is copied; every header whose value is text is kept, in
/// order, and every other header is silently dropped; the body must be
/// valid UTF-8, else the whole call fails with a descriptive error.
pub fn map_response(raw: RawResponse) -> (r: Result<ProxyResponse, String>)
    ensures
        r is Ok <==> valid_utf8(raw@.body),
        r matches Ok(resp) ==> resp@.status == raw@.status && resp@.headers == response_headers(
            raw@.headers,
        ) && resp@.body == decode_utf8(raw@.body),
        r matches Err(e) ==> e@ == body_error_text(),
{
    let RawResponse { status, headers, body } = raw;
    proof {
        assert(raw@.body =~= body@);
    }
    let body_text: String = match crate::text::utf8_decode(body.as_slice()) {
        Some(s) => s.to_owned(),
        None => {
            return Err(String::from_str("Failed to read response body: not valid UTF-8 text"));
        },
    };
    let ghost hdv = headers.deep_view();
    let mut kept: Vec<(String, String)> = Vec::new();
    let n = headers.len();
    let mut i: usize = 0;
    while i < n
        invariant
            0 <= i <= n,
            n == headers.len(),
            hdv == headers.deep_view(),
            kept.deep_view() == response_headers(hdv.take(i as int)),
        decreases n - i,
    {
        match header_value_text(&headers[i].1) {
            Some(text) => {
                let name = headers[i].0.clone();
                kept.push((name, text));
            },
            None => {},
        }
        proof {
            assert(hdv.take(i as int + 1).drop_last() =~= hdv.take(i as int));
            assert(hdv.take(i as int + 1).last() == hdv[i as int]);
            assert(hdv[i as int].1 =~= headers@[i as int].1@);
            assert(kept.deep_view() =~= response_headers(hdv.take(i as int + 1)));
        }
        i = i + 1;
    }
    proof {
        assert(hdv.take(n as int) =~= hdv);
    }
    Ok(ProxyResponse { status, headers: kept, body: body_text })
}

} // verus!
