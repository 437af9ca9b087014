//! The transport adapter: which headers travel with a request, and which kind
//! of byte source a record calls for.

use vstd::prelude::*;
use vstd::utf8::encode_utf8;

use crate::record::{StreamSource, TransportKind};

verus! {

broadcast use vstd::seq_lib::group_seq_properties;

/// The HTTP client shared by every resolution; carried, never inspected.
#[verifier::external_type_specification]
#[verifier::external_body]
pub struct ExClient(reqwest::Client);

/// Relies on `reqwest::Client`'s derived `Clone`. Its one field is an `Arc` of
/// the client's state, and cloning an `Arc` points at the same state, so the
/// copy is a handle on the same client.
pub assume_specification[ <reqwest::Client as Clone>::clone ](c: &reqwest::Client) -> (r: reqwest::Client)
    ensures
        r == *c,
;

/// The longest header name, in bytes, that HTTP header maps take.
pub const MAX_HEADER_NAME_LEN: usize = 65535;

/// A byte allowed in a header name: a token character.
pub open spec fn is_token_byte(b: u8) -> bool {
    ||| 48 <= b <= 57
    ||| 65 <= b <= 90
    ||| 97 <= b <= 122
    ||| b == 33 || b == 35 || b == 36 || b == 37 || b == 38 || b == 39
    ||| b == 42 || b == 43 || b == 45 || b == 46
    ||| b == 94 || b == 95 || b == 96 || b == 124 || b == 126
}

/// A well-formed header name: 1 to 65535 token bytes.
pub open spec fn valid_header_name(bytes: Seq<u8>) -> bool {
    &&& 1 <= bytes.len() <= MAX_HEADER_NAME_LEN
    &&& forall|i: int| 0 <= i < bytes.len() ==> is_token_byte(#[trigger] bytes[i])
}

/// A byte allowed in a header value: a tab, or any byte from 32 on but 127.
pub open spec fn is_value_byte(b: u8) -> bool {
    (b >= 32 && b != 127) || b == 9
}

/// A well-formed header value.
pub open spec fn valid_header_value(bytes: Seq<u8>) -> bool {
    forall|i: int| 0 <= i < bytes.len() ==> is_value_byte(#[trigger] bytes[i])
}

/// Whether a header pair is kept: both its name and its value are well-formed.
pub open spec fn header_kept(h: (String, String)) -> bool {
    valid_header_name(encode_utf8(h.0@)) && valid_header_value(encode_utf8(h.1@))
}

/// The header pairs that are kept, in order.
pub open spec fn kept_headers(hs: Seq<(String, String)>) -> Seq<(String, String)> {
    hs.filter(|h: (String, String)| header_kept(h))
}

/// Relies on `reqwest::header::HeaderName::from_bytes`, which accepts 1 to
/// 65535 bytes that all map to token characters, and refuses anything else.
#[verifier::external_body]
fn header_name_ok(name: &str) -> (r: bool)
    ensures
        r == valid_header_name(encode_utf8(name@)),
{
    reqwest::header::HeaderName::from_bytes(name.as_bytes()).is_ok()
}

/// Relies on `reqwest::header::HeaderValue::from_str`, which accepts exactly
/// the strings whose bytes are all tabs or at least 32 and not 127.
#[verifier::external_body]
fn header_value_ok(value: &str) -> (r: bool)
    ensures
        r == valid_header_value(encode_utf8(value@)),
{
    reqwest::header::HeaderValue::from_str(value).is_ok()
}

/// What the playback side needs to open one byte stream.
#[derive(Debug)]
pub struct StreamPlan {
    pub transport: TransportKind,
    pub url: String,
    /// The headers to send, malformed ones dropped.
    pub headers: Vec<(String, String)>,
    /// The known length, passed on only to a direct HTTP source.
    pub content_length: Option<u64>,
}

/// Keeps the well-formed header pairs, in order; malformed ones are dropped.
pub fn filter_headers(headers: &Vec<(String, String)>) -> (r: Vec<(String, String)>)
    ensures
        r@ == kept_headers(headers@),
{
    let mut out: Vec<(String, String)> = Vec::new();
    let n = headers.len();
    proof {
        assert(headers@.take(0) =~= Seq::<(String, String)>::empty());
        assert(kept_headers(Seq::<(String, String)>::empty()) =~= Seq::<(String, String)>::empty());
    }
    for i in 0..n
        invariant
            n == headers@.len(),
            out@ == kept_headers(headers@.take(i as int)),
    {
        let h = &headers[i];
        proof {
            assert(headers@.take(i + 1) =~= headers@.take(i as int).push(headers@[i as int]));
            headers@.take(i as int).lemma_filter_push(
                headers@[i as int],
                |h: (String, String)| header_kept(h),
            );
        }
        if header_name_ok(h.0.as_str()) && header_value_ok(h.1.as_str()) {
            out.push((h.0.clone(), h.1.clone()));
            proof {
                assert(out@.last() == headers@[i as int]);
            }
        }
    }
    proof {
        assert(headers@.take(n as int) =~= headers@);
    }
    out
}

/// Whether `p` plans the stream of `src`: same transport and URL, the
/// well-formed headers, and the known length for a direct HTTP source only.
pub open spec fn plans(p: StreamPlan, src: StreamSource) -> bool {
    &&& p.transport == src.transport
    &&& p.url == src.url
    &&& p.headers@ == kept_headers(src.headers@)
    &&& p.content_length == (match src.transport {
        TransportKind::DirectHttp => src.byte_size,
        TransportKind::SegmentedManifest => None,
    })
}

/// Plans the byte stream of a decoded record: a segmented manifest at the
/// record's URL, or a direct HTTP source that also gets the known length.
pub fn plan_stream(source: &StreamSource) -> (p: StreamPlan)
    ensures
        plans(p, *source),
{
    let headers = filter_headers(&source.headers);
    match source.transport {
        TransportKind::SegmentedManifest => StreamPlan {
            transport: TransportKind::SegmentedManifest,
            url: source.url.clone(),
            headers,
            content_length: None,
        },
        TransportKind::DirectHttp => StreamPlan {
            transport: TransportKind::DirectHttp,
            url: source.url.clone(),
            headers,
            content_length: source.byte_size,
        },
    }
}

} // verus!
