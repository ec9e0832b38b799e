//! The metadata fetcher: pick a transport kind from a URL's scheme, issue
//! one parameterless metadata request through the transport capability
//! interface, and round-trip the hex payload into bytes. Both an ordinary
//! entry point and a blocking one are offered; errors carry the offending
//! value or the underlying diagnostic.

use vstd::prelude::*;
use vstd::string::StrSliceExecFns;
use vstd::string::StringExecFns;
use vstd::utf8::is_ascii_chars;
use crate::codec::{
    HexDecodeError, hex_decode, hex_encode, is_valid_hex, spec_hex_decode, spec_hex_encode,
};
use crate::rpc::{RpcClientT, RpcError};
use crate::strutil::{spec_decimal, str_eq, u64_to_decimal};

verus! {

/// The request timeout every transport construction applies, in seconds.
pub const REQUEST_TIMEOUT_SECS: u64 = 180;

/// The most buffered notifications any one subscription may hold.
pub const MAX_BUFFERED_NOTIFICATIONS: usize = 4096;

/// The fixed, parameterless RPC method that returns the chain's metadata.
pub fn metadata_method() -> (r: &'static str)
    ensures
        r@ == "state_getMetadata"@,
{
    "state_getMetadata"
}

/// The transport kind a URL scheme selects: connectionless request/response,
/// or connection-oriented with a handshake before the first request.
#[derive(Clone, Copy, Debug, PartialEq, Eq, Structural)]
pub enum Scheme {
    Http,
    Https,
    Ws,
    Wss,
}

/// Whether position `i` holds the first colon of the text.
pub open spec fn is_first_colon(url: Seq<char>, i: int) -> bool {
    &&& 0 <= i < url.len()
    &&& url[i] == ':'
    &&& (forall|j: int| 0 <= j < i ==> url[j] != ':')
}

/// Whether the text has a scheme label: anything before a first colon.
pub open spec fn has_scheme(url: Seq<char>) -> bool {
    exists|i: int| is_first_colon(url, i)
}

/// The scheme label: the text before the first colon.
pub open spec fn spec_scheme_of(url: Seq<char>) -> Seq<char> {
    url.subrange(0, choose|i: int| is_first_colon(url, i))
}

/// The transport kind a scheme label selects, if any: the comparison is
/// literal and case-sensitive.
pub open spec fn spec_scheme_kind(s: Seq<char>) -> Option<Scheme> {
    if s == "http"@ {
        Some(Scheme::Http)
    } else if s == "https"@ {
        Some(Scheme::Https)
    } else if s == "ws"@ {
        Some(Scheme::Ws)
    } else if s == "wss"@ {
        Some(Scheme::Wss)
    } else {
        None
    }
}

/// What a URL's text determines before any I/O: the transport kind to build,
/// or the offending scheme text (a placeholder when there is none).
pub open spec fn spec_classify_url(url: Seq<char>) -> Result<Scheme, Seq<char>> {
    if has_scheme(url) {
        match spec_scheme_kind(spec_scheme_of(url)) {
            Some(kind) => Ok(kind),
            None => Err(spec_scheme_of(url)),
        }
    } else {
        Err("no scheme"@)
    }
}

/// Find the scheme label of a URL: the text before its first colon.
pub fn parse_scheme<'a>(url: &'a str) -> (r: Option<&'a str>)
    ensures
        (match r {
            Some(s) => has_scheme(url@) && s@ == spec_scheme_of(url@),
            None => !has_scheme(url@),
        }),
{
    let n = url.unicode_len();
    let mut i: usize = 0;
    while i < n
        invariant
            i <= n,
            n == url@.len(),
            forall|j: int| 0 <= j < i ==> url@[j] != ':',
        decreases n - i,
    {
        if url.get_char(i) == ':' {
            proof {
                assert(is_first_colon(url@, i as int));
                let k = choose|k: int| is_first_colon(url@, k);
                assert(!(k < i) && !(i < k));
            }
            return Some(url.substring_char(0, i));
        }
        i += 1;
    }
    proof {
        assert forall|k: int| !is_first_colon(url@, k) by {
            if 0 <= k < url@.len() {
                assert(url@[k] != ':');
            }
        }
    }
    None
}

/// The transport kind a scheme label selects, if any.
pub fn scheme_kind(s: &str) -> (r: Option<Scheme>)
    ensures
        r == spec_scheme_kind(s@),
{
    if str_eq(s, "http") {
        Some(Scheme::Http)
    } else if str_eq(s, "https") {
        Some(Scheme::Https)
    } else if str_eq(s, "ws") {
        Some(Scheme::Ws)
    } else if str_eq(s, "wss") {
        Some(Scheme::Wss)
    } else {
        None
    }
}

/// Decide what a URL selects, before any I/O: the transport kind, or the
/// offending scheme text behind an error.
pub fn classify_url(url: &str) -> (r: Result<Scheme, String>)
    ensures
        (match r {
            Ok(kind) => spec_classify_url(url@) == Ok::<Scheme, Seq<char>>(kind),
            Err(s) => spec_classify_url(url@) == Err::<Scheme, Seq<char>>(s@),
        }),
{
    match parse_scheme(url) {
        Some(scheme) => match scheme_kind(scheme) {
            Some(kind) => Ok(kind),
            None => Err(String::from_str(scheme)),
        },
        None => Err(String::from_str("no scheme")),
    }
}

/// Why fetching metadata failed: the payload would not decode, the transport
/// request failed, or the URL's scheme selects no transport at all.
#[derive(Debug)]
pub enum FetchMetadataError {
    DecodeError(HexDecodeError),
    RequestError(RpcError),
    InvalidScheme(String),
}

/// The diagnostic text for a hex decoding failure.
pub open spec fn spec_hex_error_message(e: HexDecodeError) -> Seq<char> {
    match e {
        HexDecodeError::OddLength => "Odd number of digits"@,
        HexDecodeError::InvalidHexCharacter(_, i) => "Invalid character at position "@
            + spec_decimal(i as int),
    }
}

/// The message a fetch error displays: it names the offending scheme, or
/// carries the underlying transport or decode diagnostic, verbatim.
pub open spec fn spec_fetch_error_message(e: FetchMetadataError) -> Seq<char> {
    match e {
        FetchMetadataError::DecodeError(inner) => "Cannot decode hex value: "@
            + spec_hex_error_message(inner),
        FetchMetadataError::RequestError(inner) => "Request error: "@ + inner.0@,
        FetchMetadataError::InvalidScheme(s) => "'"@ + s@
            + "' not supported, supported URI schemes are http, https, ws or wss."@,
    }
}

impl HexDecodeError {
    /// The diagnostic text for this failure.
    pub fn display_string(&self) -> (r: String)
        ensures
            r@ == spec_hex_error_message(*self),
    {
        match self {
            HexDecodeError::OddLength => String::from_str("Odd number of digits"),
            HexDecodeError::InvalidHexCharacter(_, i) => {
                let mut s = String::from_str("Invalid character at position ");
                let digits = u64_to_decimal(*i as u64);
                s.append(digits.as_str());
                s
            },
        }
    }
}

impl FetchMetadataError {
    /// The message this error displays.
    pub fn display_string(&self) -> (r: String)
        ensures
            r@ == spec_fetch_error_message(*self),
    {
        match self {
            FetchMetadataError::DecodeError(inner) => {
                let mut s = String::from_str("Cannot decode hex value: ");
                let rest = inner.display_string();
                s.append(rest.as_str());
                s
            },
            FetchMetadataError::RequestError(inner) => {
                let mut s = String::from_str("Request error: ");
                s.append(inner.0.as_str());
                s
            },
            FetchMetadataError::InvalidScheme(scheme) => {
                let mut s = String::from_str("'");
                s.append(scheme.as_str());
                s.append("' not supported, supported URI schemes are http, https, ws or wss.");
                proof {
                    assert(s@ =~= spec_fetch_error_message(*self));
                }
                s
            },
        }
    }
}

/// The metadata payload with any single leading hex-prefix marker removed;
/// anything else is untouched.
pub open spec fn spec_strip_hex_prefix(s: Seq<char>) -> Seq<char> {
    if s.len() >= 2 && s[0] == '0' && s[1] == 'x' {
        s.subrange(2, s.len() as int)
    } else {
        s
    }
}

/// Strip one leading `0x` marker, if present.
pub fn strip_hex_prefix<'a>(s: &'a str) -> (r: &'a str)
    ensures
        r@ == spec_strip_hex_prefix(s@),
{
    let n = s.unicode_len();
    if n >= 2 && s.get_char(0) == '0' && s.get_char(1) == 'x' {
        s.substring_char(2, n)
    } else {
        s
    }
}

/// Turn a fetched hex payload into bytes: strip one leading `0x` marker,
/// then decode what remains. Exactly the payloads whose remainder is valid
/// hex text decode; every other payload is a decode error, never a panic.
pub fn metadata_hex_to_bytes(hex_text: &str) -> (r: Result<Vec<u8>, FetchMetadataError>)
    ensures
        (match r {
            Ok(bytes) => is_valid_hex(spec_strip_hex_prefix(hex_text@)) && bytes@
                == spec_hex_decode(spec_strip_hex_prefix(hex_text@)),
            Err(FetchMetadataError::DecodeError(e)) => {
                &&& !is_valid_hex(spec_strip_hex_prefix(hex_text@))
                &&& (is_ascii_chars(spec_strip_hex_prefix(hex_text@)) ==> match e {
                    HexDecodeError::OddLength => spec_strip_hex_prefix(hex_text@).len() % 2 != 0,
                    HexDecodeError::InvalidHexCharacter(c, i) => {
                        &&& spec_strip_hex_prefix(hex_text@).len() % 2 == 0
                        &&& 0 <= i < spec_strip_hex_prefix(hex_text@).len()
                        &&& spec_strip_hex_prefix(hex_text@)[i as int] == c
                        &&& !crate::codec::is_hex_digit(c)
                    },
                })
            },
            _ => false,
        }),
{
    let stripped = strip_hex_prefix(hex_text);
    match hex_decode(stripped) {
        Ok(bytes) => Ok(bytes),
        Err(e) => Err(FetchMetadataError::DecodeError(e)),
    }
}

/// Law: a fetched payload decodes to exactly the direct hex decode of the
/// payload with one leading marker removed, and encoding those bytes back
/// reproduces the payload's normalized, lowercase form.
pub proof fn lemma_fetched_payload_round_trip(payload: Seq<char>)
    requires
        is_valid_hex(spec_strip_hex_prefix(payload)),
    ensures
        spec_hex_encode(spec_hex_decode(spec_strip_hex_prefix(payload)))
            == crate::codec::to_lower_hex(spec_strip_hex_prefix(payload)),
{
    crate::codec::lemma_decode_then_encode(spec_strip_hex_prefix(payload));
}

/// Encode a byte payload back into its wire form: prefixed, lowercase hex.
pub fn encode_metadata_hex(bytes: &Vec<u8>) -> (r: String)
    ensures
        r@ == "0x"@ + spec_hex_encode(bytes@),
{
    let mut s = String::from_str("0x");
    let encoded = hex_encode(bytes.as_slice());
    s.append(encoded.as_str());
    s
}

/// What the fetcher returns for each possible transport response: the raw
/// payload as it came, or the transport failure behind a request error.
pub fn metadata_response_to_hex(resp: Result<String, RpcError>) -> (r: Result<
    String,
    FetchMetadataError,
>)
    ensures
        (match resp {
            Ok(payload) => (r matches Ok(t) && t@ == payload@),
            Err(e) => (r matches Err(FetchMetadataError::RequestError(e2)) && e2.0@ == e.0@),
        }),
{
    match resp {
        Ok(payload) => Ok(payload),
        Err(e) => Err(FetchMetadataError::RequestError(e)),
    }
}

/// Fetch the raw, prefixed metadata hex text at the given URL: a URL whose
/// scheme selects no transport is rejected, with the offending scheme and
/// with no request issued; otherwise one parameterless metadata request is
/// issued and its payload returned as it came.
pub fn fetch_metadata_hex<C: RpcClientT>(client: &mut C, url: &str) -> (r: Result<
    String,
    FetchMetadataError,
>)
    ensures
        (match spec_classify_url(url@) {
            Err(s) => (r matches Err(FetchMetadataError::InvalidScheme(t)) && t@ == s) && *final(client) == *old(client),
            Ok(_) => (r matches Ok(_) || r matches Err(FetchMetadataError::RequestError(_))),
        }),
{
    match classify_url(url) {
        Err(scheme) => Err(FetchMetadataError::InvalidScheme(scheme)),
        Ok(_kind) => metadata_response_to_hex(client.request(metadata_method(), None)),
    }
}

/// Fetch the metadata at the given URL as bytes: the hex payload is fetched
/// as by `fetch_metadata_hex`, then decoded as by `metadata_hex_to_bytes`.
pub fn fetch_metadata_bytes<C: RpcClientT>(client: &mut C, url: &str) -> (r: Result<
    Vec<u8>,
    FetchMetadataError,
>)
    ensures
        (match spec_classify_url(url@) {
            Err(s) => (r matches Err(FetchMetadataError::InvalidScheme(t)) && t@ == s) && *final(client) == *old(client),
            Ok(_) => (match r {
                Ok(bytes) => exists|h: Seq<char>|
                    is_valid_hex(#[trigger] spec_strip_hex_prefix(h)) && bytes@ == spec_hex_decode(
                        spec_strip_hex_prefix(h),
                    ),
                Err(FetchMetadataError::DecodeError(_)) => true,
                Err(FetchMetadataError::RequestError(_)) => true,
                Err(FetchMetadataError::InvalidScheme(_)) => false,
            }),
        }),
{
    let hex_text = match fetch_metadata_hex(client, url) {
        Ok(h) => h,
        Err(e) => {
            return Err(e);
        },
    };
    let r = metadata_hex_to_bytes(hex_text.as_str());
    proof {
        if r is Ok {
            assert(is_valid_hex(spec_strip_hex_prefix(hex_text@)));
        }
    }
    r
}

/// Fetch the metadata at the given URL as bytes, driving the call to
/// completion on the calling thread.
pub fn fetch_metadata_bytes_blocking<C: RpcClientT>(client: &mut C, url: &str) -> (r: Result<
    Vec<u8>,
    FetchMetadataError,
>)
    ensures
        (match spec_classify_url(url@) {
            Err(s) => (r matches Err(FetchMetadataError::InvalidScheme(t)) && t@ == s) && *final(client) == *old(client),
            Ok(_) => (match r {
                Ok(bytes) => exists|h: Seq<char>|
                    is_valid_hex(#[trigger] spec_strip_hex_prefix(h)) && bytes@ == spec_hex_decode(
                        spec_strip_hex_prefix(h),
                    ),
                Err(FetchMetadataError::DecodeError(_)) => true,
                Err(FetchMetadataError::RequestError(_)) => true,
                Err(FetchMetadataError::InvalidScheme(_)) => false,
            }),
        }),
{
    fetch_metadata_bytes(client, url)
}

/// Fetch the raw, prefixed metadata hex text at the given URL, driving the
/// call to completion on the calling thread.
pub fn fetch_metadata_hex_blocking<C: RpcClientT>(client: &mut C, url: &str) -> (r: Result<
    String,
    FetchMetadataError,
>)
    ensures
        (match spec_classify_url(url@) {
            Err(s) => (r matches Err(FetchMetadataError::InvalidScheme(t)) && t@ == s) && *final(client) == *old(client),
            Ok(_) => (r matches Ok(_) || r matches Err(FetchMetadataError::RequestError(_))),
        }),
{
    fetch_metadata_hex(client, url)
}

} // verus!
