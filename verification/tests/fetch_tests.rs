use chainrpc::fetch::{
    classify_url, encode_metadata_hex, fetch_metadata_bytes, fetch_metadata_bytes_blocking,
    fetch_metadata_hex, fetch_metadata_hex_blocking, metadata_hex_to_bytes, metadata_method,
    FetchMetadataError, Scheme, MAX_BUFFERED_NOTIFICATIONS, REQUEST_TIMEOUT_SECS,
};
use chainrpc::codec::HexDecodeError;
use chainrpc::fetch::metadata_response_to_hex;
use chainrpc::rpc::RpcError;
use chainrpc::stub::StubTransport;

fn stub_with_metadata(payload: &str) -> StubTransport<u64> {
    let mut stub: StubTransport<u64> = StubTransport::new(7);
    stub.add_response(String::from("state_getMetadata"), String::from(payload));
    stub
}

#[test]
fn classify_accepts_the_four_schemes() {
    assert_eq!(classify_url("http://node:9933"), Ok(Scheme::Http));
    assert_eq!(classify_url("https://node"), Ok(Scheme::Https));
    assert_eq!(classify_url("ws://node:9944"), Ok(Scheme::Ws));
    assert_eq!(classify_url("wss://node"), Ok(Scheme::Wss));
}

#[test]
fn classify_rejects_other_schemes_with_the_exact_text() {
    assert_eq!(classify_url("ftp://node"), Err(String::from("ftp")));
    assert_eq!(classify_url("HTTP://node"), Err(String::from("HTTP")));
    assert_eq!(classify_url("://node"), Err(String::from("")));
    assert_eq!(classify_url("just-a-host"), Err(String::from("no scheme")));
}

#[test]
fn invalid_scheme_fetch_makes_no_request() {
    let mut stub = stub_with_metadata("0x1234");
    let r = fetch_metadata_hex(&mut stub, "ftp://node");
    match r {
        Err(FetchMetadataError::InvalidScheme(s)) => assert_eq!(s, "ftp"),
        other => panic!("expected an invalid-scheme error, got {:?}", other),
    }
    assert_eq!(stub.requests_made(), 0);

    let r = fetch_metadata_bytes(&mut stub, "gopher://node");
    match r {
        Err(FetchMetadataError::InvalidScheme(s)) => assert_eq!(s, "gopher"),
        other => panic!("expected an invalid-scheme error, got {:?}", other),
    }
    assert_eq!(stub.requests_made(), 0);
}

#[test]
fn missing_scheme_is_reported_with_a_placeholder() {
    let mut stub = stub_with_metadata("0x1234");
    match fetch_metadata_hex(&mut stub, "localhost") {
        Err(FetchMetadataError::InvalidScheme(s)) => assert_eq!(s, "no scheme"),
        other => panic!("expected an invalid-scheme error, got {:?}", other),
    }
    assert_eq!(stub.requests_made(), 0);
}

#[test]
fn fetch_hex_returns_the_payload_as_it_came() {
    let mut stub = stub_with_metadata("0xAbCd12");
    let r = fetch_metadata_hex(&mut stub, "http://node").unwrap();
    assert_eq!(r, "0xAbCd12");
    assert_eq!(stub.requests_made(), 1);
}

#[test]
fn fetch_bytes_decodes_like_a_direct_hex_decode() {
    let mut stub = stub_with_metadata("0xAbCd12");
    let bytes = fetch_metadata_bytes(&mut stub, "ws://node").unwrap();
    assert_eq!(bytes, hex::decode("AbCd12").unwrap());
    assert_eq!(bytes, vec![0xab, 0xcd, 0x12]);
}

#[test]
fn fetch_bytes_accepts_a_payload_without_the_prefix() {
    let mut stub = stub_with_metadata("00ff");
    let bytes = fetch_metadata_bytes(&mut stub, "https://node").unwrap();
    assert_eq!(bytes, vec![0x00, 0xff]);
}

#[test]
fn round_trip_reproduces_the_normalized_payload() {
    let mut stub = stub_with_metadata("0xAbCd12");
    let bytes = fetch_metadata_bytes(&mut stub, "wss://node").unwrap();
    assert_eq!(encode_metadata_hex(&bytes), "0xabcd12");
    assert_eq!(format!("0x{}", hex::encode(&bytes)), "0xabcd12");
}

#[test]
fn odd_length_payload_is_a_decode_error() {
    let mut stub = stub_with_metadata("0x123");
    match fetch_metadata_bytes(&mut stub, "http://node") {
        Err(FetchMetadataError::DecodeError(HexDecodeError::OddLength)) => {}
        other => panic!("expected an odd-length decode error, got {:?}", other),
    }
}

#[test]
fn non_hex_payload_is_a_decode_error_naming_the_position() {
    let mut stub = stub_with_metadata("0x12zz");
    match fetch_metadata_bytes(&mut stub, "http://node") {
        Err(FetchMetadataError::DecodeError(HexDecodeError::InvalidHexCharacter(c, i))) => {
            assert_eq!(c, 'z');
            assert_eq!(i, 2);
        }
        other => panic!("expected an invalid-character decode error, got {:?}", other),
    }
}

#[test]
fn request_failure_surfaces_as_a_request_error() {
    let mut stub: StubTransport<u64> = StubTransport::new(7);
    match fetch_metadata_bytes(&mut stub, "http://node") {
        Err(FetchMetadataError::RequestError(_)) => {}
        other => panic!("expected a request error, got {:?}", other),
    }
    assert_eq!(stub.requests_made(), 1);
}

#[test]
fn blocking_variants_agree_with_the_plain_ones() {
    let mut stub = stub_with_metadata("0x0102");
    let hex_text = fetch_metadata_hex_blocking(&mut stub, "http://node").unwrap();
    assert_eq!(hex_text, "0x0102");
    let bytes = fetch_metadata_bytes_blocking(&mut stub, "http://node").unwrap();
    assert_eq!(bytes, vec![1, 2]);
    match fetch_metadata_bytes_blocking(&mut stub, "file://x") {
        Err(FetchMetadataError::InvalidScheme(s)) => assert_eq!(s, "file"),
        other => panic!("expected an invalid-scheme error, got {:?}", other),
    }
}

#[test]
fn metadata_hex_to_bytes_strips_one_prefix_only() {
    assert_eq!(metadata_hex_to_bytes("0x0a0b").unwrap(), vec![0x0a, 0x0b]);
    match metadata_hex_to_bytes("0x0x0a") {
        Err(FetchMetadataError::DecodeError(HexDecodeError::InvalidHexCharacter(c, i))) => {
            assert_eq!(c, 'x');
            assert_eq!(i, 1);
        }
        other => panic!("expected an invalid-character decode error, got {:?}", other),
    }
}

#[test]
fn error_messages_name_the_offending_value() {
    let e = FetchMetadataError::InvalidScheme(String::from("ftp"));
    assert_eq!(
        e.display_string(),
        "'ftp' not supported, supported URI schemes are http, https, ws or wss."
    );
    let e = FetchMetadataError::DecodeError(HexDecodeError::OddLength);
    assert_eq!(e.display_string(), "Cannot decode hex value: Odd number of digits");
    let e = FetchMetadataError::DecodeError(HexDecodeError::InvalidHexCharacter('z', 12));
    assert_eq!(
        e.display_string(),
        "Cannot decode hex value: Invalid character at position 12"
    );
    let e = FetchMetadataError::RequestError(chainrpc::rpc::RpcError(String::from(
        "connection refused",
    )));
    assert_eq!(e.display_string(), "Request error: connection refused");
}

#[test]
fn transport_defaults_match_the_wire_contract() {
    assert_eq!(REQUEST_TIMEOUT_SECS, 180);
    assert_eq!(MAX_BUFFERED_NOTIFICATIONS, 4096);
    assert_eq!(metadata_method(), "state_getMetadata");
}

#[test]
fn parse_scheme_finds_the_text_before_the_first_colon() {
    assert_eq!(chainrpc::fetch::parse_scheme("ws://node:9944"), Some("ws"));
    assert_eq!(chainrpc::fetch::parse_scheme("a:b:c"), Some("a"));
    assert_eq!(chainrpc::fetch::parse_scheme("no-colon-here"), None);
    assert_eq!(chainrpc::fetch::parse_scheme(""), None);
}

#[test]
fn scheme_kind_is_literal() {
    assert_eq!(chainrpc::fetch::scheme_kind("wss"), Some(Scheme::Wss));
    assert_eq!(chainrpc::fetch::scheme_kind("Wss"), None);
    assert_eq!(chainrpc::fetch::scheme_kind(""), None);
}

#[test]
fn strip_hex_prefix_removes_one_marker() {
    assert_eq!(chainrpc::fetch::strip_hex_prefix("0xab"), "ab");
    assert_eq!(chainrpc::fetch::strip_hex_prefix("ab"), "ab");
    assert_eq!(chainrpc::fetch::strip_hex_prefix("0x"), "");
    assert_eq!(chainrpc::fetch::strip_hex_prefix("0x0xab"), "0xab");
    assert_eq!(chainrpc::fetch::strip_hex_prefix("x0ab"), "x0ab");
}

#[test]
fn response_mapping_keeps_payload_and_wraps_failure() {
    assert_eq!(
        metadata_response_to_hex(Ok(String::from("0x00"))).unwrap(),
        "0x00"
    );
    match metadata_response_to_hex(Err(RpcError(String::from("timed out")))) {
        Err(FetchMetadataError::RequestError(e)) => assert_eq!(e.0, "timed out"),
        other => panic!("expected a request error, got {:?}", other),
    }
}

#[test]
fn encode_metadata_hex_is_prefixed_lowercase() {
    assert_eq!(encode_metadata_hex(&vec![]), "0x");
    assert_eq!(encode_metadata_hex(&vec![0x00, 0xff, 0x1a]), "0x00ff1a");
}
