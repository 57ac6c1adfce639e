use basin_gateway::address::{
    canonical_text, normalize_address, normalize_address_bytes, normalize_key, Address,
};
use basin_gateway::errors::{error_response, GatewayError};
use basin_gateway::listing::{normalize_list_query, ListRequest};

fn expect_evm(r: Result<Address, GatewayError>) -> Vec<u8> {
    match r {
        Ok(Address::Evm { bytes }) => bytes,
        other => panic!("expected an EVM address, got {:?}", other.is_ok()),
    }
}

fn expect_actor(r: Result<Address, GatewayError>) -> (u64, bool) {
    match r {
        Ok(Address::Actor { id, testnet }) => (id, testnet),
        other => panic!("expected an actor address, got {:?}", other.is_ok()),
    }
}

#[test]
fn evm_address_parses() {
    let bytes = expect_evm(normalize_address(
        "0x00112233445566778899aabbccddeeff00112233",
    ));
    assert_eq!(bytes.len(), 20);
    assert_eq!(bytes[0], 0x00);
    assert_eq!(bytes[1], 0x11);
    assert_eq!(bytes[10], 0xaa);
    assert_eq!(bytes[19], 0x33);
}

#[test]
fn evm_address_case_insensitive() {
    let lower = expect_evm(normalize_address(
        "0xabcdefabcdefabcdefabcdefabcdefabcdefabcd",
    ));
    let upper = expect_evm(normalize_address(
        "0xABCDEFABCDEFABCDEFABCDEFABCDEFABCDEFABCD",
    ));
    assert_eq!(lower, upper);
}

#[test]
fn actor_address_parses() {
    let (id, testnet) = expect_actor(normalize_address("t0123"));
    assert_eq!(id, 123);
    assert!(testnet);
    let (id, testnet) = expect_actor(normalize_address("f0456"));
    assert_eq!(id, 456);
    assert!(!testnet);
}

#[test]
fn actor_address_u64_boundary() {
    let (id, _) = expect_actor(normalize_address("t018446744073709551615"));
    assert_eq!(id, u64::MAX);
    assert!(normalize_address("t018446744073709551616").is_err());
}

#[test]
fn malformed_addresses_are_bad_requests() {
    for raw in [
        "",
        "0x",
        "0x1234",
        "0x0011223344556677889gaabbccddeeff00112233",
        "0X00112233445566778899aabbccddeeff00112233",
        "x0123",
        "t1abc",
        "t0",
        "t0 1",
        "f0-1",
    ] {
        match normalize_address(raw) {
            Err(GatewayError::BadRequest(_)) => {}
            _ => panic!("expected a bad request for {:?}", raw),
        }
    }
}

#[test]
fn normalize_is_idempotent_on_canonical_output() {
    for raw in [
        "0xABCDEFabcdef00112233445566778899AABBCCDD",
        "t0123",
        "f09999999",
        "t00",
    ] {
        let first = normalize_address(raw).unwrap();
        let canon = canonical_text(&first);
        let second = normalize_address_bytes(&canon).unwrap();
        let canon_again = canonical_text(&second);
        assert_eq!(canon, canon_again);
        match (first, second) {
            (Address::Evm { bytes: a }, Address::Evm { bytes: b }) => assert_eq!(a, b),
            (
                Address::Actor { id: a, testnet: ta },
                Address::Actor { id: b, testnet: tb },
            ) => {
                assert_eq!(a, b);
                assert_eq!(ta, tb);
            }
            _ => panic!("normalizing the canonical text changed the address form"),
        }
    }
}

#[test]
fn canonical_text_is_lowercase_hex() {
    let a = normalize_address("0xABCDEFabcdef00112233445566778899AABBCCDD").unwrap();
    let canon = canonical_text(&a);
    assert_eq!(
        String::from_utf8(canon).unwrap(),
        "0xabcdefabcdef00112233445566778899aabbccdd"
    );
}

#[test]
fn keys_reject_empty_and_whitespace() {
    assert!(matches!(
        normalize_key(""),
        Err(GatewayError::BadRequest(_))
    ));
    assert!(matches!(
        normalize_key(" \t\r\n"),
        Err(GatewayError::BadRequest(_))
    ));
}

#[test]
fn keys_pass_through_unchanged() {
    assert_eq!(normalize_key("greeting").unwrap(), "greeting");
    assert_eq!(normalize_key(" padded ").unwrap(), " padded ");
    assert_eq!(normalize_key("grüße").unwrap(), "grüße");
}

#[test]
fn absent_list_body_yields_defaults() {
    let q = normalize_list_query(None);
    assert_eq!(q.prefix, "");
    assert_eq!(q.delimiter, "");
    assert_eq!(q.offset, 0);
    assert_eq!(q.limit, 0);
}

#[test]
fn empty_list_body_yields_defaults() {
    let q = normalize_list_query(Some(ListRequest {
        prefix: None,
        delimiter: None,
        offset: None,
        limit: None,
    }));
    assert_eq!(q.prefix, "");
    assert_eq!(q.delimiter, "");
    assert_eq!(q.offset, 0);
    assert_eq!(q.limit, 0);
}

#[test]
fn partial_list_body_overrides_only_given_fields() {
    let q = normalize_list_query(Some(ListRequest {
        prefix: Some("greet".to_string()),
        delimiter: None,
        offset: None,
        limit: Some(7),
    }));
    assert_eq!(q.prefix, "greet");
    assert_eq!(q.delimiter, "");
    assert_eq!(q.offset, 0);
    assert_eq!(q.limit, 7);
}

#[test]
fn bad_request_maps_to_400_with_message() {
    let (status, body) = error_response(&GatewayError::BadRequest("no good".to_string()));
    assert_eq!(status, 400);
    assert_eq!(body, "no good");
}

#[test]
fn upstream_maps_to_500() {
    let (status, body) = error_response(&GatewayError::Upstream("chain down".to_string()));
    assert_eq!(status, 500);
    assert_eq!(body, "chain down");
}
