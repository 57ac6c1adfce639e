use basin_gateway::address::Address;
use basin_gateway::errors::{error_response, GatewayError};
use basin_gateway::multipart::{ingest, ingest_step, IngestEvent, IngestState, IngestStep, UploadIntent, MAX_FIELD_SIZE};
use basin_gateway::requests::set_request_from_intent;
use basin_gateway::routes::{accept_set_request, content_type_is_multipart};
use basin_gateway::MAX_FILE_SIZE;

fn header(name: &str) -> IngestEvent {
    IngestEvent::PartHeader {
        name: name.to_string(),
        filename: None,
    }
}

fn file_header(filename: Option<&str>) -> IngestEvent {
    IngestEvent::PartHeader {
        name: "file".to_string(),
        filename: filename.map(|f| f.to_string()),
    }
}

fn chunk(data: &[u8]) -> IngestEvent {
    IngestEvent::Chunk {
        data: data.to_vec(),
    }
}

fn upload(address: &str, key: &str, filename: Option<&str>, payload: &[u8]) -> Vec<IngestEvent> {
    vec![
        header("address"),
        chunk(address.as_bytes()),
        IngestEvent::PartEnd,
        header("key"),
        chunk(key.as_bytes()),
        IngestEvent::PartEnd,
        file_header(filename),
        chunk(payload),
        IngestEvent::PartEnd,
        IngestEvent::StreamEnd,
    ]
}

fn bad_request_message(r: Result<UploadIntent, GatewayError>) -> String {
    match r {
        Err(GatewayError::BadRequest(m)) => m,
        Err(_) => panic!("expected a bad request, got an upstream error"),
        Ok(_) => panic!("expected a bad request, got success"),
    }
}

#[test]
fn well_formed_upload_completes() {
    let intent = ingest(upload(
        "0xABCD00112233445566778899aabbccddeeff0011",
        "greeting",
        Some("hello.txt"),
        b"hello",
    ))
    .unwrap();
    assert_eq!(intent.key, "greeting");
    assert_eq!(intent.filename.as_deref(), Some("hello.txt"));
    assert_eq!(intent.payload, b"hello");
    match intent.address {
        Address::Evm { bytes } => {
            assert_eq!(bytes[0], 0xab);
            assert_eq!(bytes[1], 0xcd);
        }
        _ => panic!("expected an EVM address"),
    }
}

#[test]
fn upload_without_file_part_yields_empty_payload() {
    let intent = ingest(vec![
        header("key"),
        chunk(b"greeting"),
        IngestEvent::PartEnd,
        header("address"),
        chunk(b"t0123"),
        IngestEvent::PartEnd,
        IngestEvent::StreamEnd,
    ])
    .unwrap();
    assert_eq!(intent.payload, Vec::<u8>::new());
    assert_eq!(intent.filename, None);
    assert_eq!(intent.key, "greeting");
}

#[test]
fn field_value_split_across_chunks() {
    let intent = ingest(vec![
        header("address"),
        chunk(b"t01"),
        chunk(b"23"),
        IngestEvent::PartEnd,
        header("key"),
        chunk(b"gre"),
        chunk(b"eting"),
        IngestEvent::PartEnd,
        IngestEvent::StreamEnd,
    ])
    .unwrap();
    assert_eq!(intent.key, "greeting");
    match intent.address {
        Address::Actor { id, testnet } => {
            assert_eq!(id, 123);
            assert!(testnet);
        }
        _ => panic!("expected an actor address"),
    }
}

#[test]
fn missing_field_is_rejected() {
    let msg = bad_request_message(ingest(vec![
        header("key"),
        chunk(b"greeting"),
        IngestEvent::PartEnd,
        IngestEvent::StreamEnd,
    ]));
    assert_eq!(msg, "missing field");
}

#[test]
fn payload_at_the_bound_is_accepted() {
    let big = vec![0u8; MAX_FILE_SIZE as usize];
    let intent = ingest(upload("t07", "big", None, &big)).unwrap();
    assert_eq!(intent.payload.len(), MAX_FILE_SIZE as usize);
}

#[test]
fn payload_one_byte_over_the_bound_is_rejected() {
    let big = vec![0u8; MAX_FILE_SIZE as usize];
    let msg = bad_request_message(ingest(vec![
        header("address"),
        chunk(b"t07"),
        IngestEvent::PartEnd,
        header("key"),
        chunk(b"big"),
        IngestEvent::PartEnd,
        file_header(None),
        IngestEvent::Chunk { data: big },
        chunk(b"x"),
        IngestEvent::PartEnd,
        IngestEvent::StreamEnd,
    ]));
    assert_eq!(msg, "payload too large");
}

#[test]
fn oversized_field_is_rejected() {
    let big = vec![b'1'; MAX_FIELD_SIZE as usize + 1];
    let msg = bad_request_message(ingest(vec![
        header("address"),
        IngestEvent::Chunk { data: big },
        IngestEvent::PartEnd,
        IngestEvent::StreamEnd,
    ]));
    assert_eq!(msg, "field too large");
}

#[test]
fn invalid_address_field_is_rejected() {
    let msg = bad_request_message(ingest(upload("nonsense", "greeting", None, b"hi")));
    assert_eq!(msg, "invalid address");
}

#[test]
fn invalid_utf8_key_is_rejected() {
    let msg = bad_request_message(ingest(vec![
        header("key"),
        chunk(&[0xff, 0xfe]),
        IngestEvent::PartEnd,
        IngestEvent::StreamEnd,
    ]));
    assert_eq!(msg, "invalid UTF-8 in field");
}

#[test]
fn whitespace_key_is_rejected() {
    let msg = bad_request_message(ingest(upload("t07", " \t ", None, b"hi")));
    assert_eq!(msg, "invalid key");
}

#[test]
fn non_ascii_key_is_accepted() {
    let intent = ingest(upload("t07", "grüße", None, b"hi")).unwrap();
    assert_eq!(intent.key, "grüße");
}

#[test]
fn unknown_parts_are_discarded() {
    let intent = ingest(vec![
        header("mystery"),
        chunk(b"do not keep this"),
        IngestEvent::PartEnd,
        header("address"),
        chunk(b"t05"),
        IngestEvent::PartEnd,
        header("key"),
        chunk(b"k"),
        IngestEvent::PartEnd,
        IngestEvent::StreamEnd,
    ])
    .unwrap();
    assert_eq!(intent.payload, Vec::<u8>::new());
    assert_eq!(intent.key, "k");
}

#[test]
fn transport_failure_aborts_ingestion() {
    let msg = bad_request_message(ingest(vec![
        header("address"),
        IngestEvent::TransportFailure,
    ]));
    assert_eq!(msg, "transport error");
}

#[test]
fn truncated_stream_is_rejected() {
    assert!(matches!(
        ingest(vec![header("address"), chunk(b"t07")]),
        Err(GatewayError::BadRequest(_))
    ));
}

#[test]
fn repeated_file_parts_concatenate() {
    let intent = ingest(vec![
        header("address"),
        chunk(b"t07"),
        IngestEvent::PartEnd,
        header("key"),
        chunk(b"k"),
        IngestEvent::PartEnd,
        file_header(None),
        chunk(b"hel"),
        IngestEvent::PartEnd,
        file_header(None),
        chunk(b"lo"),
        IngestEvent::PartEnd,
        IngestEvent::StreamEnd,
    ])
    .unwrap();
    assert_eq!(intent.payload, b"hello");
}

#[test]
fn content_type_gate() {
    assert!(content_type_is_multipart("multipart/form-data"));
    assert!(content_type_is_multipart(
        "multipart/form-data; boundary=deadbeef"
    ));
    assert!(!content_type_is_multipart("application/json"));
    assert!(!content_type_is_multipart("multipart"));
    assert!(!content_type_is_multipart(""));
}

#[test]
fn wrong_content_type_is_rejected_with_exact_message() {
    let r = accept_set_request("application/json", vec![]);
    match r {
        Err(e) => {
            let (status, body) = error_response(&e);
            assert_eq!(status, 400);
            assert_eq!(body, "Invalid Content-Type");
        }
        Ok(_) => panic!("expected rejection"),
    }
}

#[test]
fn multipart_content_type_is_accepted_end_to_end() {
    let intent = accept_set_request(
        "multipart/form-data; boundary=xyz",
        upload("0xABCD00112233445566778899aabbccddeeff0011", "greeting", None, b"hello"),
    )
    .unwrap();
    let req = set_request_from_intent(intent);
    assert_eq!(req.base.key, "greeting");
    assert_eq!(req.value.filename, "");
    assert_eq!(req.value.content, b"hello");
}

#[test]
fn machine_states_keep_their_invariant() {
    let s = IngestState::init();
    assert!(s.invariant_holds());
    match ingest_step(s, header("address")) {
        IngestStep::Reading(s2) => assert!(s2.invariant_holds()),
        _ => panic!("expected the machine to keep reading"),
    }
}
