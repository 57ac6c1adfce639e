use basin_gateway::projection::{project_list_result, ListResult, ObjectRecord};
use basin_gateway::sequencer::{run_sequenced_batch, Sequencer};

fn record(key: &[u8], cid_bytes: &[u8]) -> ObjectRecord {
    ObjectRecord {
        key: key.to_vec(),
        cid_bytes: cid_bytes.to_vec(),
        resolved: true,
        size: 5,
        metadata: vec![("origin".to_string(), "test".to_string())],
    }
}

#[test]
fn empty_listing_projects_to_empty() {
    let p = project_list_result(ListResult {
        objects: vec![],
        common_prefixes: vec![],
    });
    assert_eq!(p.objects.len(), 0);
    assert_eq!(p.common_prefixes.len(), 0);
}

#[test]
fn projection_keeps_count_and_order() {
    let p = project_list_result(ListResult {
        objects: vec![
            record(b"alpha", &[]),
            record(b"beta", &[]),
            record(b"gamma", &[]),
        ],
        common_prefixes: vec![b"a/".to_vec(), b"b/".to_vec()],
    });
    assert_eq!(p.objects.len(), 3);
    assert_eq!(p.objects[0].key, "alpha");
    assert_eq!(p.objects[1].key, "beta");
    assert_eq!(p.objects[2].key, "gamma");
    assert_eq!(p.common_prefixes, vec!["a/".to_string(), "b/".to_string()]);
}

#[test]
fn projection_passes_fields_through() {
    let p = project_list_result(ListResult {
        objects: vec![record(b"greeting", &[])],
        common_prefixes: vec![],
    });
    let o = &p.objects[0];
    assert!(o.resolved);
    assert_eq!(o.size, 5);
    assert_eq!(o.metadata, vec![("origin".to_string(), "test".to_string())]);
}

#[test]
fn invalid_key_bytes_decode_lossily() {
    let p = project_list_result(ListResult {
        objects: vec![record(&[0xff, b'o', b'k'], &[])],
        common_prefixes: vec![b"\xffx/".to_vec()],
    });
    assert_eq!(p.objects[0].key, "\u{FFFD}ok");
    assert_eq!(p.common_prefixes[0], "\u{FFFD}x/");
}

#[test]
fn malformed_cid_projects_to_empty_sentinel() {
    let p = project_list_result(ListResult {
        objects: vec![record(b"k", &[0x01, 0x02])],
        common_prefixes: vec![],
    });
    assert_eq!(p.objects[0].cid, "");
}

#[test]
fn valid_cid_projects_to_canonical_text() {
    // A binary content identifier in the fixed v0 form: the two prefix bytes
    // and a 32-byte digest.
    let mut raw = vec![0x12u8, 0x20];
    raw.extend_from_slice(&[7u8; 32]);
    let expected = cid::Cid::try_from(raw.as_slice()).unwrap().to_string();
    assert!(!expected.is_empty());
    let p = project_list_result(ListResult {
        objects: vec![record(b"k", &raw)],
        common_prefixes: vec![],
    });
    assert_eq!(p.objects[0].cid, expected);
    assert!(p.objects[0].cid.starts_with("Qm"));
}

#[test]
fn listing_after_upload_contains_the_key() {
    // The store echoing one stored object back: the projection shows the key
    // it was stored under.
    let p = project_list_result(ListResult {
        objects: vec![record(b"greeting", &[])],
        common_prefixes: vec![],
    });
    assert_eq!(p.objects.len(), 1);
    assert_eq!(p.objects[0].key, "greeting");
}

#[test]
fn sequencer_serializes_admissions() {
    let mut s = Sequencer::new(7);
    assert!(!s.in_flight());
    let first = s.try_admit();
    assert_eq!(first, Some(7));
    assert!(s.in_flight());
    // A concurrent request arriving while one is in flight is refused
    // admission and must wait.
    assert_eq!(s.try_admit(), None);
    s.complete_success();
    let second = s.try_admit();
    assert_eq!(second, Some(8));
    assert_ne!(first, second);
    s.complete_success();
}

#[test]
fn failed_submission_does_not_consume_the_sequence() {
    let mut s = Sequencer::new(3);
    assert_eq!(s.try_admit(), Some(3));
    s.complete_failure();
    assert_eq!(s.try_admit(), Some(3));
    s.complete_success();
    assert_eq!(s.try_admit(), Some(4));
    s.complete_failure();
}

#[test]
fn batch_tickets_are_gap_free() {
    let mut s = Sequencer::new(100);
    let tickets = run_sequenced_batch(&mut s, 5);
    assert_eq!(tickets, vec![100, 101, 102, 103, 104]);
    assert!(!s.in_flight());
    // Two concurrent submissions never share a ticket.
    for i in 0..tickets.len() {
        for j in i + 1..tickets.len() {
            assert_ne!(tickets[i], tickets[j]);
        }
    }
}

#[test]
fn current_sequence_tracks_the_counter() {
    let mut s = Sequencer::new(41);
    assert_eq!(s.current_sequence(), 41);
    assert_eq!(s.try_admit(), Some(41));
    s.complete_success();
    assert_eq!(s.current_sequence(), 42);
}
