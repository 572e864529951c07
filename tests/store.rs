use pulsar::store::{StoredValue, VersionRecord};

fn text(s: &str) -> StoredValue {
    StoredValue::Text(s.to_string())
}

#[test]
fn new_record_is_empty() {
    let r = VersionRecord::new();
    assert_eq!(r.app_last_check(), 0);
    assert_eq!(r.req_last_check(), 0);
    assert_eq!(r.version_of("ffmpeg"), "");
    let d = VersionRecord::default();
    assert_eq!(d.app_last_check(), 0);
}

#[test]
fn set_version_replaces() {
    let mut r = VersionRecord::new();
    r.set_version("ffmpeg", "2024-01-01T00:00:00Z");
    r.set_version("pulsar-bridge", "b1");
    r.set_version("ffmpeg", "2024-02-01T00:00:00Z");
    assert_eq!(r.version_of("ffmpeg"), "2024-02-01T00:00:00Z");
    assert_eq!(r.version_of("pulsar-bridge"), "b1");
    assert_eq!(r.to_entries().len(), 4);
}

#[test]
fn stored_record_reloads_identically() {
    let mut r = VersionRecord::new();
    r.stamp_checks(Some(1700000000), Some(1700000500));
    r.set_version("ffmpeg", "t1");
    r.set_version("future-tool", "x9");
    let entries = r.to_entries();
    let back = VersionRecord::from_entries(&entries).unwrap();
    assert_eq!(back.app_last_check(), 1700000000);
    assert_eq!(back.req_last_check(), 1700000500);
    assert_eq!(back.version_of("ffmpeg"), "t1");
    assert_eq!(back.version_of("future-tool"), "x9");
    assert_eq!(back.version_of("pulsar-bridge"), "");
}

#[test]
fn stored_form_layout() {
    let mut r = VersionRecord::new();
    r.stamp_checks(Some(5), Some(6));
    r.set_version("ffmpeg", "t1");
    let e = r.to_entries();
    assert_eq!(e[0].0, "app_last_check");
    assert!(matches!(e[0].1, StoredValue::Number(5)));
    assert_eq!(e[1].0, "req_last_check");
    assert!(matches!(e[1].1, StoredValue::Number(6)));
    assert_eq!(e[2].0, "ffmpeg");
    assert!(matches!(&e[2].1, StoredValue::Text(t) if t == "t1"));
}

#[test]
fn missing_timestamps_read_as_zero() {
    let e = vec![("ffmpeg".to_string(), text("t"))];
    let r = VersionRecord::from_entries(&e).unwrap();
    assert_eq!(r.app_last_check(), 0);
    assert_eq!(r.req_last_check(), 0);
    assert_eq!(r.version_of("ffmpeg"), "t");
}

#[test]
fn corrupt_entries_are_rejected() {
    let bad_time = vec![("app_last_check".to_string(), text("soon"))];
    assert!(VersionRecord::from_entries(&bad_time).is_none());
    let bad_req = vec![("req_last_check".to_string(), StoredValue::Other)];
    assert!(VersionRecord::from_entries(&bad_req).is_none());
    let bad_version = vec![("ffmpeg".to_string(), StoredValue::Number(3))];
    assert!(VersionRecord::from_entries(&bad_version).is_none());
}

#[test]
fn later_entry_wins() {
    let e = vec![
        ("ffmpeg".to_string(), text("a")),
        ("app_last_check".to_string(), StoredValue::Number(1)),
        ("ffmpeg".to_string(), text("b")),
        ("app_last_check".to_string(), StoredValue::Number(2)),
    ];
    let r = VersionRecord::from_entries(&e).unwrap();
    assert_eq!(r.version_of("ffmpeg"), "b");
    assert_eq!(r.app_last_check(), 2);
}

#[test]
fn unknown_text_entries_survive_a_reload() {
    let e = vec![
        ("app_last_check".to_string(), StoredValue::Number(7)),
        ("req_last_check".to_string(), StoredValue::Number(8)),
        ("some-future-tool".to_string(), text("1.0")),
    ];
    let r = VersionRecord::from_entries(&e).unwrap();
    let again = r.to_entries();
    assert_eq!(again.len(), 3);
    assert_eq!(again[2].0, "some-future-tool");
    assert!(matches!(&again[2].1, StoredValue::Text(t) if t == "1.0"));
}
