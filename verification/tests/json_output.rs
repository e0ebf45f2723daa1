use json_dir_list::json::{record_json, timestamp_decimal};
use json_dir_list::record::{FileRecord, Timestamp};

fn sample_record() -> FileRecord {
    FileRecord {
        file: String::from("/tmp/a.txt"),
        host: String::from("box"),
        fetched: String::from("2024-01-02T03:04:05+00:00"),
        atime: Timestamp { sec: 100, nsec: 500_000_000 },
        mtime: Timestamp { sec: 200, nsec: 0 },
        ctime: Timestamp { sec: -1, nsec: 500_000_000 },
        size: 10,
        perms: 33188,
        user: String::from("root"),
        group: String::from("wheel"),
    }
}

#[test]
fn record_serializes_with_stable_key_order() {
    let out = record_json(&sample_record());
    assert_eq!(
        out,
        "{\"atime\":100.5,\"ctime\":-0.5,\"fetched\":\"2024-01-02T03:04:05+00:00\",\
         \"file\":\"/tmp/a.txt\",\"group\":\"wheel\",\"host\":\"box\",\"mtime\":200.0,\
         \"perms\":33188,\"size\":10,\"user\":\"root\"}"
    );
}

#[test]
fn record_json_parses_as_object() {
    let out = record_json(&sample_record());
    let v: serde_json::Value = serde_json::from_str(&out).unwrap();
    assert!(v.is_object());
    assert_eq!(v["atime"].as_f64().unwrap(), 100.5);
    assert_eq!(v["ctime"].as_f64().unwrap(), -0.5);
    assert_eq!(v["size"].as_u64().unwrap(), 10);
    assert_eq!(v["perms"].as_u64().unwrap(), 33188);
    assert_eq!(v["user"].as_str().unwrap(), "root");
    assert_eq!(v["group"].as_str().unwrap(), "wheel");
    assert_eq!(v["host"].as_str().unwrap(), "box");
    assert_eq!(v["file"].as_str().unwrap(), "/tmp/a.txt");
}

#[test]
fn strings_are_escaped() {
    let mut rec = sample_record();
    rec.file = String::from("a\"b\\c\nd\te\rf\u{8}g\u{c}h\u{1}i");
    let out = record_json(&rec);
    let v: serde_json::Value = serde_json::from_str(&out).unwrap();
    assert_eq!(v["file"].as_str().unwrap(), "a\"b\\c\nd\te\rf\u{8}g\u{c}h\u{1}i");
    assert!(out.contains("\\\"b"));
    assert!(out.contains("\\\\c"));
    assert!(out.contains("\\nd"));
    assert!(out.contains("\\te"));
    assert!(out.contains("\\rf"));
    assert!(out.contains("\\bg"));
    assert!(out.contains("\\fh"));
    assert!(out.contains("\\u0001i"));
}

#[test]
fn unicode_survives_serialization() {
    let mut rec = sample_record();
    rec.file = String::from("/tmp/caf\u{e9}/\u{1f600}.txt");
    let out = record_json(&rec);
    let v: serde_json::Value = serde_json::from_str(&out).unwrap();
    assert_eq!(v["file"].as_str().unwrap(), "/tmp/caf\u{e9}/\u{1f600}.txt");
}

#[test]
fn sentinel_timestamp_serializes_as_zero() {
    assert_eq!(timestamp_decimal(&Timestamp::unknown()), "0.0");
}

#[test]
fn timestamp_decimal_is_exact() {
    assert_eq!(timestamp_decimal(&Timestamp { sec: 100, nsec: 0 }), "100.0");
    assert_eq!(timestamp_decimal(&Timestamp { sec: 100, nsec: 500_000_000 }), "100.5");
    assert_eq!(timestamp_decimal(&Timestamp { sec: 100, nsec: 100 }), "100.0000001");
    assert_eq!(
        timestamp_decimal(&Timestamp { sec: 100, nsec: 999_999_999 }),
        "100.999999999"
    );
    assert_eq!(timestamp_decimal(&Timestamp { sec: 0, nsec: 1 }), "0.000000001");
    assert_eq!(timestamp_decimal(&Timestamp { sec: -1, nsec: 0 }), "-1.0");
    assert_eq!(timestamp_decimal(&Timestamp { sec: -1, nsec: 500_000_000 }), "-0.5");
    assert_eq!(
        timestamp_decimal(&Timestamp { sec: -11_644_473_600, nsec: 100 }),
        "-11644473599.9999999"
    );
    assert_eq!(
        timestamp_decimal(&Timestamp { sec: i64::MIN, nsec: 0 }),
        "-9223372036854775808.0"
    );
    assert_eq!(
        timestamp_decimal(&Timestamp { sec: i64::MAX, nsec: 999_999_999 }),
        "9223372036854775807.999999999"
    );
}
