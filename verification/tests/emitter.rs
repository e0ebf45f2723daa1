use json_dir_list::emit::{emit_all, Emitter};
use json_dir_list::record::{FileRecord, Timestamp};

fn record(file: &str, size: u64) -> FileRecord {
    FileRecord {
        file: String::from(file),
        host: String::from("box"),
        fetched: String::from("now"),
        atime: Timestamp { sec: 1, nsec: 0 },
        mtime: Timestamp { sec: 2, nsec: 0 },
        ctime: Timestamp { sec: 3, nsec: 0 },
        size,
        perms: 420,
        user: String::from("u"),
        group: String::from("g"),
    }
}

#[test]
fn empty_run_emits_empty_array() {
    let (emitter, open) = Emitter::begin();
    let close = emitter.end();
    let out = format!("{}{}", open, close);
    assert_eq!(out, "[]");
    let v: serde_json::Value = serde_json::from_str(&out).unwrap();
    assert_eq!(v.as_array().unwrap().len(), 0);
}

#[test]
fn chunks_are_separated_by_commas() {
    let (mut emitter, open) = Emitter::begin();
    assert_eq!(open, "[");
    let first = emitter.write(&record("/a", 1));
    assert!(!first.starts_with(','));
    let second = emitter.write(&record("/b", 2));
    assert!(second.starts_with(','));
    let close = emitter.end();
    assert_eq!(close, "]");
    let out = format!("{}{}{}{}", open, first, second, close);
    let v: serde_json::Value = serde_json::from_str(&out).unwrap();
    assert_eq!(v.as_array().unwrap().len(), 2);
}

#[test]
fn emit_all_matches_streamed_chunks() {
    let records = vec![record("/a", 1), record("/b", 2), record("/c", 3)];
    let whole = emit_all(&records);
    let (mut emitter, mut streamed) = Emitter::begin();
    for r in &records {
        let chunk = emitter.write(r);
        streamed.push_str(&chunk);
    }
    streamed.push_str(&emitter.end());
    assert_eq!(whole, streamed);
}

#[test]
fn emit_all_output_is_valid_json_array() {
    for n in 0..4 {
        let records: Vec<FileRecord> =
            (0..n).map(|i| record(&format!("/f{}", i), i as u64)).collect();
        let out = emit_all(&records);
        let v: serde_json::Value = serde_json::from_str(&out).unwrap();
        let arr = v.as_array().unwrap();
        assert_eq!(arr.len(), n);
        for (i, elem) in arr.iter().enumerate() {
            assert_eq!(elem["file"].as_str().unwrap(), format!("/f{}", i));
            assert_eq!(elem["size"].as_u64().unwrap(), i as u64);
        }
    }
}
