use json_dir_list::emit::Emitter;
use json_dir_list::meta::{PosixMetadata, RawMetadata, WindowsMetadata};
use json_dir_list::walk::{ChildAction, EntryMeta, Walker};

fn file_meta(size: u64, mtime_sec: i64) -> EntryMeta {
    EntryMeta {
        is_dir: false,
        stat: RawMetadata::Posix(PosixMetadata {
            atime_sec: 50,
            atime_nsec: 0,
            mtime_sec,
            mtime_nsec: 0,
            ctime_sec: 60,
            ctime_nsec: 0,
            uid: 0,
            gid: 0,
            mode: 33188,
            size,
        }),
    }
}

fn dir_meta() -> EntryMeta {
    let mut meta = file_meta(0, 0);
    meta.is_dir = true;
    meta
}

fn windows_file(size: u64) -> EntryMeta {
    EntryMeta {
        is_dir: false,
        stat: RawMetadata::Windows(WindowsMetadata {
            access_ticks: 0,
            write_ticks: 0,
            creation_ticks: 0,
            size,
        }),
    }
}

fn walker(roots: &[&str]) -> Walker {
    Walker::new(
        roots.iter().map(|r| String::from(*r)).collect(),
        String::from("box"),
        String::from("now"),
    )
}

#[test]
fn roots_are_processed_from_the_back() {
    let mut w = walker(&["one", "two"]);
    assert_eq!(w.next_directory(), Some(String::from("two")));
    assert_eq!(w.next_directory(), Some(String::from("one")));
    assert_eq!(w.next_directory(), None);
}

#[test]
fn zero_roots_end_immediately() {
    let mut w = walker(&[]);
    assert_eq!(w.next_directory(), None);
}

#[test]
fn dot_entries_never_emit_and_never_requeue() {
    let mut w = walker(&[]);
    for name in [".", ".."] {
        let action = w.process_child(name, format!("root/{}", name), &dir_meta());
        assert!(matches!(action, ChildAction::Skipped));
        let action = w.process_child(name, format!("root/{}", name), &file_meta(1, 1));
        assert!(matches!(action, ChildAction::Skipped));
    }
    assert_eq!(w.next_directory(), None);
}

#[test]
fn directories_are_enqueued_not_emitted() {
    let mut w = walker(&[]);
    let action = w.process_child("sub", String::from("root/sub"), &dir_meta());
    assert!(matches!(action, ChildAction::Enqueued));
    assert_eq!(w.next_directory(), Some(String::from("root/sub")));
}

#[test]
fn a_windows_file_always_emits() {
    let mut w = walker(&[]);
    match w.process_child("a.bin", String::from("C:\\a.bin"), &windows_file(7)) {
        ChildAction::Emit(rec) => {
            assert_eq!(rec.file, "C:\\a.bin");
            assert_eq!(rec.size, 7);
            assert_eq!(rec.user, "");
            assert_eq!(rec.group, "");
        },
        _ => panic!("expected an emitted record"),
    }
}

#[test]
fn an_unmapped_owner_is_silently_skipped() {
    let mut w = walker(&[]);
    let mut meta = file_meta(1, 1);
    if let RawMetadata::Posix(ref mut p) = meta.stat {
        p.uid = 4_294_967_294;
    }
    let action = w.process_child("a.txt", String::from("root/a.txt"), &meta);
    assert!(matches!(action, ChildAction::Skipped));
}

fn emit_into(emitter: &mut Emitter, out: &mut String, w: &mut Walker, name: &str, path: &str,
             meta: &EntryMeta) -> bool {
    match w.process_child(name, String::from(path), meta) {
        ChildAction::Emit(rec) => {
            out.push_str(&emitter.write(&rec));
            true
        },
        _ => false,
    }
}

#[test]
fn two_level_tree_yields_both_files_and_no_directory() {
    let mut w = walker(&["root"]);
    let (mut emitter, mut out) = Emitter::begin();

    assert_eq!(w.next_directory(), Some(String::from("root")));
    assert!(emit_into(&mut emitter, &mut out, &mut w, "a.txt", "root/a.txt", &file_meta(10, 100)));
    let action = w.process_child("sub", String::from("root/sub"), &dir_meta());
    assert!(matches!(action, ChildAction::Enqueued));

    assert_eq!(w.next_directory(), Some(String::from("root/sub")));
    assert!(emit_into(
        &mut emitter,
        &mut out,
        &mut w,
        "b.txt",
        "root/sub/b.txt",
        &file_meta(20, 0)
    ));

    assert_eq!(w.next_directory(), None);
    out.push_str(&emitter.end());

    let v: serde_json::Value = serde_json::from_str(&out).unwrap();
    let arr = v.as_array().unwrap();
    assert_eq!(arr.len(), 2);
    let mut sizes: Vec<u64> = arr.iter().map(|e| e["size"].as_u64().unwrap()).collect();
    sizes.sort();
    assert_eq!(sizes, vec![10, 20]);
    for elem in arr {
        assert_eq!(elem["host"].as_str().unwrap(), "box");
        assert_eq!(elem["fetched"].as_str().unwrap(), "now");
        assert_ne!(elem["file"].as_str().unwrap(), "root/sub");
    }
    assert_eq!(arr[0]["file"].as_str().unwrap(), "root/a.txt");
    assert_eq!(arr[0]["mtime"].as_f64().unwrap(), 100.0);
    assert_eq!(arr[1]["file"].as_str().unwrap(), "root/sub/b.txt");
}

#[test]
fn an_unreadable_directory_does_not_stop_the_walk() {
    let mut w = walker(&["root"]);
    let (mut emitter, mut out) = Emitter::begin();

    assert_eq!(w.next_directory(), Some(String::from("root")));
    for sub in ["readable_a", "locked", "readable_b"] {
        let action = w.process_child(sub, format!("root/{}", sub), &dir_meta());
        assert!(matches!(action, ChildAction::Enqueued));
    }

    assert_eq!(w.next_directory(), Some(String::from("root/readable_b")));
    assert!(emit_into(
        &mut emitter,
        &mut out,
        &mut w,
        "late.txt",
        "root/readable_b/late.txt",
        &file_meta(2, 0)
    ));

    // Listing `root/locked` fails: the walk simply hands back no
    // children for it and moves on.
    assert_eq!(w.next_directory(), Some(String::from("root/locked")));

    assert_eq!(w.next_directory(), Some(String::from("root/readable_a")));
    assert!(emit_into(
        &mut emitter,
        &mut out,
        &mut w,
        "early.txt",
        "root/readable_a/early.txt",
        &file_meta(1, 0)
    ));

    assert_eq!(w.next_directory(), None);
    out.push_str(&emitter.end());

    let v: serde_json::Value = serde_json::from_str(&out).unwrap();
    let arr = v.as_array().unwrap();
    assert_eq!(arr.len(), 2);
    assert_eq!(arr[0]["file"].as_str().unwrap(), "root/readable_b/late.txt");
    assert_eq!(arr[1]["file"].as_str().unwrap(), "root/readable_a/early.txt");
}

#[test]
fn every_resolvable_regular_file_is_counted_once() {
    let mut w = walker(&[]);
    let children: Vec<(&str, EntryMeta)> = vec![
        ("a.txt", file_meta(1, 1)),
        ("sub", dir_meta()),
        (".", dir_meta()),
        ("b.bin", windows_file(2)),
        ("..", file_meta(3, 3)),
        ("c.txt", file_meta(4, 4)),
    ];
    let regular_files = 3;
    let mut emitted = 0;
    for (name, meta) in &children {
        if let ChildAction::Emit(_) = w.process_child(name, format!("root/{}", name), meta) {
            emitted += 1;
        }
    }
    assert_eq!(emitted, regular_files);
}
