use std::path::Path;

use grok_agent::file_read_tracker::{
    compare_bytes, path_key, record_read, requires_prior_read, was_read, ByteOrder,
    FileReadTracker,
};

#[test]
fn compare_bytes_is_lexicographic() {
    assert_eq!(compare_bytes(b"/a", b"/b"), ByteOrder::Less);
    assert_eq!(compare_bytes(b"/b", b"/a"), ByteOrder::Greater);
    assert_eq!(compare_bytes(b"/a", b"/a"), ByteOrder::Equal);
    assert_eq!(compare_bytes(b"/a", b"/a/b"), ByteOrder::Less);
    assert_eq!(compare_bytes(b"", b""), ByteOrder::Equal);
    assert_eq!(compare_bytes(b"z", b""), ByteOrder::Greater);
}

#[test]
fn tracker_insert_keeps_sorted_unique_paths() {
    let mut t = FileReadTracker::new();
    assert!(t.insert(b"/src/main.rs".to_vec()));
    assert!(t.insert(b"/src/lib.rs".to_vec()));
    assert!(t.insert(b"/Cargo.toml".to_vec()));
    assert!(!t.insert(b"/src/lib.rs".to_vec()));
    let paths: Vec<&[u8]> = t.paths().iter().map(|p| p.as_slice()).collect();
    assert_eq!(
        paths,
        vec![&b"/Cargo.toml"[..], &b"/src/lib.rs"[..], &b"/src/main.rs"[..]]
    );
    assert!(t.contains(b"/src/lib.rs"));
    assert!(!t.contains(b"/src/lib"));
}

#[test]
fn tracker_equality_ignores_insertion_order() {
    let mut a = FileReadTracker::default();
    a.insert(b"/x".to_vec());
    a.insert(b"/y".to_vec());
    let mut b = FileReadTracker::new();
    b.insert(b"/y".to_vec());
    b.insert(b"/x".to_vec());
    assert_eq!(a, b);
    assert_eq!(a.clone(), a);
}

#[test]
fn record_then_was_read() {
    let mut tracker = Some(FileReadTracker::new());
    assert!(!was_read(&tracker, b"/repo/a.rs"));
    assert!(requires_prior_read(&tracker, b"/repo/a.rs"));
    record_read(&mut tracker, b"/repo/a.rs".to_vec());
    assert!(was_read(&tracker, b"/repo/a.rs"));
    assert!(!requires_prior_read(&tracker, b"/repo/a.rs"));
    assert!(requires_prior_read(&tracker, b"/repo/b.rs"));
    record_read(&mut tracker, b"/repo/a.rs".to_vec());
    assert_eq!(tracker.as_ref().map(|t| t.paths().len()), Some(1));
}

#[test]
fn missing_tracker_skips_the_gate() {
    let mut tracker: Option<FileReadTracker> = None;
    record_read(&mut tracker, b"/repo/a.rs".to_vec());
    assert!(tracker.is_none());
    assert!(!was_read(&tracker, b"/repo/a.rs"));
    assert!(!requires_prior_read(&tracker, b"/repo/a.rs"));
}

#[test]
fn recording_one_path_leaves_others() {
    let mut tracker = Some(FileReadTracker::new());
    record_read(&mut tracker, b"/b".to_vec());
    record_read(&mut tracker, b"/a".to_vec());
    record_read(&mut tracker, b"/c".to_vec());
    assert!(was_read(&tracker, b"/a"));
    assert!(was_read(&tracker, b"/b"));
    assert!(was_read(&tracker, b"/c"));
    assert!(!was_read(&tracker, b"/d"));
}

#[test]
fn paths_compare_by_components() {
    let mut tracker = Some(FileReadTracker::new());
    record_read(&mut tracker, b"/r/a".to_vec());
    assert!(was_read(&tracker, b"/r/a/"));
    assert!(was_read(&tracker, b"/r//a"));
    assert!(was_read(&tracker, b"/r/./a"));
    assert!(was_read(&tracker, b"//r/a/."));
    assert!(!requires_prior_read(&tracker, b"/r/a/"));
    assert!(!was_read(&tracker, b"r/a"));
    assert!(!was_read(&tracker, b"/r/a/b"));
    assert!(!was_read(&tracker, b"/r/../r/a"));
    record_read(&mut tracker, b"/r//a/".to_vec());
    assert_eq!(tracker.as_ref().map(|t| t.paths().len()), Some(1));
}

#[test]
fn path_key_tokens() {
    assert_eq!(path_key(b"/a//b/./c/"), path_key(b"/a/b/c"));
    assert_eq!(path_key(b"/"), vec![1u8]);
    assert_eq!(path_key(b""), Vec::<u8>::new());
    assert_eq!(path_key(b"./x"), vec![2u8, 4, b'x', 0, 0]);
    assert_eq!(path_key(b"../x"), vec![3u8, 4, b'x', 0, 0]);
    assert_eq!(path_key(b"a\0b"), vec![4u8, b'a', 0, 1, b'b', 0, 0]);
    assert_ne!(path_key(b"./a"), path_key(b"a"));
    assert_ne!(path_key(b"/a"), path_key(b"a"));
}

const SAMPLES: [&str; 24] = [
    "/a/b", "/a-b", "/a", "/a/", "/a//b", "/a/./b", "a/b", "./a/b", "../a", "..", ".", "",
    "/", "//", "/a/b/c", "/a/b-c", "/ab", "/a b", "/A", "a/../b", "/a/b/..", "./", "a/.", "/./a",
];

#[test]
fn keys_agree_with_std_path_components() {
    for x in SAMPLES {
        for y in SAMPLES {
            let (px, py) = (Path::new(x), Path::new(y));
            let (kx, ky) = (path_key(x.as_bytes()), path_key(y.as_bytes()));
            assert_eq!(kx == ky, px == py, "{x:?} {y:?}");
            assert_eq!(kx.cmp(&ky), px.cmp(py), "{x:?} {y:?}");
            assert_eq!(compare_bytes(&kx, &ky) == ByteOrder::Less, px < py, "{x:?} {y:?}");
        }
    }
}

#[test]
fn tracker_keeps_first_spelling_in_path_order() {
    let mut t = FileReadTracker::new();
    for x in SAMPLES.iter().rev() {
        t.insert(x.as_bytes().to_vec());
    }
    let mut expected: Vec<&Path> = Vec::new();
    for x in SAMPLES.iter().rev() {
        let p = Path::new(x);
        if !expected.contains(&p) {
            expected.push(p);
        }
    }
    expected.sort();
    let got: Vec<&Path> = t.paths().iter().map(|p| Path::new(std::str::from_utf8(p).unwrap())).collect();
    assert_eq!(got, expected);

    let mut u = FileReadTracker::new();
    assert!(u.insert(b"/a//b".to_vec()));
    assert!(!u.insert(b"/a/b".to_vec()));
    assert_eq!(u.paths(), &[b"/a//b".to_vec()]);
    assert!(u.contains(b"/a/b/"));
}
