use pjdfstest::path::FsPath;

#[test]
fn push_relative_adds_separator() {
    let mut p = FsPath::from_str("/tmp/base");
    p.push(b"file");
    assert_eq!(p.as_bytes(), b"/tmp/base/file");
}

#[test]
fn push_onto_trailing_separator() {
    let mut p = FsPath::from_str("/tmp/");
    p.push(b"file");
    assert_eq!(p.as_bytes(), b"/tmp/file");
}

#[test]
fn push_onto_empty_path() {
    let mut p = FsPath::new();
    p.push(b"file");
    assert_eq!(p.as_bytes(), b"file");
}

#[test]
fn push_absolute_replaces() {
    let mut p = FsPath::from_str("/tmp/base");
    p.push(b"/etc/passwd");
    assert_eq!(p.as_bytes(), b"/etc/passwd");
    assert!(p.is_absolute());
}

#[test]
fn join_and_extend() {
    let base = FsPath::from_str("/a");
    let j = base.join(b"b");
    assert_eq!(j.as_bytes(), b"/a/b");
    assert_eq!(base.as_bytes(), b"/a");
    let mut e = base.duplicate();
    e.extend(&[b"x".to_vec(), b"y".to_vec(), b"z".to_vec()]);
    assert_eq!(e.as_bytes(), b"/a/x/y/z");
    assert_eq!(e.len(), 8);
}
