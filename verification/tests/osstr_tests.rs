use busycrate::osstr::OsStrHelperExt;

fn bytes(s: &str) -> Vec<u8> {
    s.as_bytes().to_vec()
}

#[test]
fn empty() {
    let os_str = bytes("");
    assert!(os_str.ends_with(b""));
}

#[test]
fn empty_suffix() {
    let empty = "";
    let filled = "text";

    assert!(bytes(filled).ends_with(empty.as_bytes()));
    assert!(!bytes(empty).ends_with(filled.as_bytes()));
}

#[test]
fn larger_suffix() {
    let os_str = bytes("text");
    assert!(!os_str.ends_with(b"suffix"));
}

#[test]
fn equal_strings_suffixes() {
    let first = "text";
    let second = "text";

    assert!(bytes(first).ends_with(second.as_bytes()));
    assert!(bytes(second).ends_with(first.as_bytes()));
}

#[test]
fn unequal_suffix() {
    let larger = "some text";
    let suffix = "text";

    assert!(bytes(larger).ends_with(suffix.as_bytes()));
    assert!(!bytes(suffix).ends_with(larger.as_bytes()));
}

#[test]
fn invalid_utf8() {
    let text = b"text\xff";
    let suffix = "ext";

    assert!(!text.to_vec().ends_with(suffix.as_bytes()));
}

#[test]
fn starts_with_prefixes() {
    assert!(bytes("some text").starts_with(b"some"));
    assert!(bytes("some text").starts_with(b""));
    assert!(!bytes("some").starts_with(b"some text"));
    assert!(!bytes("xome text").starts_with(b"some"));
}
