use busycrate::ls::{
    classify_operand, entry_is_hidden, render_listing, Args, DirListing, PathClass, PrintRules,
};
use busycrate::sys::{StatInfo, Timestamp};

fn bytes(s: &str) -> Vec<u8> {
    s.as_bytes().to_vec()
}

fn names(ws: &[&str]) -> Vec<Vec<u8>> {
    ws.iter().map(|w| w.as_bytes().to_vec()).collect()
}

#[test]
fn classification_of_operands() {
    let t = Timestamp { sec: 0, nsec: 0 };
    let dir = Ok(StatInfo { mode: 0o040755, atime: t, mtime: t });
    let file = Ok(StatInfo { mode: 0o100644, atime: t, mtime: t });
    let missing: Result<StatInfo, i32> = Err(2);
    assert_eq!(classify_operand(&dir, false), PathClass::Expand);
    assert_eq!(classify_operand(&dir, true), PathClass::Shallow);
    assert_eq!(classify_operand(&file, false), PathClass::Shallow);
    assert_eq!(classify_operand(&file, true), PathClass::Shallow);
    assert_eq!(classify_operand(&missing, false), PathClass::Missing);
    assert_eq!(classify_operand(&missing, true), PathClass::Missing);
}

#[test]
fn hidden_entries() {
    assert!(entry_is_hidden(&bytes(".b")));
    assert!(entry_is_hidden(&bytes(".")));
    assert!(!entry_is_hidden(&bytes("a")));
}

#[test]
fn single_directory_filters_hidden() {
    let shallow: Vec<Vec<u8>> = Vec::new();
    let dirs = vec![DirListing { path: bytes("somedir"), entries: Some(names(&["a", ".b", "c"])) }];
    let lines = render_listing(&shallow, &dirs, PrintRules { print_hidden: false });
    assert_eq!(lines, names(&["a", "c"]));
}

#[test]
fn single_directory_hidden_flag_shows_all() {
    let shallow: Vec<Vec<u8>> = Vec::new();
    let dirs = vec![DirListing { path: bytes("somedir"), entries: Some(names(&["a", ".b", "c"])) }];
    let lines = render_listing(&shallow, &dirs, PrintRules { print_hidden: true });
    assert_eq!(lines, names(&["a", ".b", "c"]));
}

#[test]
fn file_then_directory_gets_blank_line_and_header() {
    let shallow = vec![bytes("plainfile")];
    let dirs = vec![DirListing { path: bytes("somedir"), entries: Some(names(&["a", ".b", "c"])) }];
    let lines = render_listing(&shallow, &dirs, PrintRules { print_hidden: false });
    assert_eq!(lines, names(&["plainfile", "", "somedir:", "a", "c"]));
}

#[test]
fn two_directories_are_labelled_and_spaced() {
    let shallow: Vec<Vec<u8>> = Vec::new();
    let dirs = vec![
        DirListing { path: bytes("d1"), entries: Some(names(&["x"])) },
        DirListing { path: bytes("d2"), entries: Some(names(&["y"])) },
    ];
    let lines = render_listing(&shallow, &dirs, PrintRules { print_hidden: false });
    assert_eq!(lines, names(&["d1:", "x", "", "d2:", "y"]));
}

#[test]
fn unreadable_directory_contributes_nothing() {
    let shallow: Vec<Vec<u8>> = Vec::new();
    let dirs = vec![
        DirListing { path: bytes("d1"), entries: None },
        DirListing { path: bytes("d2"), entries: Some(names(&["y"])) },
    ];
    let lines = render_listing(&shallow, &dirs, PrintRules { print_hidden: false });
    assert_eq!(lines, names(&["d2:", "y"]));
}

#[test]
fn missing_path_does_not_change_status() {
    let args = Args {
        paths: vec![bytes("/tmp/busycrate_t_definitely_missing_path")],
        all: false,
        shallow_dirs: false,
    };
    assert_eq!(busycrate::ls::main(args), 0);
}

#[test]
fn listing_a_real_directory_succeeds() {
    nix::unistd::mkdir("/tmp/busycrate_t_lsdir", nix::sys::stat::Mode::from_bits_truncate(0o775))
        .ok();
    let args = Args { paths: vec![bytes("/tmp/busycrate_t_lsdir")], all: true, shallow_dirs: false };
    assert_eq!(busycrate::ls::main(args), 0);
    let args = Args { paths: vec![bytes("/tmp/busycrate_t_lsdir")], all: false, shallow_dirs: true };
    assert_eq!(busycrate::ls::main(args), 0);
}
