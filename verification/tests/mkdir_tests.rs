use busycrate::mkdir::{main, path_prefixes, Args};

fn bytes(s: &str) -> Vec<u8> {
    s.as_bytes().to_vec()
}

fn path_present(path: &str) -> bool {
    nix::sys::stat::stat(path).is_ok()
}

fn clean(paths: &[&str]) {
    for p in paths {
        nix::unistd::unlinkat(nix::fcntl::AT_FDCWD, *p, nix::unistd::UnlinkatFlags::RemoveDir)
            .ok();
    }
}

#[test]
fn prefixes_of_nested_path() {
    let r = path_prefixes(&bytes("a/b/c"));
    assert_eq!(r, vec![bytes("a"), bytes("a/b"), bytes("a/b/c")]);
}

#[test]
fn prefixes_of_plain_name() {
    assert_eq!(path_prefixes(&bytes("plain")), vec![bytes("plain")]);
}

#[test]
fn prefixes_keep_trailing_slash_out() {
    assert_eq!(path_prefixes(&bytes("a/b/")), vec![bytes("a"), bytes("a/b")]);
}

#[test]
fn mkdir_no_operands_is_usage_error() {
    let r = main(Args { create_parents: false, paths: Vec::new() });
    assert_eq!(r, 1);
    let r = main(Args { create_parents: true, paths: Vec::new() });
    assert_eq!(r, 1);
}

#[test]
fn parents_creates_all_components() {
    nix::unistd::chdir("/tmp").unwrap();
    clean(&["busycrate_t_mk1/x/y/z", "busycrate_t_mk1/x/y", "busycrate_t_mk1/x", "busycrate_t_mk1"]);
    // the first component already exists; the parents flag tolerates that
    nix::unistd::mkdir("busycrate_t_mk1", nix::sys::stat::Mode::from_bits_truncate(0o775)).unwrap();
    let r = main(Args { create_parents: true, paths: vec![bytes("busycrate_t_mk1/x/y/z")] });
    assert_eq!(r, 0);
    assert!(path_present("/tmp/busycrate_t_mk1/x"));
    assert!(path_present("/tmp/busycrate_t_mk1/x/y"));
    assert!(path_present("/tmp/busycrate_t_mk1/x/y/z"));
    clean(&["busycrate_t_mk1/x/y/z", "busycrate_t_mk1/x/y", "busycrate_t_mk1/x", "busycrate_t_mk1"]);
}

#[test]
fn without_parents_nested_path_fails_and_creates_nothing() {
    nix::unistd::chdir("/tmp").unwrap();
    clean(&["busycrate_t_mk2/x/y/z", "busycrate_t_mk2/x/y", "busycrate_t_mk2/x", "busycrate_t_mk2"]);
    let r = main(Args { create_parents: false, paths: vec![bytes("busycrate_t_mk2/x/y/z")] });
    assert_eq!(r, 255);
    assert!(!path_present("/tmp/busycrate_t_mk2"));
    assert!(!path_present("/tmp/busycrate_t_mk2/x"));
}

#[test]
fn parents_twice_is_idempotent() {
    nix::unistd::chdir("/tmp").unwrap();
    clean(&["busycrate_t_mk3/x/y", "busycrate_t_mk3/x", "busycrate_t_mk3"]);
    let first = main(Args { create_parents: true, paths: vec![bytes("busycrate_t_mk3/x/y")] });
    let second = main(Args { create_parents: true, paths: vec![bytes("busycrate_t_mk3/x/y")] });
    assert_eq!(first, 0);
    assert_eq!(second, 0);
    assert!(path_present("/tmp/busycrate_t_mk3/x/y"));
    clean(&["busycrate_t_mk3/x/y", "busycrate_t_mk3/x", "busycrate_t_mk3"]);
}

#[test]
fn plain_creation_fails_on_existing_directory() {
    nix::unistd::chdir("/tmp").unwrap();
    clean(&["busycrate_t_mk4"]);
    let first = main(Args { create_parents: false, paths: vec![bytes("busycrate_t_mk4")] });
    let second = main(Args { create_parents: false, paths: vec![bytes("busycrate_t_mk4")] });
    assert_eq!(first, 0);
    assert_eq!(second, 255);
    clean(&["busycrate_t_mk4"]);
}
