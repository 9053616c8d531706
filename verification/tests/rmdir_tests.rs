use busycrate::rmdir::{main, Args};

fn bytes(s: &str) -> Vec<u8> {
    s.as_bytes().to_vec()
}

fn path_present(path: &str) -> bool {
    nix::sys::stat::stat(path).is_ok()
}

fn make_dir(path: &str) {
    nix::unistd::mkdir(path, nix::sys::stat::Mode::from_bits_truncate(0o775)).ok();
}

fn remove_dir(path: &str) {
    nix::unistd::unlinkat(nix::fcntl::AT_FDCWD, path, nix::unistd::UnlinkatFlags::RemoveDir).ok();
}

#[test]
fn rmdir_no_operands_is_usage_error() {
    assert_eq!(main(Args { paths: Vec::new() }), 1);
}

#[test]
fn empty_directory_is_removed() {
    nix::unistd::chdir("/tmp").unwrap();
    remove_dir("busycrate_t_rm1");
    make_dir("busycrate_t_rm1");
    let r = main(Args { paths: vec![bytes("busycrate_t_rm1")] });
    assert_eq!(r, 0);
    assert!(!path_present("/tmp/busycrate_t_rm1"));
}

#[test]
fn non_empty_directory_fails_and_stays() {
    nix::unistd::chdir("/tmp").unwrap();
    remove_dir("busycrate_t_rm2/inner");
    remove_dir("busycrate_t_rm2");
    make_dir("busycrate_t_rm2");
    make_dir("busycrate_t_rm2/inner");
    let r = main(Args { paths: vec![bytes("busycrate_t_rm2")] });
    assert_eq!(r, 255);
    assert!(path_present("/tmp/busycrate_t_rm2"));
    assert!(path_present("/tmp/busycrate_t_rm2/inner"));
    remove_dir("busycrate_t_rm2/inner");
    remove_dir("busycrate_t_rm2");
}

#[test]
fn later_paths_still_processed_after_failure() {
    nix::unistd::chdir("/tmp").unwrap();
    remove_dir("busycrate_t_rm3");
    make_dir("busycrate_t_rm3");
    let r = main(
        Args { paths: vec![bytes("busycrate_t_rm_missing"), bytes("busycrate_t_rm3")] },
    );
    // the missing path fails, the empty directory is still removed, and
    // the status reflects the failure
    assert_eq!(r, 255);
    assert!(!path_present("/tmp/busycrate_t_rm3"));
}
