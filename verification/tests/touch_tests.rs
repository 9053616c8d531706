use busycrate::exit::ExitCode;
use busycrate::sys::Timestamp;
use busycrate::touch::{main, reconcile_times, Args};
use nix::sys::stat::UtimensatFlags;
use nix::sys::time::TimeSpec;

fn bytes(s: &str) -> Vec<u8> {
    s.as_bytes().to_vec()
}

fn path_present(path: &str) -> bool {
    nix::sys::stat::stat(path).is_ok()
}

fn unlink(path: &str) {
    nix::unistd::unlink(path).ok();
}

fn file_times(path: &str) -> (i64, i64, i64, i64) {
    let s = nix::sys::stat::stat(path).unwrap();
    (s.st_atime, s.st_atime_nsec, s.st_mtime, s.st_mtime_nsec)
}

fn set_times(path: &str, atime_sec: i64, mtime_sec: i64) {
    nix::sys::stat::utimensat(
        nix::fcntl::AT_FDCWD,
        path,
        &TimeSpec::new(atime_sec, 0),
        &TimeSpec::new(mtime_sec, 0),
        UtimensatFlags::FollowSymlink,
    )
    .unwrap();
}

fn touch_args(path: &str, create: bool, atime: bool, mtime: bool) -> Args {
    Args { paths: vec![bytes(path)], create, atime, mtime }
}

#[test]
fn touch_no_operands_is_usage_error() {
    let r = main(&Args { paths: Vec::new(), create: true, atime: true, mtime: true });
    assert!(r == ExitCode::InvalidUsage);
    assert_eq!(r.code(), 1);
}

#[test]
fn reconcile_keeps_the_untouched_time() {
    let now = Timestamp { sec: 500, nsec: 7 };
    let old_a = Timestamp { sec: 100, nsec: 1 };
    let old_m = Timestamp { sec: 200, nsec: 2 };
    assert_eq!(reconcile_times(true, false, now, old_a, old_m), (now, old_m));
    assert_eq!(reconcile_times(false, true, now, old_a, old_m), (old_a, now));
    assert_eq!(reconcile_times(true, true, now, old_a, old_m), (now, now));
    assert_eq!(reconcile_times(false, false, now, old_a, old_m), (old_a, old_m));
}

#[test]
fn missing_file_with_creation_disabled_is_success() {
    nix::unistd::chdir("/tmp").unwrap();
    unlink("busycrate_t_t1");
    let r = main(&touch_args("busycrate_t_t1", false, true, true));
    assert!(r == ExitCode::Success);
    assert!(!path_present("/tmp/busycrate_t_t1"));
}

#[test]
fn missing_file_is_created() {
    nix::unistd::chdir("/tmp").unwrap();
    unlink("busycrate_t_t2");
    let r = main(&touch_args("busycrate_t_t2", true, true, true));
    assert!(r == ExitCode::Success);
    assert!(path_present("/tmp/busycrate_t_t2"));
    unlink("busycrate_t_t2");
}

#[test]
fn atime_only_preserves_mtime_exactly() {
    nix::unistd::chdir("/tmp").unwrap();
    unlink("busycrate_t_t3");
    main(&touch_args("busycrate_t_t3", true, true, true));
    set_times("busycrate_t_t3", 1000, 2000);
    let r = main(&touch_args("busycrate_t_t3", true, true, false));
    assert!(r == ExitCode::Success);
    let (a_sec, _a_nsec, m_sec, m_nsec) = file_times("busycrate_t_t3");
    assert_ne!(a_sec, 1000);
    assert_eq!(m_sec, 2000);
    assert_eq!(m_nsec, 0);
    unlink("busycrate_t_t3");
}

#[test]
fn mtime_only_preserves_atime_exactly() {
    nix::unistd::chdir("/tmp").unwrap();
    unlink("busycrate_t_t4");
    main(&touch_args("busycrate_t_t4", true, true, true));
    set_times("busycrate_t_t4", 1000, 2000);
    let r = main(&touch_args("busycrate_t_t4", true, false, true));
    assert!(r == ExitCode::Success);
    let (a_sec, a_nsec, m_sec, _m_nsec) = file_times("busycrate_t_t4");
    assert_eq!(a_sec, 1000);
    assert_eq!(a_nsec, 0);
    assert_ne!(m_sec, 2000);
    unlink("busycrate_t_t4");
}

#[test]
fn failing_path_reported_but_rest_processed() {
    nix::unistd::chdir("/tmp").unwrap();
    nix::unistd::mkdir("busycrate_t_t6dir", nix::sys::stat::Mode::from_bits_truncate(0o775)).ok();
    unlink("busycrate_t_t6");
    // a directory cannot be opened for writing, so the first operand
    // fails; the second is still touched, and the failure's status wins
    let r = main(&Args {
        paths: vec![bytes("busycrate_t_t6dir"), bytes("busycrate_t_t6")],
        create: true,
        atime: true,
        mtime: true,
    });
    assert!(r == ExitCode::UnknownErr);
    assert_eq!(r.code(), 255);
    assert!(path_present("/tmp/busycrate_t_t6"));
    unlink("busycrate_t_t6");
    nix::unistd::unlinkat(
        nix::fcntl::AT_FDCWD,
        "busycrate_t_t6dir",
        nix::unistd::UnlinkatFlags::RemoveDir,
    )
    .ok();
}

#[test]
fn existing_file_both_times_updated() {
    nix::unistd::chdir("/tmp").unwrap();
    unlink("busycrate_t_t5");
    main(&touch_args("busycrate_t_t5", true, true, true));
    set_times("busycrate_t_t5", 1000, 2000);
    let r = main(&touch_args("busycrate_t_t5", false, true, true));
    assert!(r == ExitCode::Success);
    let (a_sec, _a_nsec, m_sec, _m_nsec) = file_times("busycrate_t_t5");
    assert_ne!(a_sec, 1000);
    assert_ne!(m_sec, 2000);
    unlink("busycrate_t_t5");
}
