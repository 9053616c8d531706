use busycrate::cli::{parse_ls, parse_mkdir, parse_rmdir, parse_touch, CliError};

fn words(ws: &[&str]) -> Vec<Vec<u8>> {
    ws.iter().map(|w| w.as_bytes().to_vec()).collect()
}

fn bytes(s: &str) -> Vec<u8> {
    s.as_bytes().to_vec()
}

#[test]
fn ls_defaults() {
    let a = parse_ls(&words(&[])).unwrap();
    assert!(!a.all);
    assert!(!a.shallow_dirs);
    assert!(a.paths.is_empty());
}

#[test]
fn ls_short_flags_and_operands() {
    let a = parse_ls(&words(&["-a", "dir1", "-d", "dir2"])).unwrap();
    assert!(a.all);
    assert!(a.shallow_dirs);
    assert_eq!(a.paths, vec![bytes("dir1"), bytes("dir2")]);
}

#[test]
fn ls_long_flags() {
    let a = parse_ls(&words(&["--all", "--directory", "dir"])).unwrap();
    assert!(a.all);
    assert!(a.shallow_dirs);
    assert_eq!(a.paths, vec![bytes("dir")]);
}

#[test]
fn ls_short_cluster() {
    let a = parse_ls(&words(&["-ad", "dir"])).unwrap();
    assert!(a.all);
    assert!(a.shallow_dirs);
}

#[test]
fn ls_unknown_flag_is_error() {
    assert_eq!(parse_ls(&words(&["--bogus"])).unwrap_err(), CliError::BadFlag);
    assert_eq!(parse_ls(&words(&["-x"])).unwrap_err(), CliError::BadFlag);
}

#[test]
fn ls_help_flag() {
    assert_eq!(parse_ls(&words(&["--help"])).unwrap_err(), CliError::Help);
    assert_eq!(parse_ls(&words(&["-h"])).unwrap_err(), CliError::Help);
}

#[test]
fn double_dash_ends_flags() {
    let a = parse_ls(&words(&["--", "-a", "--all"])).unwrap();
    assert!(!a.all);
    assert_eq!(a.paths, vec![bytes("-a"), bytes("--all")]);
}

#[test]
fn single_dash_is_operand() {
    let a = parse_ls(&words(&["-"])).unwrap();
    assert_eq!(a.paths, vec![bytes("-")]);
}

#[test]
fn flags_after_operands_still_apply() {
    let a = parse_ls(&words(&["dir", "-a"])).unwrap();
    assert!(a.all);
    assert_eq!(a.paths, vec![bytes("dir")]);
}

#[test]
fn touch_default_updates_both() {
    let a = parse_touch(&words(&["f"])).unwrap();
    assert!(a.create);
    assert!(a.atime);
    assert!(a.mtime);
}

#[test]
fn touch_atime_only() {
    let a = parse_touch(&words(&["-a", "f"])).unwrap();
    assert!(a.atime);
    assert!(!a.mtime);
}

#[test]
fn touch_mtime_only() {
    let a = parse_touch(&words(&["--mtime", "f"])).unwrap();
    assert!(!a.atime);
    assert!(a.mtime);
}

#[test]
fn touch_both_restricting_flags() {
    let a = parse_touch(&words(&["-a", "-m", "f"])).unwrap();
    assert!(a.atime);
    assert!(a.mtime);
}

#[test]
fn touch_no_create() {
    let a = parse_touch(&words(&["-c", "f"])).unwrap();
    assert!(!a.create);
    let b = parse_touch(&words(&["--no-create", "f"])).unwrap();
    assert!(!b.create);
}

#[test]
fn mkdir_parents_flag() {
    let a = parse_mkdir(&words(&["-p", "d"])).unwrap();
    assert!(a.create_parents);
    let b = parse_mkdir(&words(&["d"])).unwrap();
    assert!(!b.create_parents);
    let c = parse_mkdir(&words(&["--parents", "d"])).unwrap();
    assert!(c.create_parents);
}

#[test]
fn rmdir_takes_only_operands() {
    let a = parse_rmdir(&words(&["d1", "d2"])).unwrap();
    assert_eq!(a.paths, vec![bytes("d1"), bytes("d2")]);
    assert_eq!(parse_rmdir(&words(&["-p"])).unwrap_err(), CliError::BadFlag);
}
