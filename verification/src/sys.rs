//! The system-call surface of the library.
//!
//! Every interaction with the operating system goes through one of the
//! trusted functions here. Each one makes a single outside call and converts
//! its arguments and result between plain values and the outside types.
//! What a call returns depends on the state of the filesystem, the clock or
//! the terminal, so these functions promise nothing of their outcomes; the
//! verified callers state what they do with every possible outcome.

use std::io::Write;
use vstd::prelude::*;

verus! {

/// Linux value of the errno that reports a missing path component.
pub const ENOENT: i32 = 2;

/// Linux value of the errno that reports an already existing path.
pub const EEXIST: i32 = 17;

/// Linux value of the open(2) flag that requests write-only access.
pub const O_WRONLY_BIT: i32 = 0x1;

/// Linux value of the open(2) flag that requests creation of a missing file.
pub const O_CREAT_BIT: i32 = 0x40;

/// Mask of the file-type bits inside a mode word, as Linux lays it out.
pub const S_IFMT_MASK: u32 = 0o170000;

/// File-type bits of a directory inside a mode word, as Linux lays it out.
pub const S_IFDIR_BITS: u32 = 0o040000;

/// A point in time as the kernel reports it: whole seconds and the
/// nanoseconds within the second.
#[derive(Clone, Copy, Debug, PartialEq, Eq, Structural)]
pub struct Timestamp {
    pub sec: i64,
    pub nsec: i64,
}

/// What a status query on a path reports: the mode word (file type and
/// permission bits) and the access and modification timestamps.
#[derive(Clone, Copy, Debug, PartialEq, Eq, Structural)]
pub struct StatInfo {
    pub mode: u32,
    pub atime: Timestamp,
    pub mtime: Timestamp,
}

/// Relies on nix::unistd::mkdir: creates the directory at `path` with the
/// given permission bits, and reports failure as the raw errno.
#[verifier::external_body]
pub(crate) fn sys_mkdir(path: &[u8], mode_bits: u32) -> (r: Result<(), i32>) {
    match nix::unistd::mkdir(path, nix::sys::stat::Mode::from_bits_truncate(mode_bits)) {
        Ok(()) => Ok(()),
        Err(e) => Err(e as i32),
    }
}

/// Relies on nix::unistd::unlinkat with the remove-directory flag, which
/// performs the rmdir(2) operation: removes the directory at `path` if it is
/// empty, and reports failure as the raw errno.
#[verifier::external_body]
pub(crate) fn sys_rmdir(path: &[u8]) -> (r: Result<(), i32>) {
    match nix::unistd::unlinkat(nix::fcntl::AT_FDCWD, path, nix::unistd::UnlinkatFlags::RemoveDir)
    {
        Ok(()) => Ok(()),
        Err(e) => Err(e as i32),
    }
}

/// Relies on nix::fcntl::open: opens `path` with the given open(2) flag and
/// permission bits, then releases the descriptor at once. `Err` carries the
/// errno of a failed open; `Ok(Some(e))` reports that the open succeeded but
/// releasing the descriptor failed with errno `e`.
#[verifier::external_body]
pub(crate) fn sys_open_close(path: &[u8], oflag_bits: i32, mode_bits: u32) -> (r: Result<
    Option<i32>,
    i32,
>) {
    match nix::fcntl::open(
        path,
        nix::fcntl::OFlag::from_bits_truncate(oflag_bits),
        nix::sys::stat::Mode::from_bits_truncate(mode_bits),
    ) {
        Ok(fd) => match nix::unistd::close(fd) {
            Ok(()) => Ok(None),
            Err(e) => Ok(Some(e as i32)),
        },
        Err(e) => Err(e as i32),
    }
}

/// Relies on nix::sys::stat::stat: queries the status of `path` and hands
/// back its mode word and timestamps, or the errno of the failure.
#[verifier::external_body]
pub(crate) fn sys_stat(path: &[u8]) -> (r: Result<StatInfo, i32>) {
    match nix::sys::stat::stat(path) {
        Ok(s) => Ok(
            StatInfo {
                mode: s.st_mode as u32,
                atime: Timestamp { sec: s.st_atime, nsec: s.st_atime_nsec },
                mtime: Timestamp { sec: s.st_mtime, nsec: s.st_mtime_nsec },
            },
        ),
        Err(e) => Err(e as i32),
    }
}

/// Relies on nix::sys::stat::utimensat on the current working directory:
/// sets the access and modification timestamps of the file at `path`, or
/// reports the errno of the failure.
#[verifier::external_body]
pub(crate) fn sys_utimens(path: &[u8], atime: Timestamp, mtime: Timestamp) -> (r: Result<
    (),
    i32,
>) {
    match nix::sys::stat::utimensat(
        nix::fcntl::AT_FDCWD,
        path,
        &nix::sys::time::TimeSpec::new(atime.sec, atime.nsec),
        &nix::sys::time::TimeSpec::new(mtime.sec, mtime.nsec),
        nix::sys::stat::UtimensatFlags::FollowSymlink,
    ) {
        Ok(()) => Ok(()),
        Err(e) => Err(e as i32),
    }
}

/// Relies on nix::time::clock_gettime on the realtime clock: reads the
/// system clock, or reports the errno of the failure.
#[verifier::external_body]
pub(crate) fn sys_clock_realtime() -> (r: Result<Timestamp, i32>) {
    match nix::time::clock_gettime(nix::time::ClockId::CLOCK_REALTIME) {
        Ok(ts) => Ok(Timestamp { sec: ts.tv_sec(), nsec: ts.tv_nsec() }),
        Err(e) => Err(e as i32),
    }
}

/// Relies on nix::unistd::getcwd: resolves the current working directory
/// as its raw bytes, or reports the errno of the failure.
#[verifier::external_body]
pub(crate) fn sys_getcwd() -> (r: Result<Vec<u8>, i32>) {
    match nix::unistd::getcwd() {
        Ok(p) => Ok(p.into_os_string().into_encoded_bytes()),
        Err(e) => Err(e as i32),
    }
}

/// Relies on nix::dir::Dir: opens the directory at `path` read-only and
/// collects the name of each raw entry in the order the enumeration yields
/// them, the self and parent entries included; an entry that could not be
/// read is kept in place as its errno. `Err` carries the errno of a failed
/// open.
#[verifier::external_body]
pub(crate) fn sys_read_dir(path: &[u8]) -> (r: Result<Vec<Result<Vec<u8>, i32>>, i32>) {
    let flags = nix::fcntl::OFlag::O_RDONLY;
    let mut dir = match nix::dir::Dir::open(path, flags, nix::sys::stat::Mode::empty()) {
        Ok(d) => d,
        Err(e) => return Err(e as i32),
    };
    let entries = dir.iter().map(|ent| match ent {
        Ok(en) => Ok(en.file_name().to_bytes().to_vec()),
        Err(e) => Err(e as i32),
    }).collect();
    Ok(entries)
}

/// Relies on std::io::stdout: writes the given bytes and a newline to the
/// standard output stream. Bytes that are not valid text are replaced
/// character-wise.
#[verifier::external_body]
pub(crate) fn out_line(line: &[u8]) {
    let text = String::from_utf8_lossy(line);
    let _ = writeln!(std::io::stdout(), "{}", text);
}

/// Relies on std::io::stderr: writes the given bytes and a newline to the
/// standard error stream. Bytes that are not valid text are replaced
/// character-wise.
#[verifier::external_body]
pub(crate) fn err_line(line: &[u8]) {
    let text = String::from_utf8_lossy(line);
    let _ = writeln!(std::io::stderr(), "{}", text);
}

/// Relies on nix::errno::Errno::desc: the short description of the given
/// errno, for diagnostic messages.
#[verifier::external_body]
pub(crate) fn errno_message(e: i32) -> (r: Vec<u8>) {
    nix::errno::Errno::from_raw(e).desc().as_bytes().to_vec()
}

} // verus!
