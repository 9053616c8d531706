//! File touching: create files, and update the access or modification
//! timestamps of existing ones. Most of the care here goes into updating
//! one timestamp while preserving the other bit for bit, since the kernel
//! call sets both together.

use crate::bytes::concat4;
use crate::exit::ExitCode;
use crate::sys;
use crate::sys::Timestamp;
use vstd::prelude::*;

verus! {

/// The permission bits a created file gets: owner, group and others may
/// read and write; nobody may execute.
pub const TOUCH_MODE_BITS: u32 = 0o666;

#[derive(Debug)]
pub struct Args {
    /// Files to touch
    pub paths: Vec<Vec<u8>>,
    /// Create the file if it doesn't exist
    pub create: bool,
    /// Update atime of the file if it exists
    pub atime: bool,
    /// Update mtime of the file if it exists
    pub mtime: bool,
}

/// Whether a failed open is silently skipped rather than reported: a
/// missing file is not an error when creation is disabled — that is just
/// the expected behavior of that option.
pub open spec fn open_failure_skipped(create: bool, errno: int) -> bool {
    !create && errno == sys::ENOENT
}

/// The statuses that processing one path can end with when it fails.
pub open spec fn path_outcome_ok(r: Result<(), ExitCode>) -> bool {
    match r {
        Ok(u) => true,
        Err(e) => e == ExitCode::UnknownErr || e == ExitCode::Time || e == ExitCode::Stat,
    }
}

/// The open(2) flags for touching a path: write-only access, with
/// file-creation semantics included only when the create flag is set.
pub fn touch_open_flags(create: bool) -> (r: i32)
    ensures
        r == if create {
            sys::O_WRONLY_BIT | sys::O_CREAT_BIT
        } else {
            sys::O_WRONLY_BIT
        },
{
    if create {
        // allow the user to disable file creation: with it off, opening
        // changes the times of an existing file and is a nop on a missing
        // one
        sys::O_WRONLY_BIT | sys::O_CREAT_BIT
    } else {
        sys::O_WRONLY_BIT
    }
}

/// Decides whether a failed open ends the path's processing successfully.
pub fn open_failure_is_tolerated(create: bool, errno: i32) -> (r: bool)
    ensures
        r == open_failure_skipped(create, errno as int),
{
    !create && errno == sys::ENOENT
}

/// The timestamps to apply: each field takes the current time when its
/// update was requested and keeps its prior value otherwise.
pub fn reconcile_times(
    update_atime: bool,
    update_mtime: bool,
    now: Timestamp,
    old_atime: Timestamp,
    old_mtime: Timestamp,
) -> (r: (Timestamp, Timestamp))
    ensures
        r.0 == if update_atime {
            now
        } else {
            old_atime
        },
        r.1 == if update_mtime {
            now
        } else {
            old_mtime
        },
{
    let new_atime = if update_atime { now } else { old_atime };
    let new_mtime = if update_mtime { now } else { old_mtime };
    (new_atime, new_mtime)
}

/// If the file's times are to be updated, sets them to the system time,
/// reading the untouched one back from the file first so that it is
/// preserved at its existing value. A clock-read failure, a status-query
/// failure and a metadata-update failure are reported as distinct statuses.
pub fn update_file_times(fpath: &Vec<u8>, update_atime: bool, update_mtime: bool) -> (r: Result<
    (),
    ExitCode,
>)
    ensures
        !update_atime && !update_mtime ==> r == Ok::<(), ExitCode>(()),
        r matches Err(e) ==> (e == ExitCode::Time || e == ExitCode::Stat),
{
    if update_atime || update_mtime {
        // only bother with these extra system calls if the times on this
        // file are actually expected to change
        let now = match sys::sys_clock_realtime() {
            Ok(t) => t,
            Err(e) => {
                let desc = sys::errno_message(e);
                let line = concat4("Unable to get system time: ", desc.as_slice(), "", &[]);
                sys::err_line(line.as_slice());
                return Err(ExitCode::Time);
            },
        };
        let new_atime: Timestamp;
        let new_mtime: Timestamp;
        if !update_atime || !update_mtime {
            // in this case, the times already set on the file are needed
            let st = match sys::sys_stat(fpath.as_slice()) {
                Ok(s) => s,
                Err(e) => {
                    let desc = sys::errno_message(e);
                    let line = concat4(
                        "Unable to stat file '",
                        fpath.as_slice(),
                        "': ",
                        desc.as_slice(),
                    );
                    sys::err_line(line.as_slice());
                    return Err(ExitCode::Stat);
                },
            };
            let pair = reconcile_times(update_atime, update_mtime, now, st.atime, st.mtime);
            new_atime = pair.0;
            new_mtime = pair.1;
        } else {
            new_atime = now;
            new_mtime = now;
        }
        if let Err(e) = sys::sys_utimens(fpath.as_slice(), new_atime, new_mtime) {
            let desc = sys::errno_message(e);
            let line = concat4(
                "Couldn't modify times on '",
                fpath.as_slice(),
                "': ",
                desc.as_slice(),
            );
            sys::err_line(line.as_slice());
            // Stat is a better description of the error here than Time,
            // since this modifies a file's metadata rather than reading or
            // setting clocks
            return Err(ExitCode::Stat);
        }
    }
    Ok(())
}

/// Touches one path: opens it for writing, creating it only when the create
/// flag is set, then updates the requested timestamps. A missing file with
/// creation disabled is skipped successfully; a failure to release the
/// descriptor is reported but never changes the outcome.
pub fn touch_one(fpath: &Vec<u8>, create: bool, update_atime: bool, update_mtime: bool) -> (r:
    Result<(), ExitCode>)
    ensures
        path_outcome_ok(r),
{
    let oflag_bits: i32 = touch_open_flags(create);
    match sys::sys_open_close(fpath.as_slice(), oflag_bits, TOUCH_MODE_BITS) {
        Ok(close_failure) => {
            if let Some(ce) = close_failure {
                // the descriptor is released regardless of any error; the
                // message is only there to let the user know that something
                // happened. Nothing was written, so nothing can be lost,
                // and the outcome does not change.
                let desc = sys::errno_message(ce);
                let line = concat4(
                    "Error closing file '",
                    fpath.as_slice(),
                    "': ",
                    desc.as_slice(),
                );
                sys::err_line(line.as_slice());
            }
            update_file_times(fpath, update_atime, update_mtime)
        },
        Err(e) => {
            if open_failure_is_tolerated(create, e) {
                Ok(())
            } else {
                let desc = sys::errno_message(e);
                let line = concat4(
                    "Unable to create file '",
                    fpath.as_slice(),
                    "': ",
                    desc.as_slice(),
                );
                sys::err_line(line.as_slice());
                Err(ExitCode::UnknownErr)
            }
        },
    }
}

/// Folds one path's outcome into the accumulated status: a failure
/// replaces whatever was accumulated before it, so of several failing
/// operands the last failure's status wins, without any merging or
/// prioritizing of failure kinds.
pub fn fold_last_failure(acc: Option<ExitCode>, outcome: Result<(), ExitCode>) -> (r: Option<
    ExitCode,
>)
    ensures
        r == match outcome {
            Ok(u) => acc,
            Err(e) => Some(e),
        },
{
    match outcome {
        Ok(()) => acc,
        Err(e) => Some(e),
    }
}

/// Touches every path in turn. With no operands the run is a usage error;
/// a path's failure is reported and the remaining paths are still
/// processed, the status of the last failure winning.
pub fn main_code(args: &Args) -> (r: Result<(), ExitCode>)
    ensures
        args.paths@.len() == 0 ==> r == Err::<(), ExitCode>(ExitCode::InvalidUsage),
        args.paths@.len() > 0 ==> path_outcome_ok(r),
{
    if args.paths.len() == 0 {
        sys::err_line("missing file operand".as_bytes());
        sys::err_line("Try 'touch --help' for more information".as_bytes());
        return Err(ExitCode::InvalidUsage);
    }
    let mut last_failure: Option<ExitCode> = None;
    let mut p: usize = 0;
    while p < args.paths.len()
        invariant
            p <= args.paths@.len(),
            match last_failure {
                None => true,
                Some(e) => path_outcome_ok(Err(e)),
            },
        decreases args.paths@.len() - p,
    {
        let outcome = touch_one(&args.paths[p], args.create, args.atime, args.mtime);
        last_failure = fold_last_failure(last_failure, outcome);
        p += 1;
    }
    match last_failure {
        None => Ok(()),
        Some(e) => Err(e),
    }
}

/// Runs the touch command and folds its outcome into an exit code.
pub fn main(args: &Args) -> (r: ExitCode)
    ensures
        args.paths@.len() == 0 ==> r == ExitCode::InvalidUsage,
        r == ExitCode::Success || r == ExitCode::InvalidUsage || r == ExitCode::UnknownErr || r
            == ExitCode::Time || r == ExitCode::Stat,
{
    match main_code(args) {
        Ok(()) => ExitCode::Success,
        Err(e) => e,
    }
}

} // verus!
