//! Directory creation: create each named directory, optionally materializing
//! the missing ancestor components of its path first.

use crate::bytes::{bytes_range, concat4};
use crate::exit::{EXIT_CODE_INVALID_USAGE, EXIT_CODE_UNKNOWN_ERR};
use crate::sys;
use vstd::prelude::*;

verus! {

/// The permission bits every created directory gets: owner and group may
/// read, write and search; others may read and search.
pub const MKDIR_MODE_BITS: u32 = 0o775;

#[derive(Debug)]
pub struct Args {
    pub create_parents: bool,
    pub paths: Vec<Vec<u8>>,
}

/// The prefixes of `s` that end right before a slash at an index below `n`,
/// in order of the slash positions.
pub open spec fn slash_prefixes(s: Seq<u8>, n: int) -> Seq<Seq<u8>>
    decreases n,
{
    if n <= 0 {
        Seq::empty()
    } else if s[n - 1] == 47u8 {
        slash_prefixes(s, n - 1).push(s.subrange(0, n - 1))
    } else {
        slash_prefixes(s, n - 1)
    }
}

/// The ordered sequence of paths to create for one operand when ancestors
/// are materialized: one prefix per slash, and the whole path last unless it
/// ends with a slash.
pub open spec fn prefixes_spec(s: Seq<u8>) -> Seq<Seq<u8>> {
    if s.len() > 0 && s[s.len() - 1] != 47u8 {
        slash_prefixes(s, s.len() as int).push(s)
    } else {
        slash_prefixes(s, s.len() as int)
    }
}

/// Splits a path into the ordered prefixes at each of its slashes, the whole
/// path included last unless it ends with a slash: `a/b/c` gives `a`, `a/b`,
/// `a/b/c`.
pub fn path_prefixes(total_path: &Vec<u8>) -> (r: Vec<Vec<u8>>)
    ensures
        r.deep_view() == prefixes_spec(total_path@),
{
    let n = total_path.len();
    let mut out: Vec<Vec<u8>> = Vec::new();
    let mut i: usize = 0;
    while i < n
        invariant
            i <= n,
            n == total_path@.len(),
            out.deep_view() == slash_prefixes(total_path@, i as int),
        decreases n - i,
    {
        if total_path[i] == 47u8 {
            let pre = bytes_range(total_path, 0, i);
            out.push(pre);
        }
        proof {
            assert(out.deep_view() =~~= slash_prefixes(total_path@, i + 1));
        }
        i += 1;
    }
    if n > 0 && total_path[n - 1] != 47u8 {
        let whole = bytes_range(total_path, 0, n);
        out.push(whole);
        proof {
            assert(total_path@.subrange(0, n as int) =~= total_path@);
            assert(out.deep_view() =~~= prefixes_spec(total_path@));
        }
    }
    out
}

/// Whether a failed creation is silently tolerated: only an already-existing
/// path, and only while ancestors are being materialized, since intermediate
/// components legitimately may already exist.
pub open spec fn tolerated_spec(create_parents: bool, errno: int) -> bool {
    create_parents && errno == sys::EEXIST
}

/// One recorded outcome is a success (`None`) or a tolerated failure.
pub open spec fn tolerated_outcome(create_parents: bool, o: Option<i32>) -> bool {
    match o {
        None => true,
        Some(e) => tolerated_spec(create_parents, e as int),
    }
}

/// All recorded outcomes of one operand's creations are success or
/// tolerated failures.
pub open spec fn all_tolerated(create_parents: bool, outcomes: Seq<Option<i32>>) -> bool {
    forall|i: int| 0 <= i < outcomes.len() ==> tolerated_outcome(create_parents, #[trigger] outcomes[i])
}

/// The creations planned for one operand: every prefix of the path when
/// ancestors are materialized, the whole path alone otherwise.
pub open spec fn planned_creations(create_parents: bool, path: Seq<u8>) -> Seq<Seq<u8>> {
    if create_parents {
        prefixes_spec(path)
    } else {
        seq![path]
    }
}

/// Materializing ancestors is idempotent in the sense that already existing
/// components never fail the operand: under the parents flag, a run whose
/// every creation attempt either succeeds or finds its directory already
/// present — as every attempt of an immediate second run over the same path
/// does — has only tolerated outcomes, and so reports success.
pub proof fn lemma_parents_tolerate_existing(outcomes: Seq<Option<i32>>)
    requires
        forall|i: int|
            0 <= i < outcomes.len() ==> (#[trigger] outcomes[i]) is None || outcomes[i] == Some(
                sys::EEXIST,
            ),
    ensures
        all_tolerated(true, outcomes),
{
}

/// Creates every component of one operand in order and reports whether the
/// operand succeeded, together with the outcome of each creation attempt
/// (`None` for success, the errno otherwise). One outcome is recorded per
/// planned creation, in order; the attempts stop at the first failure that
/// is not tolerated, so only the last recorded outcome can be one. The
/// operand succeeds exactly when every recorded outcome is a success or a
/// tolerated failure, and then every planned creation was attempted.
pub fn create_one_path(create_parents: bool, total_path: &Vec<u8>) -> (r: (bool, Vec<Option<i32>>))
    ensures
        r.0 == all_tolerated(create_parents, r.1@),
        r.1@.len() <= planned_creations(create_parents, total_path@).len(),
        r.0 ==> r.1@.len() == planned_creations(create_parents, total_path@).len(),
        forall|i: int|
            0 <= i < r.1@.len() - 1 ==> tolerated_outcome(create_parents, #[trigger] r.1@[i]),
        !r.0 ==> r.1@.len() > 0 && !tolerated_outcome(create_parents, r.1@[r.1@.len() - 1]),
{
    let creations: Vec<Vec<u8>> = if create_parents {
        path_prefixes(total_path)
    } else {
        let mut single: Vec<Vec<u8>> = Vec::new();
        let whole = bytes_range(total_path, 0, total_path.len());
        single.push(whole);
        single
    };
    proof {
        if create_parents {
            assert(creations.deep_view().len() == creations@.len());
        }
        assert(creations@.len() == planned_creations(create_parents, total_path@).len());
    }
    let mut outcomes: Vec<Option<i32>> = Vec::new();
    let mut k: usize = 0;
    while k < creations.len()
        invariant
            k <= creations@.len(),
            outcomes@.len() == k,
            creations@.len() == planned_creations(create_parents, total_path@).len(),
            all_tolerated(create_parents, outcomes@),
        decreases creations@.len() - k,
    {
        match sys::sys_mkdir(creations[k].as_slice(), MKDIR_MODE_BITS) {
            Ok(()) => {
                outcomes.push(None);
            },
            Err(e) => {
                if create_parents && e == sys::EEXIST {
                    // allow directories to exist already when each component
                    // of the path is being created
                    outcomes.push(Some(e));
                } else {
                    let desc = sys::errno_message(e);
                    let line = concat4(
                        "Unable to create directory '",
                        creations[k].as_slice(),
                        "': ",
                        desc.as_slice(),
                    );
                    sys::err_line(line.as_slice());
                    outcomes.push(Some(e));
                    proof {
                        assert(outcomes@[outcomes@.len() - 1] == Some(e));
                        assert(!all_tolerated(create_parents, outcomes@));
                    }
                    return (false, outcomes);
                }
            },
        }
        k += 1;
    }
    (true, outcomes)
}

/// Creates each named directory, with ancestors first when the parents flag
/// is set. With no operands the run is a usage error; otherwise the run
/// succeeds exactly when every operand does, and any failure is reported as
/// the unknown-error status.
pub fn main(args: Args) -> (r: i32)
    ensures
        args.paths@.len() == 0 ==> r == EXIT_CODE_INVALID_USAGE,
        args.paths@.len() > 0 ==> (r == 0 || r == EXIT_CODE_UNKNOWN_ERR),
{
    if args.paths.len() == 0 {
        sys::err_line("missing file operand".as_bytes());
        sys::err_line("Try 'mkdir --help' for more information".as_bytes());
        return EXIT_CODE_INVALID_USAGE;
    }
    let mut status: i32 = 0;
    let ghost mut any_failed: bool = false;
    let mut p: usize = 0;
    while p < args.paths.len()
        invariant
            p <= args.paths@.len(),
            status == if any_failed {
                EXIT_CODE_UNKNOWN_ERR
            } else {
                0i32
            },
        decreases args.paths@.len() - p,
    {
        let (ok, _outcomes) = create_one_path(args.create_parents, &args.paths[p]);
        status = crate::exit::fold_unknown_err(status, ok);
        proof {
            if !ok {
                any_failed = true;
            }
        }
        p += 1;
    }
    status
}

} // verus!
