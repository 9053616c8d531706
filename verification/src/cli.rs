//! Argument parsing for the four commands.
//!
//! Each command takes boolean flags and positional operands. A word that
//! begins with one dash is a cluster of short flags, one that begins with
//! two dashes is a long flag, a bare double dash ends flag parsing, and
//! everything else — a single dash included — is an operand. A help flag
//! ends parsing at once; a word that looks like a flag but is not known to
//! the command is an error.

use crate::bytes::{bytes_eq, bytes_range, lemma_views_push, views_of};
use vstd::pervasive::VecAdditionalExecFns;
use vstd::prelude::*;
use vstd::string::StrSliceExecFns;
use vstd::string::StringSliceAdditionalSpecFns;

verus! {

/// How a parse ends without producing a command's arguments.
#[derive(Clone, Copy, Debug, PartialEq, Eq, Structural)]
pub enum CliError {
    /// A help flag was seen: print the usage text and end successfully.
    Help,
    /// A word that looks like a flag is not one the command knows.
    BadFlag,
}

/// A bare double dash, which ends flag parsing.
pub open spec fn is_terminator(a: Seq<u8>) -> bool {
    a.len() == 2 && a[0] == 45u8 && a[1] == 45u8
}

/// A long flag: two dashes and a name.
pub open spec fn is_long(a: Seq<u8>) -> bool {
    a.len() > 2 && a[0] == 45u8 && a[1] == 45u8
}

/// A cluster of short flags: one dash and at least one flag letter.
pub open spec fn is_short(a: Seq<u8>) -> bool {
    a.len() >= 2 && a[0] == 45u8 && a[1] != 45u8
}

/// The position of `c` in the command's short-flag letters at or after
/// `i`, or -1 when it is not there.
pub open spec fn short_idx_from(shorts: Seq<u8>, c: u8, i: int) -> int
    decreases shorts.len() - i,
{
    if i < 0 || i >= shorts.len() {
        -1
    } else if shorts[i] == c {
        i
    } else {
        short_idx_from(shorts, c, i + 1)
    }
}

/// The position of `name` in the command's long-flag names at or after
/// `i`, or -1 when it is not there.
pub open spec fn long_idx_from(longs: Seq<Seq<u8>>, name: Seq<u8>, i: int) -> int
    decreases longs.len() - i,
{
    if i < 0 || i >= longs.len() {
        -1
    } else if longs[i] == name {
        i
    } else {
        long_idx_from(longs, name, i + 1)
    }
}

/// The flag switches after applying one cluster of short flags from byte
/// `k` on: each letter sets its flag, `h` asks for help, and an unknown
/// letter is an error.
pub open spec fn cluster_spec(shorts: Seq<u8>, a: Seq<u8>, k: int, flags: Seq<bool>) -> Result<
    Seq<bool>,
    CliError,
>
    decreases a.len() - k,
{
    if k < 1 || k >= a.len() {
        Ok(flags)
    } else if a[k] == 104u8 {
        Err(CliError::Help)
    } else {
        let j = short_idx_from(shorts, a[k], 0);
        if j < 0 || j >= flags.len() {
            Err(CliError::BadFlag)
        } else {
            cluster_spec(shorts, a, k + 1, flags.update(j, true))
        }
    }
}

/// The parse of the words from position `i` on, given the flag switches
/// and operands gathered so far and whether a double dash was already
/// seen. The result is the final switches and operands, or how the parse
/// ended early.
pub open spec fn parse_from(
    shorts: Seq<u8>,
    longs: Seq<Seq<u8>>,
    args: Seq<Seq<u8>>,
    i: int,
    term: bool,
    flags: Seq<bool>,
    ops: Seq<Seq<u8>>,
) -> Result<(Seq<bool>, Seq<Seq<u8>>), CliError>
    decreases args.len() - i,
{
    if i < 0 || i >= args.len() {
        Ok((flags, ops))
    } else {
        let a = args[i];
        if term {
            parse_from(shorts, longs, args, i + 1, true, flags, ops.push(a))
        } else if is_terminator(a) {
            parse_from(shorts, longs, args, i + 1, true, flags, ops)
        } else if is_long(a) {
            let name = a.subrange(2, a.len() as int);
            if name == "help".spec_bytes() {
                Err(CliError::Help)
            } else {
                let j = long_idx_from(longs, name, 0);
                if j < 0 || j >= flags.len() {
                    Err(CliError::BadFlag)
                } else {
                    parse_from(shorts, longs, args, i + 1, term, flags.update(j, true), ops)
                }
            }
        } else if is_short(a) {
            match cluster_spec(shorts, a, 1, flags) {
                Ok(f2) => parse_from(shorts, longs, args, i + 1, term, f2, ops),
                Err(e) => Err(e),
            }
        } else {
            parse_from(shorts, longs, args, i + 1, term, flags, ops.push(a))
        }
    }
}

/// The parse of a whole word list, starting with every switch off.
pub open spec fn parse_spec(
    shorts: Seq<u8>,
    longs: Seq<Seq<u8>>,
    args: Seq<Seq<u8>>,
) -> Result<(Seq<bool>, Seq<Seq<u8>>), CliError> {
    parse_from(
        shorts,
        longs,
        args,
        0,
        false,
        Seq::new(shorts.len(), |k: int| false),
        Seq::empty(),
    )
}

/// Finds `c` among the short-flag letters.
fn find_short(shorts: &Vec<u8>, c: u8) -> (r: Option<usize>)
    ensures
        match r {
            Some(j) => j < shorts@.len() && short_idx_from(shorts@, c, 0) == j as int,
            None => short_idx_from(shorts@, c, 0) == -1,
        },
{
    let mut i: usize = 0;
    while i < shorts.len()
        invariant
            i <= shorts@.len(),
            short_idx_from(shorts@, c, 0) == short_idx_from(shorts@, c, i as int),
        decreases shorts@.len() - i,
    {
        if shorts[i] == c {
            return Some(i);
        }
        i += 1;
    }
    None
}

/// Finds `name` among the long-flag names.
fn find_long(longs: &Vec<Vec<u8>>, name: &[u8]) -> (r: Option<usize>)
    ensures
        match r {
            Some(j) => j < longs@.len() && long_idx_from(views_of(longs@), name@, 0) == j as int,
            None => long_idx_from(views_of(longs@), name@, 0) == -1,
        },
{
    let mut i: usize = 0;
    while i < longs.len()
        invariant
            i <= longs@.len(),
            long_idx_from(views_of(longs@), name@, 0) == long_idx_from(
                views_of(longs@),
                name@,
                i as int,
            ),
        decreases longs@.len() - i,
    {
        proof {
            assert(views_of(longs@)[i as int] == longs@[i as int]@);
        }
        if bytes_eq(longs[i].as_slice(), name) {
            return Some(i);
        }
        i += 1;
    }
    None
}

/// Applies one cluster of short flags to the switches.
fn apply_cluster(shorts: &Vec<u8>, a: &Vec<u8>, flags: &mut Vec<bool>) -> (r: Result<(), CliError>)
    requires
        old(flags)@.len() == shorts@.len(),
    ensures
        final(flags)@.len() == old(flags)@.len(),
        match r {
            Ok(()) => cluster_spec(shorts@, a@, 1, old(flags)@) == Ok::<Seq<bool>, CliError>(
                final(flags)@,
            ),
            Err(e) => cluster_spec(shorts@, a@, 1, old(flags)@) == Err::<Seq<bool>, CliError>(e),
        },
{
    let mut k: usize = 1;
    while k < a.len()
        invariant
            1 <= k,
            flags@.len() == shorts@.len(),
            flags@.len() == old(flags)@.len(),
            cluster_spec(shorts@, a@, 1, old(flags)@) == cluster_spec(shorts@, a@, k as int, flags@),
        decreases a@.len() - k,
    {
        let c = a[k];
        if c == 104u8 {
            return Err(CliError::Help);
        }
        match find_short(shorts, c) {
            None => {
                return Err(CliError::BadFlag);
            },
            Some(j) => {
                flags.set(j, true);
            },
        }
        k += 1;
    }
    Ok(())
}

/// Parses a word list against a command's flag table: each known flag
/// sets its switch, and the words that are not flags are gathered as
/// operands in order.
pub fn parse_flags(shorts: &Vec<u8>, longs: &Vec<Vec<u8>>, args: &Vec<Vec<u8>>) -> (r: Result<
    (Vec<bool>, Vec<Vec<u8>>),
    CliError,
>)
    requires
        shorts@.len() == longs@.len(),
    ensures
        match r {
            Ok(p) => p.0@.len() == shorts@.len() && parse_spec(
                shorts@,
                views_of(longs@),
                views_of(args@),
            ) == Ok::<(Seq<bool>, Seq<Seq<u8>>), CliError>((p.0@, views_of(p.1@))),
            Err(e) => parse_spec(shorts@, views_of(longs@), views_of(args@)) == Err::<
                (Seq<bool>, Seq<Seq<u8>>),
                CliError,
            >(e),
        },
{
    let mut flags: Vec<bool> = Vec::new();
    let mut n: usize = 0;
    while n < shorts.len()
        invariant
            n <= shorts@.len(),
            flags@ =~= Seq::new(n as nat, |k: int| false),
        decreases shorts@.len() - n,
    {
        flags.push(false);
        n += 1;
    }
    proof {
        assert(flags@ =~= Seq::new(shorts@.len(), |k: int| false));
    }
    let ghost init_flags = flags@;
    let mut ops: Vec<Vec<u8>> = Vec::new();
    let mut term: bool = false;
    let ghost sh = shorts@;
    let ghost lo = views_of(longs@);
    let ghost av = views_of(args@);
    proof {
        assert(views_of(ops@) =~= Seq::<Seq<u8>>::empty());
        assert(parse_spec(sh, lo, av) == parse_from(sh, lo, av, 0, false, flags@, views_of(ops@)));
    }
    let mut i: usize = 0;
    while i < args.len()
        invariant
            i <= args@.len(),
            av == views_of(args@),
            sh == shorts@,
            lo == views_of(longs@),
            shorts@.len() == longs@.len(),
            flags@.len() == shorts@.len(),
            parse_spec(sh, lo, av) == parse_from(sh, lo, av, i as int, term, flags@, views_of(ops@)),
        decreases args@.len() - i,
    {
        proof {
            assert(av[i as int] == args@[i as int]@);
        }
        let a = &args[i];
        if term {
            let op = bytes_range(a, 0, a.len());
            proof {
                assert(op@ =~= av[i as int]);
            }
            let ghost op_snap = op;
            let ghost before = ops@;
            ops.push(op);
            proof {
                lemma_views_push(before, op_snap);
            }
        } else if a.len() == 2 && a[0] == 45u8 && a[1] == 45u8 {
            term = true;
        } else if a.len() > 2 && a[0] == 45u8 && a[1] == 45u8 {
            let name = bytes_range(a, 2, a.len());
            proof {
                assert(name@ =~= av[i as int].subrange(2, av[i as int].len() as int));
            }
            if bytes_eq(name.as_slice(), "help".as_bytes()) {
                return Err(CliError::Help);
            }
            match find_long(longs, name.as_slice()) {
                None => {
                    return Err(CliError::BadFlag);
                },
                Some(j) => {
                    flags.set(j, true);
                },
            }
        } else if a.len() >= 2 && a[0] == 45u8 {
            let cluster = bytes_range(a, 0, a.len());
            proof {
                assert(cluster@ =~= av[i as int]);
            }
            if let Err(e) = apply_cluster(shorts, &cluster, &mut flags) {
                return Err(e);
            }
        } else {
            let op = bytes_range(a, 0, a.len());
            proof {
                assert(op@ =~= av[i as int]);
            }
            let ghost op_snap = op;
            let ghost before = ops@;
            ops.push(op);
            proof {
                lemma_views_push(before, op_snap);
            }
        }
        i += 1;
    }
    Ok((flags, ops))
}

/// The listing command's short flags: `a` and `d`.
pub open spec fn ls_shorts() -> Seq<u8> {
    seq![97u8, 100u8]
}

/// The listing command's long flags: `all` and `directory`.
pub open spec fn ls_longs() -> Seq<Seq<u8>> {
    seq!["all".spec_bytes(), "directory".spec_bytes()]
}

/// Parses the listing command's words: the hidden-entries flag, the
/// shallow-directories flag, and the paths to list.
pub fn parse_ls(args: &Vec<Vec<u8>>) -> (r: Result<crate::ls::Args, CliError>)
    ensures
        ({
            let p = parse_spec(ls_shorts(), ls_longs(), views_of(args@));
            match (r, p) {
                (Ok(a), Ok(q)) => a.all == q.0[0] && a.shallow_dirs == q.0[1] && views_of(a.paths@)
                    == q.1,
                (Err(e), Err(e2)) => e == e2,
                _ => false,
            }
        }),
{
    let mut shorts: Vec<u8> = Vec::new();
    shorts.push(97u8);
    shorts.push(100u8);
    let mut longs: Vec<Vec<u8>> = Vec::new();
    longs.push("all".as_bytes_vec());
    longs.push("directory".as_bytes_vec());
    proof {
        assert(shorts@ =~= ls_shorts());
        assert(views_of(longs@) =~~= ls_longs());
    }
    match parse_flags(&shorts, &longs, args) {
        Ok((flags, paths)) => Ok(
            crate::ls::Args { paths, all: flags[0], shallow_dirs: flags[1] },
        ),
        Err(e) => Err(e),
    }
}

/// The touch command's short flags: `c`, `a` and `m`.
pub open spec fn touch_shorts() -> Seq<u8> {
    seq![99u8, 97u8, 109u8]
}

/// The touch command's long flags: `no-create`, `atime` and `mtime`.
pub open spec fn touch_longs() -> Seq<Seq<u8>> {
    seq!["no-create".spec_bytes(), "atime".spec_bytes(), "mtime".spec_bytes()]
}

/// Parses the touch command's words. Files are created unless creation
/// was switched off, and both timestamps are updated unless exactly one
/// of the restricting flags narrows the update to its own.
pub fn parse_touch(args: &Vec<Vec<u8>>) -> (r: Result<crate::touch::Args, CliError>)
    ensures
        ({
            let p = parse_spec(touch_shorts(), touch_longs(), views_of(args@));
            match (r, p) {
                (Ok(a), Ok(q)) => a.create == !q.0[0] && a.atime == (q.0[1] || !q.0[2]) && a.mtime
                    == (q.0[2] || !q.0[1]) && views_of(a.paths@) == q.1,
                (Err(e), Err(e2)) => e == e2,
                _ => false,
            }
        }),
{
    let mut shorts: Vec<u8> = Vec::new();
    shorts.push(99u8);
    shorts.push(97u8);
    shorts.push(109u8);
    let mut longs: Vec<Vec<u8>> = Vec::new();
    longs.push("no-create".as_bytes_vec());
    longs.push("atime".as_bytes_vec());
    longs.push("mtime".as_bytes_vec());
    proof {
        assert(shorts@ =~= touch_shorts());
        assert(views_of(longs@) =~~= touch_longs());
    }
    match parse_flags(&shorts, &longs, args) {
        Ok((flags, paths)) => {
            let no_create = flags[0];
            let atime_only = flags[1];
            let mtime_only = flags[2];
            Ok(
                crate::touch::Args {
                    paths,
                    create: !no_create,
                    atime: atime_only || !mtime_only,
                    mtime: mtime_only || !atime_only,
                },
            )
        },
        Err(e) => Err(e),
    }
}

/// The directory-creation command's short flag: `p`.
pub open spec fn mkdir_shorts() -> Seq<u8> {
    seq![112u8]
}

/// The directory-creation command's long flag: `parents`.
pub open spec fn mkdir_longs() -> Seq<Seq<u8>> {
    seq!["parents".spec_bytes()]
}

/// Parses the directory-creation command's words: the parents flag and
/// the directories to create.
pub fn parse_mkdir(args: &Vec<Vec<u8>>) -> (r: Result<crate::mkdir::Args, CliError>)
    ensures
        ({
            let p = parse_spec(mkdir_shorts(), mkdir_longs(), views_of(args@));
            match (r, p) {
                (Ok(a), Ok(q)) => a.create_parents == q.0[0] && views_of(a.paths@) == q.1,
                (Err(e), Err(e2)) => e == e2,
                _ => false,
            }
        }),
{
    let mut shorts: Vec<u8> = Vec::new();
    shorts.push(112u8);
    let mut longs: Vec<Vec<u8>> = Vec::new();
    longs.push("parents".as_bytes_vec());
    proof {
        assert(shorts@ =~= mkdir_shorts());
        assert(views_of(longs@) =~~= mkdir_longs());
    }
    match parse_flags(&shorts, &longs, args) {
        Ok((flags, paths)) => Ok(crate::mkdir::Args { create_parents: flags[0], paths }),
        Err(e) => Err(e),
    }
}

/// Parses the directory-removal command's words: it has no flags of its
/// own, only the directories to remove.
pub fn parse_rmdir(args: &Vec<Vec<u8>>) -> (r: Result<crate::rmdir::Args, CliError>)
    ensures
        ({
            let p = parse_spec(Seq::empty(), Seq::empty(), views_of(args@));
            match (r, p) {
                (Ok(a), Ok(q)) => views_of(a.paths@) == q.1,
                (Err(e), Err(e2)) => e == e2,
                _ => false,
            }
        }),
{
    let shorts: Vec<u8> = Vec::new();
    let longs: Vec<Vec<u8>> = Vec::new();
    proof {
        assert(shorts@ =~= Seq::<u8>::empty());
        assert(views_of(longs@) =~~= Seq::<Seq<u8>>::empty());
    }
    match parse_flags(&shorts, &longs, args) {
        Ok((_flags, paths)) => Ok(crate::rmdir::Args { paths }),
        Err(e) => Err(e),
    }
}

} // verus!
