//! Directory listing: print the entries of each named directory, or the
//! path itself for plain files and for directories in shallow mode. The
//! raw enumeration surfaces the self and parent pseudo-entries on purpose;
//! hiding is decided here, by the leading-dot rule alone.

use crate::bytes::{concat4, lemma_views_push, views_of};
use crate::exit::{EXIT_CODE_NO_CWD, EXIT_CODE_READ_DIR};
use crate::sys;
use vstd::prelude::*;

verus! {

#[derive(Debug)]
pub struct Args {
    pub paths: Vec<Vec<u8>>,
    pub all: bool,
    pub shallow_dirs: bool,
}

#[derive(Clone, Copy)]
pub struct PrintRules {
    pub print_hidden: bool,
}

/// One directory that was selected for expansion: its path and the entry
/// names that could be read from it, or nothing when opening it failed.
pub struct DirListing {
    pub path: Vec<u8>,
    pub entries: Option<Vec<Vec<u8>>>,
}

/// Every entry name of a listing is non-empty, so that hiding can look at
/// its first byte. A raw directory enumeration never yields an empty name.
pub open spec fn wf_listing(d: DirListing) -> bool {
    match d.entries {
        None => true,
        Some(es) => forall|j: int| 0 <= j < es@.len() ==> (#[trigger] es@[j])@.len() > 0,
    }
}

/// How one operand is treated after its status query.
#[derive(Clone, Copy, Debug, PartialEq, Eq, Structural)]
pub enum PathClass {
    /// The query failed: the operand is reported as missing and then
    /// skipped, with no status change.
    Missing,
    /// The operand is printed as given: it is no directory, or shallow
    /// mode reports directories as themselves.
    Shallow,
    /// The operand is an existing directory whose contents are listed.
    Expand,
}

/// The mode word a status query reported, or nothing when it failed.
pub open spec fn stat_mode_of(r: Result<sys::StatInfo, i32>) -> Option<u32> {
    match r {
        Ok(st) => Some(st.mode),
        Err(e) => None,
    }
}

/// The classification of one operand from its status-query outcome: a
/// failed query means a missing operand; an existing directory is expanded
/// unless shallow mode is on; anything else is printed as given.
pub open spec fn classify_spec(stat: Option<u32>, shallow_dirs: bool) -> PathClass {
    match stat {
        None => PathClass::Missing,
        Some(mode) => if (mode & sys::S_IFMT_MASK) == sys::S_IFDIR_BITS && !shallow_dirs {
            PathClass::Expand
        } else {
            PathClass::Shallow
        },
    }
}

/// Decides how one operand is treated.
pub fn classify_operand(stat: &Result<sys::StatInfo, i32>, shallow_dirs: bool) -> (r: PathClass)
    ensures
        r == classify_spec(stat_mode_of(*stat), shallow_dirs),
{
    match stat {
        Err(_) => PathClass::Missing,
        Ok(st) => {
            if (st.mode & sys::S_IFMT_MASK) == sys::S_IFDIR_BITS && !shallow_dirs {
                PathClass::Expand
            } else {
                PathClass::Shallow
            }
        },
    }
}

/// The shallow and expanded lists that the operands and their status-query
/// outcomes partition into, in operand order. A missing operand falls into
/// neither list.
pub open spec fn partition_spec(
    paths: Seq<Seq<u8>>,
    stats: Seq<Option<u32>>,
    shallow_dirs: bool,
) -> (Seq<Seq<u8>>, Seq<Seq<u8>>)
    decreases paths.len(),
{
    if paths.len() <= 0 || paths.len() != stats.len() {
        (Seq::empty(), Seq::empty())
    } else {
        let prev = partition_spec(paths.drop_last(), stats.drop_last(), shallow_dirs);
        match classify_spec(stats.last(), shallow_dirs) {
            PathClass::Missing => prev,
            PathClass::Shallow => (prev.0.push(paths.last()), prev.1),
            PathClass::Expand => (prev.0, prev.1.push(paths.last())),
        }
    }
}

/// The entry names kept from one raw enumeration: the names of the entries
/// that could be read, in order, an empty name left out.
pub open spec fn ok_names_spec(raw: Seq<Result<Vec<u8>, i32>>) -> Seq<Seq<u8>>
    decreases raw.len(),
{
    if raw.len() <= 0 {
        Seq::empty()
    } else {
        let prev = ok_names_spec(raw.drop_last());
        match raw.last() {
            Ok(name) => if name@.len() > 0 {
                prev.push(name@)
            } else {
                prev
            },
            Err(e) => prev,
        }
    }
}

/// Collects the readable entry names of one raw enumeration, reporting
/// each entry that could not be read; an unreadable entry never changes
/// the run's status. An empty name is guarded against so that hiding can
/// look at the first byte, though a raw enumeration never yields one.
fn collect_ok_names(dpath: &Vec<u8>, raw: &Vec<Result<Vec<u8>, i32>>) -> (names: Vec<Vec<u8>>)
    ensures
        views_of(names@) == ok_names_spec(raw@),
        forall|j: int| 0 <= j < names@.len() ==> (#[trigger] names@[j])@.len() > 0,
{
    let mut names: Vec<Vec<u8>> = Vec::new();
    let mut k: usize = 0;
    while k < raw.len()
        invariant
            k <= raw@.len(),
            views_of(names@) == ok_names_spec(raw@.take(k as int)),
            forall|j: int| 0 <= j < names@.len() ==> (#[trigger] names@[j])@.len() > 0,
        decreases raw@.len() - k,
    {
        proof {
            assert(raw@.take(k + 1).drop_last() =~= raw@.take(k as int));
            assert(raw@.take(k + 1).last() == raw@[k as int]);
        }
        match &raw[k] {
            Ok(name) => {
                if name.len() > 0 {
                    let copied = crate::bytes::bytes_range(name, 0, name.len());
                    proof {
                        assert(copied@ =~= name@);
                    }
                    let ghost copied_snap = copied;
                    let ghost before = names@;
                    names.push(copied);
                    proof {
                        lemma_views_push(before, copied_snap);
                    }
                }
            },
            Err(e) => {
                let desc = sys::errno_message(*e);
                let line = concat4("Error reading ", dpath.as_slice(), ": ", desc.as_slice());
                sys::err_line(line.as_slice());
            },
        }
        proof {
            assert(views_of(names@) =~~= ok_names_spec(raw@.take(k + 1)));
        }
        k += 1;
    }
    proof {
        assert(raw@.take(raw@.len() as int) =~= raw@);
    }
    names
}

/// A name is hidden exactly when it starts with a dot. Following the
/// portable rule, nothing else — no filesystem attribute bit — makes an
/// entry hidden.
pub open spec fn hidden_spec(name: Seq<u8>) -> bool {
    name.len() > 0 && name[0] == 46u8
}

/// Whether an entry of the given name is printed.
pub open spec fn should_print_spec(name: Seq<u8>, print_hidden: bool) -> bool {
    print_hidden || !hidden_spec(name)
}

/// Decides whether an entry name is hidden.
pub fn entry_is_hidden(entry_name: &Vec<u8>) -> (r: bool)
    requires
        entry_name@.len() > 0,
    ensures
        r == hidden_spec(entry_name@),
{
    entry_name[0] == 46u8
}

/// Appends the entry to the output lines unless the rules hide it.
pub fn maybe_print_entry(entry: Vec<u8>, print_rules: PrintRules, out: &mut Vec<Vec<u8>>)
    requires
        entry@.len() > 0,
    ensures
        final(out)@ == if should_print_spec(entry@, print_rules.print_hidden) {
            old(out)@.push(entry)
        } else {
            old(out)@
        },
{
    if !print_rules.print_hidden && entry_is_hidden(&entry) {
        return ;
    }
    out.push(entry);
}

/// The visible entries of a directory, in enumeration order.
pub open spec fn visible_spec(names: Seq<Seq<u8>>, print_hidden: bool) -> Seq<Seq<u8>>
    decreases names.len(),
{
    if names.len() <= 0 {
        Seq::empty()
    } else {
        let rest = visible_spec(names.drop_last(), print_hidden);
        if should_print_spec(names.last(), print_hidden) {
            rest.push(names.last())
        } else {
            rest
        }
    }
}

/// The header line that labels a directory's group: the path, a colon.
pub open spec fn header_spec(path: Seq<u8>) -> Seq<u8> {
    path.push(58u8)
}

/// The lines one successfully read directory contributes: a blank line
/// when an earlier group was printed, a header when groups are labelled,
/// then its visible entries.
pub open spec fn group_spec(
    path: Seq<u8>,
    names: Seq<Seq<u8>>,
    print_hidden: bool,
    spacing: bool,
    label: bool,
) -> Seq<Seq<u8>> {
    let blank: Seq<Seq<u8>> = if spacing {
        seq![Seq::<u8>::empty()]
    } else {
        Seq::empty()
    };
    let head: Seq<Seq<u8>> = if label {
        seq![header_spec(path)]
    } else {
        Seq::empty()
    };
    blank + head + visible_spec(names, print_hidden)
}

/// The lines of all directory groups in order. A directory that could not
/// be opened contributes nothing and leaves the spacing state unchanged;
/// after a printed group every later group is preceded by a blank line.
pub open spec fn dirs_lines_spec(
    dirs: Seq<DirListing>,
    print_hidden: bool,
    spacing: bool,
    label: bool,
) -> Seq<Seq<u8>>
    decreases dirs.len(),
{
    if dirs.len() <= 0 {
        Seq::empty()
    } else {
        let rest = dirs.subrange(1, dirs.len() as int);
        match dirs[0].entries {
            None => dirs_lines_spec(rest, print_hidden, spacing, label),
            Some(es) => group_spec(dirs[0].path@, es.deep_view(), print_hidden, spacing, label)
                + dirs_lines_spec(rest, print_hidden, true, label),
        }
    }
}

/// Every stdout line of a listing run: the shallow paths first, in the
/// order given, then the directory groups. Groups are spaced from the
/// start when shallow paths were printed, and labelled when shallow paths
/// were printed or more than one directory was selected for expansion.
pub open spec fn listing_lines_spec(
    shallow: Seq<Seq<u8>>,
    dirs: Seq<DirListing>,
    print_hidden: bool,
) -> Seq<Seq<u8>> {
    shallow + dirs_lines_spec(
        dirs,
        print_hidden,
        shallow.len() > 0,
        shallow.len() > 0 || dirs.len() > 1,
    )
}

/// Appends the visible entries of one directory to the output lines.
fn append_visible(entries: &Vec<Vec<u8>>, print_rules: PrintRules, out: &mut Vec<Vec<u8>>)
    requires
        forall|i: int| 0 <= i < entries@.len() ==> (#[trigger] entries@[i])@.len() > 0,
    ensures
        views_of(final(out)@) == views_of(old(out)@) + visible_spec(
            entries.deep_view(),
            print_rules.print_hidden,
        ),
{
    let ghost base = views_of(old(out)@);
    let mut i: usize = 0;
    while i < entries.len()
        invariant
            i <= entries@.len(),
            forall|k: int| 0 <= k < entries@.len() ==> (#[trigger] entries@[k])@.len() > 0,
            views_of(out@) == base + visible_spec(
                entries.deep_view().take(i as int),
                print_rules.print_hidden,
            ),
        decreases entries@.len() - i,
    {
        let entry = crate::bytes::bytes_range(&entries[i], 0, entries[i].len());
        proof {
            assert(entry@ =~= entries@[i as int]@);
        }
        let ghost entry_snap = entry;
        let ghost before = out@;
        maybe_print_entry(entry, print_rules, out);
        proof {
            let ph = print_rules.print_hidden;
            let dv = entries.deep_view();
            assert(dv.take(i + 1).drop_last() =~= dv.take(i as int));
            assert(dv.take(i + 1).last() =~= entries@[i as int]@);
            assert(visible_spec(dv.take(i + 1), ph) == if should_print_spec(
                dv.take(i + 1).last(),
                ph,
            ) {
                visible_spec(dv.take(i as int), ph).push(dv.take(i + 1).last())
            } else {
                visible_spec(dv.take(i as int), ph)
            });
            if should_print_spec(entry_snap@, ph) {
                lemma_views_push(before, entry_snap);
            }
            assert(views_of(out@) =~= base + visible_spec(dv.take(i + 1), ph));
        }
        i += 1;
    }
    proof {
        assert(entries.deep_view().take(entries@.len() as int) =~= entries.deep_view());
    }
}

/// Renders every stdout line of a listing run: the shallow paths first,
/// then each successfully read directory as a group with its spacing,
/// header and visible entries.
pub fn render_listing(shallow: &Vec<Vec<u8>>, dirs: &Vec<DirListing>, print_rules: PrintRules) -> (
    out: Vec<Vec<u8>>)
    requires
        forall|i: int| 0 <= i < dirs@.len() ==> wf_listing(#[trigger] dirs@[i]),
    ensures
        views_of(out@) == listing_lines_spec(
            views_of(shallow@),
            dirs@,
            print_rules.print_hidden,
        ),
{
    let mut out: Vec<Vec<u8>> = Vec::new();
    let mut s: usize = 0;
    while s < shallow.len()
        invariant
            s <= shallow@.len(),
            views_of(out@) == views_of(shallow@).take(s as int),
        decreases shallow@.len() - s,
    {
        let line = crate::bytes::bytes_range(&shallow[s], 0, shallow[s].len());
        proof {
            assert(line@ =~= shallow@[s as int]@);
        }
        let ghost line_snap = line;
        let ghost before = out@;
        out.push(line);
        proof {
            lemma_views_push(before, line_snap);
            assert(views_of(out@) =~= views_of(shallow@).take(s + 1));
        }
        s += 1;
    }
    proof {
        assert(views_of(shallow@).take(shallow@.len() as int) =~= views_of(shallow@));
    }
    let mut spacing: bool = shallow.len() > 0;
    let label: bool = shallow.len() > 0 || dirs.len() > 1;
    let ghost mut printed = views_of(shallow@);
    proof {
        assert(dirs@.subrange(0, dirs@.len() as int) =~= dirs@);
    }
    let mut d: usize = 0;
    while d < dirs.len()
        invariant
            d <= dirs@.len(),
            forall|i: int| 0 <= i < dirs@.len() ==> wf_listing(#[trigger] dirs@[i]),
            views_of(out@) == printed,
            printed + dirs_lines_spec(
                dirs@.subrange(d as int, dirs@.len() as int),
                print_rules.print_hidden,
                spacing,
                label,
            ) == listing_lines_spec(views_of(shallow@), dirs@, print_rules.print_hidden),
        decreases dirs@.len() - d,
    {
        let ghost tail = dirs@.subrange(d as int, dirs@.len() as int);
        proof {
            assert(tail.subrange(1, tail.len() as int) =~= dirs@.subrange(
                d + 1,
                dirs@.len() as int,
            ));
        }
        match &dirs[d].entries {
            None => {
                proof {
                    assert(dirs_lines_spec(tail, print_rules.print_hidden, spacing, label)
                        == dirs_lines_spec(
                        tail.subrange(1, tail.len() as int),
                        print_rules.print_hidden,
                        spacing,
                        label,
                    ));
                }
            },
            Some(entries) => {
                if spacing {
                    let blank: Vec<u8> = Vec::new();
                    let ghost blank_snap = blank;
                    let ghost b0 = out@;
                    out.push(blank);
                    proof {
                        lemma_views_push(b0, blank_snap);
                    }
                }
                if label {
                    let mut header = crate::bytes::bytes_range(&dirs[d].path, 0, dirs[d].path.len());
                    header.push(58u8);
                    proof {
                        assert(header@ =~= header_spec(dirs@[d as int].path@));
                    }
                    let ghost header_snap = header;
                    let ghost h0 = out@;
                    out.push(header);
                    proof {
                        lemma_views_push(h0, header_snap);
                    }
                }
                append_visible(entries, print_rules, &mut out);
                proof {
                    let ph = print_rules.print_hidden;
                    let g = group_spec(dirs@[d as int].path@, entries.deep_view(), ph, spacing, label);
                    assert(views_of(out@) =~= printed + g);
                    assert(dirs_lines_spec(tail, ph, spacing, label) == g + dirs_lines_spec(
                        tail.subrange(1, tail.len() as int),
                        ph,
                        true,
                        label,
                    ));
                    assert((printed + g) + dirs_lines_spec(
                        tail.subrange(1, tail.len() as int),
                        ph,
                        true,
                        label,
                    ) =~= printed + (g + dirs_lines_spec(
                        tail.subrange(1, tail.len() as int),
                        ph,
                        true,
                        label,
                    )));
                    printed = views_of(out@);
                }
                spacing = true;
            },
        }
        d += 1;
    }
    proof {
        assert(dirs@.subrange(dirs@.len() as int, dirs@.len() as int) =~= Seq::<
            DirListing,
        >::empty());
    }
    out
}

/// Lists each operand: missing paths are reported, plain files and
/// shallow directories are printed as given, and each remaining directory
/// is expanded. With no operands the current working directory is listed;
/// failing to resolve it is the no-current-directory status. A directory
/// that cannot be read is reported and sets the directory-read status, and
/// the rest are still processed.
pub fn main(args: Args) -> (r: i32)
    ensures
        r == 0 || r == EXIT_CODE_NO_CWD || r == EXIT_CODE_READ_DIR,
        args.paths@.len() > 0 ==> (r == 0 || r == EXIT_CODE_READ_DIR),
{
    let paths: Vec<Vec<u8>> = if args.paths.len() == 0 {
        // with no directories to list out, fall back to the current
        // working directory
        match sys::sys_getcwd() {
            Ok(cwd) => {
                let mut one: Vec<Vec<u8>> = Vec::new();
                one.push(cwd);
                one
            },
            Err(e) => {
                let desc = sys::errno_message(e);
                let line = concat4(
                    "Unable to determine current directory: ",
                    desc.as_slice(),
                    "",
                    &[],
                );
                sys::err_line(line.as_slice());
                return EXIT_CODE_NO_CWD;
            },
        }
    } else {
        args.paths
    };
    let print_rules = PrintRules { print_hidden: args.all };
    let mut status: i32 = 0;

    let mut print_shallow: Vec<Vec<u8>> = Vec::new();  // print just the provided path
    let mut expand: Vec<Vec<u8>> = Vec::new();  // print directory contents
    let ghost mut stats: Seq<Option<u32>> = Seq::empty();

    let mut p: usize = 0;
    while p < paths.len()
        invariant
            p <= paths@.len(),
            stats.len() == p as int,
            views_of(print_shallow@) == partition_spec(
                views_of(paths@).take(p as int),
                stats,
                args.shallow_dirs,
            ).0,
            views_of(expand@) == partition_spec(
                views_of(paths@).take(p as int),
                stats,
                args.shallow_dirs,
            ).1,
            // a missing operand is only reported: nothing in this phase
            // changes the status
            status == 0,
        decreases paths@.len() - p,
    {
        let fpath = crate::bytes::bytes_range(&paths[p], 0, paths[p].len());
        proof {
            assert(fpath@ =~= paths@[p as int]@);
        }
        let ghost fpath_snap = fpath;
        let st_result = sys::sys_stat(fpath.as_slice());
        let class = classify_operand(&st_result, args.shallow_dirs);
        match class {
            PathClass::Missing => {
                let line = concat4("'", fpath.as_slice(), "': No such file or directory", &[]);
                sys::err_line(line.as_slice());
            },
            PathClass::Shallow => {
                let ghost before = print_shallow@;
                print_shallow.push(fpath);
                proof {
                    lemma_views_push(before, fpath_snap);
                }
            },
            PathClass::Expand => {
                // this is an existing directory
                let ghost before = expand@;
                expand.push(fpath);
                proof {
                    lemma_views_push(before, fpath_snap);
                }
            },
        }
        proof {
            let old_stats = stats;
            stats = stats.push(stat_mode_of(st_result));
            let pv = views_of(paths@);
            assert(pv.take(p + 1).drop_last() =~= pv.take(p as int));
            assert(stats.drop_last() =~= old_stats);
            assert(pv.take(p + 1).last() == paths@[p as int]@);
            assert(views_of(print_shallow@) =~~= partition_spec(
                pv.take(p + 1),
                stats,
                args.shallow_dirs,
            ).0);
            assert(views_of(expand@) =~~= partition_spec(
                pv.take(p + 1),
                stats,
                args.shallow_dirs,
            ).1);
        }
        p += 1;
    }

    let mut listings: Vec<DirListing> = Vec::new();
    let mut d: usize = 0;
    while d < expand.len()
        invariant
            d <= expand@.len(),
            listings@.len() == d as int,
            forall|i: int| 0 <= i < listings@.len() ==> wf_listing(#[trigger] listings@[i]),
            // each listing is for the expanded operand it answers, in order
            forall|i: int|
                0 <= i < listings@.len() ==> (#[trigger] listings@[i]).path@ == expand@[i]@,
            // the status is exactly the fold of the read outcomes: the
            // directory-read status when some directory could not be
            // opened, success otherwise
            status == if (exists|i: int|
                0 <= i < listings@.len() && (#[trigger] listings@[i]).entries is None) {
                EXIT_CODE_READ_DIR
            } else {
                0i32
            },
        decreases expand@.len() - d,
    {
        let dpath = crate::bytes::bytes_range(&expand[d], 0, expand[d].len());
        proof {
            assert(dpath@ =~= expand@[d as int]@);
        }
        let ghost before_l = listings@;
        match sys::sys_read_dir(dpath.as_slice()) {
            Err(e) => {
                let desc = sys::errno_message(e);
                let line = concat4("", dpath.as_slice(), ": ", desc.as_slice());
                sys::err_line(line.as_slice());
                status = EXIT_CODE_READ_DIR;
                listings.push(DirListing { path: dpath, entries: None });
                proof {
                    assert(listings@[listings@.len() - 1].entries is None);
                }
            },
            Ok(raw) => {
                let names = collect_ok_names(&dpath, &raw);
                listings.push(DirListing { path: dpath, entries: Some(names) });
                proof {
                    assert(listings@[listings@.len() - 1].entries is Some);
                    assert(wf_listing(listings@[listings@.len() - 1]));
                    // the new listing cannot witness a failed read, so the
                    // status fold is unchanged
                    assert forall|i: int|
                        0 <= i < listings@.len() && (#[trigger] listings@[i]).entries
                            is None implies 0 <= i < before_l.len() && before_l[i].entries
                        is None by {
                        assert(i != listings@.len() - 1);
                        assert(listings@[i] == before_l[i]);
                    }
                    assert forall|i: int|
                        0 <= i < before_l.len() && (#[trigger] before_l[i]).entries
                            is None implies 0 <= i < listings@.len() && listings@[i].entries
                        is None by {
                        assert(listings@[i] == before_l[i]);
                    }
                }
            },
        }
        d += 1;
    }

    let lines = render_listing(&print_shallow, &listings, print_rules);
    let mut l: usize = 0;
    while l < lines.len()
        invariant
            l <= lines@.len(),
        decreases lines@.len() - l,
    {
        sys::out_line(lines[l].as_slice());
        l += 1;
    }
    status
}

} // verus!
