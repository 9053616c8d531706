//! Command dispatch: resolve which command was invoked — from the name the
//! program was started under, or from an explicit subcommand word — parse
//! the remaining words against that command's grammar, and run it.

use crate::bytes::{bytes_eq, bytes_range, concat4, views_of};
use crate::cli;
use crate::cli::CliError;
use crate::exit::{EXIT_CODE_INVALID_USAGE, EXIT_CODE_NO_CWD, EXIT_CODE_READ_DIR};
use crate::sys;
use vstd::prelude::*;
use vstd::string::StringSliceAdditionalSpecFns;

verus! {

/// The index that ends the invocation name once trailing slashes are
/// ignored: the largest prefix length whose last byte is not a slash.
pub open spec fn trim_end(s: Seq<u8>, e: int) -> int
    decreases e,
{
    if 0 < e <= s.len() && s[e - 1] == 47u8 {
        trim_end(s, e - 1)
    } else {
        e
    }
}

/// The start of the path component that ends right before `k`.
pub open spec fn comp_start(s: Seq<u8>, k: int) -> int
    decreases k,
{
    if 0 < k <= s.len() && s[k - 1] != 47u8 {
        comp_start(s, k - 1)
    } else {
        k
    }
}

/// The final path component of the zeroth argument: what is left between
/// the last slash and any trailing slashes. A name cannot be extracted
/// from an empty word, from a bare root, or from a component that only
/// refers to the current or parent directory.
pub open spec fn file_name_spec(s: Seq<u8>) -> Option<Seq<u8>> {
    let e = trim_end(s, s.len() as int);
    if e <= 0 {
        None
    } else {
        let st = comp_start(s, e);
        let comp = s.subrange(st, e);
        if comp == ".".spec_bytes() || comp == "..".spec_bytes() {
            None
        } else {
            Some(comp)
        }
    }
}

/// Extracts the name the program was invoked under from the first
/// command-line argument, which may be a bare name or a file path.
pub fn executable_name(first_cli_arg: &Vec<u8>) -> (r: Option<Vec<u8>>)
    ensures
        match r {
            Some(name) => file_name_spec(first_cli_arg@) == Some(name@),
            None => file_name_spec(first_cli_arg@) is None,
        },
{
    let s = first_cli_arg;
    let mut end: usize = s.len();
    while end > 0 && s[end - 1] == 47u8
        invariant
            end <= s@.len(),
            trim_end(s@, s@.len() as int) == trim_end(s@, end as int),
        decreases end,
    {
        end -= 1;
    }
    if end == 0 {
        return None;
    }
    let mut start: usize = end;
    while start > 0 && s[start - 1] != 47u8
        invariant
            start <= end <= s@.len(),
            comp_start(s@, end as int) == comp_start(s@, start as int),
        decreases start,
    {
        start -= 1;
    }
    let comp = bytes_range(s, start, end);
    if bytes_eq(comp.as_slice(), ".".as_bytes()) || bytes_eq(comp.as_slice(), "..".as_bytes()) {
        return None;
    }
    Some(comp)
}

/// A process exit status that one of the commands can produce.
pub open spec fn valid_code(c: i32) -> bool {
    c == 0 || c == 1 || c == 2 || c == 3 || c == 4 || c == 5 || c == 255
}

/// The names the dispatcher routes to a command.
pub open spec fn known_command(name: Seq<u8>) -> bool {
    name == "ls".spec_bytes() || name == "touch".spec_bytes() || name == "mkdir".spec_bytes()
        || name == "rmdir".spec_bytes()
}

/// Prints the usage text.
pub fn print_usage() {
    sys::out_line("Usage: busycrate [--help] <command> [options]".as_bytes());
    sys::out_line("                     <command> [options]".as_bytes());
}

/// A fresh copy of the words from position `from` on.
pub fn tail_args(argv: &Vec<Vec<u8>>, from: usize) -> (r: Vec<Vec<u8>>)
    requires
        from <= argv@.len(),
    ensures
        views_of(r@) == views_of(argv@).subrange(from as int, argv@.len() as int),
{
    let mut out: Vec<Vec<u8>> = Vec::new();
    let mut i: usize = from;
    while i < argv.len()
        invariant
            from <= i <= argv@.len(),
            views_of(out@) == views_of(argv@).subrange(from as int, i as int),
        decreases argv@.len() - i,
    {
        let w = bytes_range(&argv[i], 0, argv[i].len());
        proof {
            assert(w@ =~= argv@[i as int]@);
        }
        let ghost w_snap = w;
        let ghost before = out@;
        out.push(w);
        proof {
            crate::bytes::lemma_views_push(before, w_snap);
            assert(views_of(out@) =~= views_of(argv@).subrange(from as int, i + 1));
        }
        i += 1;
    }
    out
}

/// Everything the dispatcher promises of running one command on the words
/// after its name: an unrecognized name is a usage error; for each
/// command, a help flag ends the run successfully after the usage text, a
/// bad flag is a usage error, a missing required operand is a usage
/// error, and a listing run ends with a status from the listing's own
/// range — never the no-current-directory status when operands were
/// given.
pub open spec fn run_command_post(name: Seq<u8>, rest: Seq<Seq<u8>>, r: Option<i32>) -> bool {
    &&& !known_command(name) ==> r == Some(EXIT_CODE_INVALID_USAGE)
    &&& match r {
        Some(c) => valid_code(c),
        None => false,
    }
    &&& name == "ls".spec_bytes() ==> (match cli::parse_spec(
        cli::ls_shorts(),
        cli::ls_longs(),
        rest,
    ) {
        Ok(q) => (match r {
            Some(c) => (c == 0 || c == EXIT_CODE_NO_CWD || c == EXIT_CODE_READ_DIR) && (q.1.len()
                > 0 ==> c != EXIT_CODE_NO_CWD),
            None => false,
        }),
        Err(CliError::Help) => r == Some(0i32),
        Err(CliError::BadFlag) => r == Some(EXIT_CODE_INVALID_USAGE),
    })
    &&& name == "touch".spec_bytes() ==> (match cli::parse_spec(
        cli::touch_shorts(),
        cli::touch_longs(),
        rest,
    ) {
        Ok(q) => q.1.len() == 0 ==> r == Some(EXIT_CODE_INVALID_USAGE),
        Err(CliError::Help) => r == Some(0i32),
        Err(CliError::BadFlag) => r == Some(EXIT_CODE_INVALID_USAGE),
    })
    &&& name == "mkdir".spec_bytes() ==> (match cli::parse_spec(
        cli::mkdir_shorts(),
        cli::mkdir_longs(),
        rest,
    ) {
        Ok(q) => q.1.len() == 0 ==> r == Some(EXIT_CODE_INVALID_USAGE),
        Err(CliError::Help) => r == Some(0i32),
        Err(CliError::BadFlag) => r == Some(EXIT_CODE_INVALID_USAGE),
    })
    &&& name == "rmdir".spec_bytes() ==> (match cli::parse_spec(
        Seq::empty(),
        Seq::empty(),
        rest,
    ) {
        Ok(q) => q.1.len() == 0 ==> r == Some(EXIT_CODE_INVALID_USAGE),
        Err(CliError::Help) => r == Some(0i32),
        Err(CliError::BadFlag) => r == Some(EXIT_CODE_INVALID_USAGE),
    })
}

/// Routes the words after the command name to that command. An
/// unrecognized name is a usage error; a help flag prints the usage text
/// and succeeds; a bad flag is a usage error. The required-operand checks
/// of the commands that need operands yield the invalid-usage status.
pub fn run_command(name: &Vec<u8>, rest: Vec<Vec<u8>>) -> (r: Option<i32>)
    ensures
        run_command_post(name@, views_of(rest@), r),
{
    proof {
        reveal_strlit("ls");
        reveal_strlit("touch");
        reveal_strlit("mkdir");
        reveal_strlit("rmdir");
        assert(vstd::utf8::is_ascii_chars("ls"@));
        assert(vstd::utf8::is_ascii_chars("touch"@));
        assert(vstd::utf8::is_ascii_chars("mkdir"@));
        assert(vstd::utf8::is_ascii_chars("rmdir"@));
        vstd::utf8::is_ascii_chars_encode_utf8("ls"@);
        vstd::utf8::is_ascii_chars_encode_utf8("touch"@);
        vstd::utf8::is_ascii_chars_encode_utf8("mkdir"@);
        vstd::utf8::is_ascii_chars_encode_utf8("rmdir"@);
        assert("ls".spec_bytes() =~= seq![108u8, 115u8]);
        assert("touch".spec_bytes() =~= seq![116u8, 111u8, 117u8, 99u8, 104u8]);
        assert("mkdir".spec_bytes() =~= seq![109u8, 107u8, 100u8, 105u8, 114u8]);
        assert("rmdir".spec_bytes() =~= seq![114u8, 109u8, 100u8, 105u8, 114u8]);
    }
    if bytes_eq(name.as_slice(), "ls".as_bytes()) {
        match cli::parse_ls(&rest) {
            Ok(a) => {
                proof {
                    assert(views_of(a.paths@).len() == a.paths@.len());
                }
                Some(crate::ls::main(a))
            },
            Err(CliError::Help) => {
                print_usage();
                Some(0)
            },
            Err(CliError::BadFlag) => {
                print_usage();
                Some(EXIT_CODE_INVALID_USAGE)
            },
        }
    } else if bytes_eq(name.as_slice(), "touch".as_bytes()) {
        match cli::parse_touch(&rest) {
            Ok(a) => {
                proof {
                    assert(views_of(a.paths@).len() == a.paths@.len());
                }
                Some(crate::touch::main(&a).code())
            },
            Err(CliError::Help) => {
                print_usage();
                Some(0)
            },
            Err(CliError::BadFlag) => {
                print_usage();
                Some(EXIT_CODE_INVALID_USAGE)
            },
        }
    } else if bytes_eq(name.as_slice(), "mkdir".as_bytes()) {
        match cli::parse_mkdir(&rest) {
            Ok(a) => {
                proof {
                    assert(views_of(a.paths@).len() == a.paths@.len());
                }
                Some(crate::mkdir::main(a))
            },
            Err(CliError::Help) => {
                print_usage();
                Some(0)
            },
            Err(CliError::BadFlag) => {
                print_usage();
                Some(EXIT_CODE_INVALID_USAGE)
            },
        }
    } else if bytes_eq(name.as_slice(), "rmdir".as_bytes()) {
        match cli::parse_rmdir(&rest) {
            Ok(a) => {
                proof {
                    assert(views_of(a.paths@).len() == a.paths@.len());
                }
                Some(crate::rmdir::main(a))
            },
            Err(CliError::Help) => {
                print_usage();
                Some(0)
            },
            Err(CliError::BadFlag) => {
                print_usage();
                Some(EXIT_CODE_INVALID_USAGE)
            },
        }
    } else {
        print_usage();
        Some(EXIT_CODE_INVALID_USAGE)
    }
}

/// Decides the whole run from the argument vector. An empty vector or an
/// unresolvable invocation name is a usage error. Invoked under the
/// multiplexer's own name, the first remaining word names the command —
/// with none present the usage text alone is printed and the run ends
/// successfully with no exit call. Invoked under an alias, the alias
/// itself names the command. The result is the exit status to end the
/// process with, or nothing when the run ends by returning normally.
pub fn main_code(argv: &Vec<Vec<u8>>) -> (r: Option<i32>)
    ensures
        argv@.len() == 0 ==> r == Some(EXIT_CODE_INVALID_USAGE),
        argv@.len() > 0 && file_name_spec(argv@[0]@) is None ==> r == Some(
            EXIT_CODE_INVALID_USAGE,
        ),
        argv@.len() == 1 && file_name_spec(argv@[0]@) == Some("busycrate".spec_bytes()) ==> r
            is None,
        argv@.len() >= 2 && file_name_spec(argv@[0]@) == Some("busycrate".spec_bytes())
            ==> run_command_post(
            argv@[1]@,
            views_of(argv@).subrange(2, argv@.len() as int),
            r,
        ),
        argv@.len() >= 1 ==> (match file_name_spec(argv@[0]@) {
            Some(n) => n != "busycrate".spec_bytes() ==> run_command_post(
                n,
                views_of(argv@).subrange(1, argv@.len() as int),
                r,
            ),
            None => true,
        }),
        match r {
            Some(c) => valid_code(c),
            None => true,
        },
{
    if argv.len() == 0 {
        print_usage();
        return Some(EXIT_CODE_INVALID_USAGE);
    }
    let cmd = match executable_name(&argv[0]) {
        Some(c) => c,
        None => {
            let line = concat4("", argv[0].as_slice(), ": not a command", &[]);
            sys::err_line(line.as_slice());
            print_usage();
            return Some(EXIT_CODE_INVALID_USAGE);
        },
    };
    if bytes_eq(cmd.as_slice(), "busycrate".as_bytes()) {
        if argv.len() < 2 {
            print_usage();
            return None;
        }
        // the first remaining word names the command
        let sub = bytes_range(&argv[1], 0, argv[1].len());
        proof {
            assert(sub@ =~= argv@[1]@);
        }
        let rest = tail_args(argv, 2);
        run_command(&sub, rest)
    } else {
        // invoked under an alias: the resolved name itself is the command,
        // wherever the binary was started from
        let rest = tail_args(argv, 1);
        run_command(&cmd, rest)
    }
}

} // verus!
