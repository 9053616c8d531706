//! Empty-directory removal: remove each named directory; a target that is
//! not an empty directory fails and is reported, without stopping the rest.

use crate::bytes::concat4;
use crate::exit::{EXIT_CODE_INVALID_USAGE, EXIT_CODE_UNKNOWN_ERR};
use crate::sys;
use vstd::prelude::*;

verus! {

#[derive(Debug)]
pub struct Args {
    pub paths: Vec<Vec<u8>>,
}

/// Removes each named directory. With no operands the run is a usage error;
/// otherwise the run succeeds exactly when every removal does, and any
/// failure is reported as the unknown-error status.
pub fn main(args: Args) -> (r: i32)
    ensures
        args.paths@.len() == 0 ==> r == EXIT_CODE_INVALID_USAGE,
        args.paths@.len() > 0 ==> (r == 0 || r == EXIT_CODE_UNKNOWN_ERR),
{
    if args.paths.len() == 0 {
        sys::err_line("missing file operand".as_bytes());
        sys::err_line("Try 'rmdir --help' for more information".as_bytes());
        return EXIT_CODE_INVALID_USAGE;
    }
    let mut status: i32 = 0;
    let ghost mut any_failed: bool = false;
    let mut p: usize = 0;
    while p < args.paths.len()
        invariant
            p <= args.paths@.len(),
            status == if any_failed {
                EXIT_CODE_UNKNOWN_ERR
            } else {
                0i32
            },
        decreases args.paths@.len() - p,
    {
        let ok: bool = match sys::sys_rmdir(args.paths[p].as_slice()) {
            Ok(()) => true,
            Err(e) => {
                let desc = sys::errno_message(e);
                let line = concat4(
                    "Unable to remove '",
                    args.paths[p].as_slice(),
                    "': ",
                    desc.as_slice(),
                );
                sys::err_line(line.as_slice());
                false
            },
        };
        status = crate::exit::fold_unknown_err(status, ok);
        proof {
            if !ok {
                any_failed = true;
            }
        }
        p += 1;
    }
    status
}

} // verus!
