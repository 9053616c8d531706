//! Deterministic release of a raw file descriptor: the descriptor is
//! closed on every exit path of the scope that holds the value, and a
//! close failure is reported without affecting any exit status — the
//! descriptor is released regardless, and with nothing pending to write,
//! nothing can be lost.

use std::io::Write;
use vstd::prelude::*;

verus! {

/// Holds a raw file descriptor and the path it was opened from, for the
/// report should closing fail.
pub struct FdPathDropper(i32, Vec<u8>);

impl FdPathDropper {
    /// The descriptor that will be released.
    pub closed spec fn fd_spec(self) -> i32 {
        self.0
    }

    /// The path the descriptor was opened from.
    pub closed spec fn path_spec(self) -> Seq<u8> {
        self.1@
    }

    pub fn new(fd: i32, fpath: Vec<u8>) -> (r: Self)
        ensures
            r.fd_spec() == fd,
            r.path_spec() == fpath@,
    {
        FdPathDropper(fd, fpath)
    }
}

impl Drop for FdPathDropper {
    /// Relies on nix::unistd::close: releases the stored descriptor. A
    /// failure is written to the standard error stream and otherwise
    /// ignored, since the descriptor is gone either way.
    #[verifier::external_body]
    fn drop(&mut self)
        opens_invariants none
        no_unwind
    {
        if let Err(e) = nix::unistd::close(self.0) {
            let _ = writeln!(
                std::io::stderr(),
                "Error closing file '{}': {}",
                String::from_utf8_lossy(&self.1),
                e,
            );
        }
    }
}

} // verus!
