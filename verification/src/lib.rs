//! A small multi-call collection of Unix file utilities: directory listing,
//! directory creation, empty-directory removal, and file timestamp touching.
//! One binary dispatches to a command by its invoked name or by an explicit
//! subcommand; each command is a short sequence of system calls with its
//! errors translated into process exit codes.

pub mod bytes;
pub mod cli;
pub mod dispatch;
pub mod exit;
pub mod fd;
pub mod ls;
pub mod mkdir;
pub mod osstr;
pub mod rmdir;
pub mod sys;
pub mod touch;
