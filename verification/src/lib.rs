//! Verified core of a small FUSE mount launcher.
//!
//! The launcher takes a mount point and any number of `--fuseopt` strings on
//! the command line, splits each raw option string into the tokens the mount
//! facility expects, marshals the tokens into borrowed argument views, and
//! decides whether to mount or to print the usage text. Everything up to the
//! mount call itself lives here; the blocking mount call and the process's
//! I/O stay outside.

pub mod cli;
pub mod marshal;
pub mod tokenizer;

pub use cli::plan_invocation;
pub use cli::usage;
pub use cli::Invocation;
pub use marshal::prep_fuseargs;
pub use tokenizer::parse_fuse_args;
