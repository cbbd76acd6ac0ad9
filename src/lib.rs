//! Decoding of the tagged output of the `p4` command-line client.
//!
//! Each command's output is a run of tagged lines: records of `info1: `
//! fields, `error: ` and `info: ` messages, and one closing `exit: ` line.
//! The decoders turn a finished output buffer into an ordered stream of
//! [`error::Item`]s, or fail as a whole when the buffer breaks the grammar.
pub mod dirs;
pub mod error;
pub mod files;
pub mod p4;
pub mod parser;
pub mod print;
pub mod stream;
pub mod sync;
pub mod where_;

pub use p4::{Action, BaseFileType, FileType, FileTypeModifiers, Time, P4};
