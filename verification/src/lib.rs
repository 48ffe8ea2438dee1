//! Heuristic classification of a filesystem entry as a directory, a probably-text
//! file, a probably-binary file, or something else.
//!
//! A regular file is judged by its content alone: by a probe of at most
//! `PROBE_LEN` bytes from its start and, where that shows nothing and the file is
//! longer, by a second probe of its last `PROBE_LEN` bytes. One byte that is a
//! binary signal makes the file binary.
//!
//! The library performs no input or output. Its caller queries the file system and
//! reports what came back; the library decides what that means and what, if
//! anything, is to be read next:
//!
//! 1. The caller queries the metadata of the path and hands the answer to
//!    `entry_type`.
//! 2. As long as the step that comes back is `Step::Read`, the caller makes the
//!    probe that it names and hands the answer to `entry_type_from_probe`.
//! 3. `Step::Done` holds the classification, or the failure that ended it.
//!
//! A caller that knows the length of a regular file starts from `first_probe` and
//! hands the answers to `guess_file_type`.
//!
//! The module `outcome` states what these steps come to for a given entry.

pub mod classify;
pub mod kinds;
pub mod outcome;
pub mod pb_error;
pub mod signal;
pub mod step;

pub use classify::{entry_type, entry_type_from_probe, first_probe, guess_file_type};
pub use kinds::{EntryType, FileType};
pub use pb_error::PBError;
pub use signal::{is_probably_binary, sample_is_binary, PROBE_LEN};
pub use step::{Metadata, Probe, Step};
