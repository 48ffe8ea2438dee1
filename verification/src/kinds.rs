use vstd::prelude::*;

verus! {

/// What the content of a regular file looks like.
#[derive(Debug, Clone, Copy, PartialEq, Eq, Structural)]
pub enum FileType {
    Text,
    Binary,
}

/// The kind of node found at a path.
#[derive(Debug, Clone, Copy, PartialEq, Eq, Structural)]
pub enum EntryType {
    Directory,
    File(FileType),
    Other,
}

} // verus!
