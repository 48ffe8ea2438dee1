use crate::pb_error::PBError;
use vstd::prelude::*;

verus! {

/// What a metadata query reported about a path.
#[derive(Debug, Clone, Copy, PartialEq, Eq, Structural)]
pub struct Metadata {
    /// The path names a directory.
    pub is_dir: bool,
    /// The path names a regular file.
    pub is_file: bool,
    /// The length of the entry in bytes.
    pub len: u64,
}

/// A bounded read of a regular file, of at most `PROBE_LEN` bytes.
#[derive(Debug, Clone, Copy, PartialEq, Eq, Structural)]
pub enum Probe {
    /// Open the file and read from its start.
    Head,
    /// Seek to `PROBE_LEN` bytes before the end of the open file and read from there.
    Tail,
}

/// What a classification has come to after an answer from the file system.
#[derive(Debug, PartialEq, Eq)]
pub enum Step<T> {
    /// It is over, with a result or with the failure that ended it.
    Done(Result<T, PBError>),
    /// The caller is to make `probe` and to report the sample, together with
    /// `probe` and `len` as they stand here.
    Read { probe: Probe, len: u64 },
}

/// A step as contracts speak of it: an error stands there as its message.
pub enum StepView<T> {
    Done(Result<T, Seq<char>>),
    Read { probe: Probe, len: u64 },
}

impl<T> View for Step<T> {
    type V = StepView<T>;

    open spec fn view(&self) -> StepView<T> {
        match *self {
            Step::Done(Ok(kind)) => StepView::Done(Ok(kind)),
            Step::Done(Err(error)) => StepView::Done(Err(error@)),
            Step::Read { probe, len } => StepView::Read { probe, len },
        }
    }
}

/// The answer to a metadata query as contracts speak of it.
pub open spec fn stat_view(stat: Result<Metadata, String>) -> Result<Metadata, Seq<char>> {
    match stat {
        Ok(metadata) => Ok(metadata),
        Err(message) => Err(message@),
    }
}

/// The answer to a probe as contracts speak of it.
pub open spec fn sample_view(sample: Result<&[u8], String>) -> Result<Seq<u8>, Seq<char>> {
    match sample {
        Ok(bytes) => Ok(bytes@),
        Err(message) => Err(message@),
    }
}

} // verus!
