use crate::kinds::{EntryType, FileType};
use crate::pb_error::PBError;
use crate::signal::{has_binary_signal, inspected, sample_is_binary, PROBE_LEN};
use crate::step::{sample_view, stat_view, Metadata, Probe, Step, StepView};
use vstd::prelude::*;

verus! {

/// What follows from the answer to a metadata query: a failure ends the
/// classification with its message, a directory and an entry that is neither
/// directory nor regular file are classified at once, and a regular file is
/// probed at its head, to be judged by the length that the metadata gave.
pub open spec fn entry_step(stat: Result<Metadata, Seq<char>>) -> StepView<EntryType> {
    match stat {
        Err(message) => StepView::Done(Err(message)),
        Ok(metadata) => if metadata.is_dir {
            StepView::Done(Ok(EntryType::Directory))
        } else if metadata.is_file {
            StepView::Read { probe: Probe::Head, len: metadata.len }
        } else {
            StepView::Done(Ok(EntryType::Other))
        },
    }
}

/// What follows from the answer to a probe of a file of `len` bytes: a failure
/// ends the classification with its message, a binary signal in the inspected
/// bytes makes the file binary, and a head without one calls for the tail where
/// the file is longer than one probe. Otherwise the file is text.
pub open spec fn guess_step(
    probe: Probe,
    sample: Result<Seq<u8>, Seq<char>>,
    len: u64,
) -> StepView<FileType> {
    match sample {
        Err(message) => StepView::Done(Err(message)),
        Ok(bytes) => if has_binary_signal(inspected(bytes)) {
            StepView::Done(Ok(FileType::Binary))
        } else if probe == Probe::Head && len > PROBE_LEN {
            StepView::Read { probe: Probe::Tail, len }
        } else {
            StepView::Done(Ok(FileType::Text))
        },
    }
}

/// A step in the classification of a file's content, as a step in the
/// classification of the entry that the file is.
pub open spec fn file_entry_step(step: StepView<FileType>) -> StepView<EntryType> {
    match step {
        StepView::Done(Ok(file_type)) => StepView::Done(Ok(EntryType::File(file_type))),
        StepView::Done(Err(message)) => StepView::Done(Err(message)),
        StepView::Read { probe, len } => StepView::Read { probe, len },
    }
}

/// Classifies an entry from the answer to a metadata query on its path, or asks
/// for the first probe where the entry is a regular file.
pub fn entry_type(stat: Result<Metadata, String>) -> (step: Step<EntryType>)
    ensures
        step@ == entry_step(stat_view(stat)),
{
    let metadata = match stat {
        Ok(metadata) => metadata,
        Err(message) => return Step::Done(Err(PBError::new(message))),
    };
    if metadata.is_dir {
        Step::Done(Ok(EntryType::Directory))
    } else if metadata.is_file {
        Step::Read { probe: Probe::Head, len: metadata.len }
    } else {
        Step::Done(Ok(EntryType::Other))
    }
}

/// Goes on with the classification of an entry that is a regular file, from the
/// answer to `probe`.
pub fn entry_type_from_probe(probe: Probe, sample: Result<&[u8], String>, len: u64) -> (step: Step<
    EntryType,
>)
    ensures
        step@ == file_entry_step(guess_step(probe, sample_view(sample), len)),
{
    match guess_file_type(probe, sample, len) {
        Step::Done(Ok(file_type)) => Step::Done(Ok(EntryType::File(file_type))),
        Step::Done(Err(error)) => Step::Done(Err(error)),
        Step::Read { probe, len } => Step::Read { probe, len },
    }
}

/// The step from which the classification of the content of a regular file of
/// `len` bytes starts: a probe of its head.
pub fn first_probe(len: u64) -> (step: Step<FileType>)
    ensures
        step@ == (StepView::<FileType>::Read { probe: Probe::Head, len }),
{
    Step::Read { probe: Probe::Head, len }
}

/// Judges the content of a regular file of `len` bytes from the answer to
/// `probe`, or asks for the tail.
pub fn guess_file_type(probe: Probe, sample: Result<&[u8], String>, len: u64) -> (step: Step<
    FileType,
>)
    ensures
        step@ == guess_step(probe, sample_view(sample), len),
{
    let bytes = match sample {
        Ok(bytes) => bytes,
        Err(message) => return Step::Done(Err(PBError::new(message))),
    };
    // A sample that looks binary settles it, whichever probe it came from
    if sample_is_binary(bytes) {
        return Step::Done(Ok(FileType::Binary));
    }
    match probe {
        Probe::Head => {
            // A file no longer than one probe has been seen whole
            if len <= PROBE_LEN as u64 {
                Step::Done(Ok(FileType::Text))
            } else {
                Step::Read { probe: Probe::Tail, len }
            }
        },
        Probe::Tail => Step::Done(Ok(FileType::Text)),
    }
}

} // verus!
