use crate::classify::{entry_step, file_entry_step, guess_step};
use crate::kinds::{EntryType, FileType};
use crate::signal::{has_binary_signal, inspected, is_binary_signal, PROBE_LEN};
use crate::step::{Metadata, Probe, StepView};
use vstd::prelude::*;

verus! {

/// What the classification of the content of a regular file of `len` bytes ends
/// with, where the head probe is answered by `head` and the tail probe, if it
/// is made, by `tail`.
pub open spec fn guess_outcome(
    len: u64,
    head: Result<Seq<u8>, Seq<char>>,
    tail: Result<Seq<u8>, Seq<char>>,
) -> Result<FileType, Seq<char>> {
    match head {
        Err(message) => Err(message),
        Ok(first) => if has_binary_signal(inspected(first)) {
            Ok(FileType::Binary)
        } else if len <= PROBE_LEN {
            Ok(FileType::Text)
        } else {
            match tail {
                Err(message) => Err(message),
                Ok(last) => if has_binary_signal(inspected(last)) {
                    Ok(FileType::Binary)
                } else {
                    Ok(FileType::Text)
                },
            }
        },
    }
}

/// What the classification of an entry ends with, where the metadata query is
/// answered by `stat` and the probes, if they are made, by `head` and `tail`.
pub open spec fn entry_outcome(
    stat: Result<Metadata, Seq<char>>,
    head: Result<Seq<u8>, Seq<char>>,
    tail: Result<Seq<u8>, Seq<char>>,
) -> Result<EntryType, Seq<char>> {
    match stat {
        Err(message) => Err(message),
        Ok(metadata) => if metadata.is_dir {
            Ok(EntryType::Directory)
        } else if metadata.is_file {
            match guess_outcome(metadata.len, head, tail) {
                Ok(file_type) => Ok(EntryType::File(file_type)),
                Err(message) => Err(message),
            }
        } else {
            Ok(EntryType::Other)
        },
    }
}

/// Whether `metadata` describes a regular file that holds `contents`.
pub open spec fn is_regular_file_of(metadata: Metadata, contents: Seq<u8>) -> bool {
    &&& !metadata.is_dir
    &&& metadata.is_file
    &&& metadata.len == contents.len()
}

/// The bytes from `PROBE_LEN` before the end of `contents` on, which is where a
/// tail probe reads.
pub open spec fn tail_of(contents: Seq<u8>) -> Seq<u8> {
    contents.skip(contents.len() - PROBE_LEN)
}

/// A binary signal in the first bytes of a sequence is one in the sequence.
proof fn signal_in_prefix(part: Seq<u8>, whole: Seq<u8>)
    requires
        part.is_prefix_of(whole),
        has_binary_signal(part),
    ensures
        has_binary_signal(whole),
{
    let at = choose|i: int| 0 <= i < part.len() && is_binary_signal(#[trigger] part[i]);
    assert(is_binary_signal(whole[at]));
}

/// Taking a content's steps one after the other ends with its outcome: the head
/// probe settles it, or asks for the tail probe of the same file, which then
/// settles it.
pub proof fn guess_steps_reach_outcome(
    len: u64,
    head: Result<Seq<u8>, Seq<char>>,
    tail: Result<Seq<u8>, Seq<char>>,
)
    ensures
        match guess_step(Probe::Head, head, len) {
            StepView::Done(result) => result == guess_outcome(len, head, tail),
            StepView::Read { probe, len: again } => {
                &&& probe == Probe::Tail
                &&& again == len
                &&& guess_step(probe, tail, again) == StepView::Done(
                    guess_outcome(len, head, tail),
                )
            },
        },
{
}

/// Taking an entry's steps one after the other ends with its outcome: the
/// metadata settle it, or ask for the head probe of a file of the length they
/// gave, from where the steps are those of the file's content.
pub proof fn entry_steps_reach_outcome(
    stat: Result<Metadata, Seq<char>>,
    head: Result<Seq<u8>, Seq<char>>,
    tail: Result<Seq<u8>, Seq<char>>,
)
    ensures
        match entry_step(stat) {
            StepView::Done(result) => result == entry_outcome(stat, head, tail),
            StepView::Read { probe, len } => {
                &&& probe == Probe::Head
                &&& match file_entry_step(guess_step(probe, head, len)) {
                    StepView::Done(result) => result == entry_outcome(stat, head, tail),
                    StepView::Read { probe: next, len: again } => {
                        &&& next == Probe::Tail
                        &&& file_entry_step(guess_step(next, tail, again)) == StepView::Done(
                            entry_outcome(stat, head, tail),
                        )
                    },
                }
            },
        },
{
}

/// A path whose metadata show a directory is classified as a directory,
/// whatever a probe would read there.
pub proof fn directory_outcome(
    metadata: Metadata,
    head: Result<Seq<u8>, Seq<char>>,
    tail: Result<Seq<u8>, Seq<char>>,
)
    requires
        metadata.is_dir,
    ensures
        entry_outcome(Ok(metadata), head, tail) == Ok::<EntryType, Seq<char>>(EntryType::Directory),
        entry_step(Ok(metadata)) == StepView::Done(
            Ok::<EntryType, Seq<char>>(EntryType::Directory),
        ),
{
}

/// A path whose metadata cannot be had, as that of a path that does not exist,
/// is classified as nothing: the outcome is the error with the failure's message.
pub proof fn failed_stat_outcome(
    message: Seq<char>,
    head: Result<Seq<u8>, Seq<char>>,
    tail: Result<Seq<u8>, Seq<char>>,
)
    ensures
        entry_outcome(Err(message), head, tail) == Err::<EntryType, Seq<char>>(message),
        entry_step(Err(message)) == StepView::Done(Err::<EntryType, Seq<char>>(message)),
{
}

/// A regular file no longer than one probe, none of whose bytes is a binary
/// signal, is text, however much of it the head probe read.
pub proof fn small_clean_file_outcome(
    metadata: Metadata,
    contents: Seq<u8>,
    first: Seq<u8>,
    tail: Result<Seq<u8>, Seq<char>>,
)
    requires
        is_regular_file_of(metadata, contents),
        contents.len() <= PROBE_LEN,
        !has_binary_signal(contents),
        first.is_prefix_of(contents),
    ensures
        entry_outcome(Ok(metadata), Ok(first), tail) == Ok::<EntryType, Seq<char>>(
            EntryType::File(FileType::Text),
        ),
{
    if has_binary_signal(inspected(first)) {
        signal_in_prefix(inspected(first), contents);
    }
}

/// A regular file with a binary signal among its first `PROBE_LEN` bytes is
/// binary where the head probe read those bytes, whatever else the file holds
/// and whatever the tail probe would come to.
pub proof fn binary_head_outcome(
    metadata: Metadata,
    contents: Seq<u8>,
    tail: Result<Seq<u8>, Seq<char>>,
)
    requires
        is_regular_file_of(metadata, contents),
        has_binary_signal(inspected(contents)),
    ensures
        entry_outcome(Ok(metadata), Ok(inspected(contents)), tail) == Ok::<EntryType, Seq<char>>(
            EntryType::File(FileType::Binary),
        ),
{
    assert(inspected(inspected(contents)) =~= inspected(contents));
}

/// A regular file longer than one probe, with no binary signal among its first
/// `PROBE_LEN` bytes and one among its last, is binary where the tail probe
/// read those last bytes, however much the head probe read.
pub proof fn binary_tail_outcome(metadata: Metadata, contents: Seq<u8>, first: Seq<u8>)
    requires
        is_regular_file_of(metadata, contents),
        contents.len() > PROBE_LEN,
        !has_binary_signal(inspected(contents)),
        has_binary_signal(tail_of(contents)),
        first.is_prefix_of(contents),
    ensures
        entry_outcome(Ok(metadata), Ok(first), Ok(tail_of(contents))) == Ok::<
            EntryType,
            Seq<char>,
        >(EntryType::File(FileType::Binary)),
{
    if has_binary_signal(inspected(first)) {
        signal_in_prefix(inspected(first), inspected(contents));
    }
    assert(inspected(tail_of(contents)) =~= tail_of(contents));
}

/// A regular file longer than one probe, with no binary signal among its first
/// `PROBE_LEN` bytes nor among its last, is text where the tail probe read no
/// bytes but of those last, however much the head probe read.
pub proof fn clean_ends_outcome(
    metadata: Metadata,
    contents: Seq<u8>,
    first: Seq<u8>,
    last: Seq<u8>,
)
    requires
        is_regular_file_of(metadata, contents),
        contents.len() > PROBE_LEN,
        !has_binary_signal(inspected(contents)),
        !has_binary_signal(tail_of(contents)),
        first.is_prefix_of(contents),
        last.is_prefix_of(tail_of(contents)),
    ensures
        entry_outcome(Ok(metadata), Ok(first), Ok(last)) == Ok::<EntryType, Seq<char>>(
            EntryType::File(FileType::Text),
        ),
{
    if has_binary_signal(inspected(first)) {
        signal_in_prefix(inspected(first), inspected(contents));
    }
    if has_binary_signal(inspected(last)) {
        signal_in_prefix(inspected(last), tail_of(contents));
    }
}

} // verus!
