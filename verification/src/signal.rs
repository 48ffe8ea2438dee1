use vstd::prelude::*;

verus! {

/// The largest number of bytes that one probe of a file inspects.
pub const PROBE_LEN: usize = 256;

/// Whether one byte alone marks a file as binary: a control code below
/// backspace, a control code from shift-out up to the last one before the space,
/// or DEL. Backspace, tab, line feed, vertical tab, form feed and carriage
/// return are no such mark, and neither is any byte from 0x80 up.
pub open spec fn is_binary_signal(byte: u8) -> bool {
    byte <= 0x07 || 0x0e <= byte <= 0x1f || byte == 0x7f
}

/// Whether some byte of `bytes` is a binary signal.
pub open spec fn has_binary_signal(bytes: Seq<u8>) -> bool {
    exists|i: int| 0 <= i < bytes.len() && is_binary_signal(#[trigger] bytes[i])
}

/// The part of a sample that is inspected: all of it, or its first `PROBE_LEN`
/// bytes where it is longer.
pub open spec fn inspected(sample: Seq<u8>) -> Seq<u8> {
    if sample.len() <= PROBE_LEN {
        sample
    } else {
        sample.take(PROBE_LEN as int)
    }
}

/// Tests one byte for a binary signal.
pub fn is_probably_binary(c: &u8) -> (binary: bool)
    ensures
        binary == is_binary_signal(*c),
{
    let byte: u8 = *c;
    byte <= 0x07 || (0x0e <= byte && byte <= 0x1f) || byte == 0x7f
}

/// Scans a sample for a binary signal, looking at no more than its first
/// `PROBE_LEN` bytes.
pub fn sample_is_binary(sample: &[u8]) -> (binary: bool)
    ensures
        binary == has_binary_signal(inspected(sample@)),
{
    let end: usize = if sample.len() <= PROBE_LEN {
        sample.len()
    } else {
        PROBE_LEN
    };
    let mut at: usize = 0;
    while at < end
        invariant
            at <= end <= sample@.len(),
            inspected(sample@).len() == end,
            forall|i: int| 0 <= i < at ==> !is_binary_signal(#[trigger] inspected(sample@)[i]),
        decreases end - at,
    {
        if is_probably_binary(&sample[at]) {
            assert(is_binary_signal(inspected(sample@)[at as int]));
            return true;
        }
        at += 1;
    }
    false
}

} // verus!
