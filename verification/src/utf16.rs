//! Zero-terminated UTF-16 buffers as text.

use vstd::prelude::*;
use vstd::slice::slice_subrange;

verus! {

/// First position at or after `from` where `units` holds a zero, or the
/// length of `units` when no zero follows.
pub open spec fn scan_terminator(units: Seq<u16>, from: int) -> int
    decreases units.len() - from,
{
    if from < 0 || from >= units.len() || units[from] == 0 {
        from
    } else {
        scan_terminator(units, from + 1)
    }
}

/// The units of `units` that stand before its first zero.
pub open spec fn until_terminator(units: Seq<u16>) -> Seq<u16> {
    units.take(scan_terminator(units, 0))
}

/// The text that UTF-16 code units decode to, with U+FFFD in place of every
/// surrogate that has no partner. The decoding is named here, not defined.
pub uninterp spec fn utf16_lossy(units: Seq<u16>) -> Seq<char>;

/// The text of a zero-terminated UTF-16 buffer.
pub open spec fn utf16_text(units: Seq<u16>) -> Seq<char> {
    utf16_lossy(until_terminator(units))
}

/// The first zero of a buffer: no zero stands before it, and it is a zero or
/// the end of the buffer.
pub proof fn lemma_scan_terminator(units: Seq<u16>, from: int)
    requires
        0 <= from <= units.len(),
    ensures
        from <= scan_terminator(units, from) <= units.len(),
        scan_terminator(units, from) < units.len() ==> units[scan_terminator(units, from)] == 0,
        forall|i: int| from <= i < scan_terminator(units, from) ==> units[i] != 0,
    decreases units.len() - from,
{
    if from < units.len() && units[from] != 0 {
        lemma_scan_terminator(units, from + 1);
    }
}

/// `String::from_utf16_lossy`: the string holds the lossy decoding of the
/// units handed in, which depends on these units alone.
#[verifier::external_body]
fn decode_utf16_lossy(units: &[u16]) -> (text: String)
    ensures
        text@ == utf16_lossy(units@),
{
    String::from_utf16_lossy(units)
}

/// Decodes a buffer up to its first zero unit.
pub fn utf16_to_string(input: &[u16]) -> (text: String)
    ensures
        text@ == utf16_text(input@),
{
    let mut end: usize = 0;
    while end < input.len() && input[end] != 0
        invariant
            end <= input.len(),
            scan_terminator(input@, 0) == scan_terminator(input@, end as int),
        decreases input.len() - end,
    {
        end += 1;
    }
    decode_utf16_lossy(slice_subrange(input, 0, end))
}

} // verus!
