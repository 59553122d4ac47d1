//! Colon-delimited labels.

use vstd::prelude::*;
use vstd::std_specs::iter::IteratorSpec;
use vstd::string::StrSliceExecFns;
use vstd::utf8::encode_utf8;
use crate::width::is_plain;

verus! {

/// First position at or after `from` where `text` holds a colon, or the
/// length of `text` when no colon follows.
pub open spec fn scan_colon(text: Seq<char>, from: int) -> int
    decreases text.len() - from,
{
    if from < 0 || from >= text.len() || text[from] == ':' {
        from
    } else {
        scan_colon(text, from + 1)
    }
}

/// The parts of a label: what stands between its colons, in order. A label
/// without a colon is its own single part, and a part may be empty.
pub open spec fn label_parts(label: Seq<char>) -> Seq<Seq<char>>
    decreases label.len(),
{
    let end = scan_colon(label, 0);
    if 0 <= end < label.len() {
        seq![label.take(end)] + label_parts(label.skip(end + 1))
    } else {
        seq![label]
    }
}

/// The parts joined again with a colon between neighbours.
pub open spec fn join_parts(parts: Seq<Seq<char>>) -> Seq<char>
    decreases parts.len(),
{
    if parts.len() == 0 {
        Seq::empty()
    } else if parts.len() == 1 {
        parts[0]
    } else {
        parts[0] + seq![':'] + join_parts(parts.skip(1))
    }
}

/// The texts of string slices.
pub open spec fn texts_of(parts: Seq<&str>) -> Seq<Seq<char>> {
    parts.map_values(|part: &str| part@)
}

/// Where the scan from `from` ends: within the text, on a colon or at the
/// end, with no colon before it.
pub proof fn lemma_scan_colon(text: Seq<char>, from: int)
    requires
        0 <= from <= text.len(),
    ensures
        from <= scan_colon(text, from) <= text.len(),
        scan_colon(text, from) < text.len() ==> text[scan_colon(text, from)] == ':',
        forall|i: int| from <= i < scan_colon(text, from) ==> text[i] != ':',
    decreases text.len() - from,
{
    if from < text.len() && text[from] != ':' {
        lemma_scan_colon(text, from + 1);
    }
}

/// A label has at least one part.
pub proof fn lemma_label_parts_len(label: Seq<char>)
    ensures
        label_parts(label).len() >= 1,
    decreases label.len(),
{
    let end = scan_colon(label, 0);
    if 0 <= end < label.len() {
        lemma_label_parts_len(label.skip(end + 1));
    }
}

/// No part holds a colon.
pub proof fn lemma_parts_hold_no_colon(label: Seq<char>, index: int)
    requires
        0 <= index < label_parts(label).len(),
    ensures
        !label_parts(label)[index].contains(':'),
    decreases label.len(),
{
    let end = scan_colon(label, 0);
    lemma_scan_colon(label, 0);
    if 0 <= end < label.len() {
        if index > 0 {
            lemma_parts_hold_no_colon(label.skip(end + 1), index - 1);
        }
    }
}

/// The parts of a plain label are plain.
pub proof fn lemma_parts_of_plain_label(label: Seq<char>, index: int)
    requires
        is_plain(label),
        0 <= index < label_parts(label).len(),
    ensures
        is_plain(label_parts(label)[index]),
    decreases label.len(),
{
    let end = scan_colon(label, 0);
    lemma_scan_colon(label, 0);
    if 0 <= end < label.len() {
        if index > 0 {
            lemma_parts_of_plain_label(label.skip(end + 1), index - 1);
        }
    }
}

/// Joining the parts of a label gives the label back.
pub proof fn lemma_join_parts(label: Seq<char>)
    ensures
        join_parts(label_parts(label)) == label,
    decreases label.len(),
{
    let end = scan_colon(label, 0);
    lemma_scan_colon(label, 0);
    if 0 <= end < label.len() {
        let rest = label.skip(end + 1);
        lemma_join_parts(rest);
        lemma_label_parts_len(rest);
        let parts = label_parts(label);
        assert(parts.skip(1) =~= label_parts(rest));
    }
}

/// A text has no more characters than its UTF-8 encoding has bytes.
pub proof fn lemma_chars_within_bytes(text: Seq<char>)
    ensures
        text.len() <= encode_utf8(text).len(),
    decreases text.len(),
{
    if text.len() > 0 {
        lemma_chars_within_bytes(text.drop_first());
    }
}

/// Splits a label at its colons.
pub fn split_label<'a>(label: &'a str) -> (parts: Vec<&'a str>)
    ensures
        texts_of(parts@) == label_parts(label@),
{
    let limit = label.as_bytes().len();
    let ghost text = label@;
    proof {
        lemma_chars_within_bytes(text);
    }
    let mut parts: Vec<&'a str> = Vec::new();
    let mut start: usize = 0;
    let mut index: usize = 0;
    let mut chars = label.chars();
    proof {
        assert(text.skip(0) =~= text);
    }
    loop
        invariant
            text == label@,
            text.len() <= limit,
            start <= index <= text.len(),
            chars.remaining() == text.skip(index as int),
            label_parts(text) == texts_of(parts@) + label_parts(text.skip(start as int)),
            scan_colon(text.skip(start as int), 0) == scan_colon(
                text.skip(start as int),
                index - start,
            ),
        ensures
            index == text.len(),
        decreases text.len() - index,
    {
        match chars.next() {
            Some(c) => {
                if c == ':' {
                    let part = label.substring_char(start, index);
                    proof {
                        let tail = text.skip(start as int);
                        assert(tail.take(index - start) =~= text.subrange(
                            start as int,
                            index as int,
                        ));
                        assert(tail.skip(index - start + 1) =~= text.skip(index + 1));
                    }
                    parts.push(part);
                    start = index + 1;
                }
                index += 1;
            },
            None => {
                break ;
            },
        }
    }
    parts.push(label.substring_char(start, index));
    parts
}

} // verus!
