//! How many terminal columns a text takes.

use vstd::prelude::*;

verus! {

/// A printable ASCII character: U+0020 to U+007E.
pub open spec fn is_plain_char(c: char) -> bool {
    ' ' <= c <= '~'
}

/// A text of printable ASCII characters only.
pub open spec fn is_plain(text: Seq<char>) -> bool {
    forall|i: int| 0 <= i < text.len() ==> is_plain_char(#[trigger] text[i])
}

/// The displayed width of a text that is not plain: the rules of the Unicode
/// width tables decide it, and this library only names it.
pub uninterp spec fn wide_width(text: Seq<char>) -> nat;

/// The displayed width of a text in columns. A plain text takes one column
/// for each character.
pub open spec fn column_width(text: Seq<char>) -> nat {
    if is_plain(text) {
        text.len()
    } else {
        wide_width(text)
    }
}

/// A plain text is an ASCII text.
pub proof fn lemma_plain_is_ascii(text: Seq<char>)
    requires
        is_plain(text),
    ensures
        vstd::utf8::is_ascii_chars(text),
{
    assert forall|i: int| 0 <= i < text.len() implies '\0' <= #[trigger] text[i] <= '\u{7f}' by {
        assert(is_plain_char(text[i]));
    }
}

/// `unicode_width::UnicodeWidthStr::width`: every printable ASCII character
/// counts one column, so a plain text is as wide as it is long; the width of
/// any other text is named, not stated.
#[verifier::external_body]
pub(crate) fn display_width(text: &str) -> (width: usize)
    ensures
        is_plain(text@) ==> width == text@.len(),
        !is_plain(text@) ==> width == wide_width(text@),
{
    unicode_width::UnicodeWidthStr::width(text)
}

} // verus!
