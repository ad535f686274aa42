//! Where the library hands over to code that is not verified: grapheme
//! segmentation, display width, the character classes that decide how a cluster is
//! drawn, and a few operations on strings and paths.
//!
//! Nothing in this file is proved. Each function makes one call and states what
//! the answer is taken to be.

use vstd::prelude::*;
use std::path::Path;
use unicode_segmentation::UnicodeSegmentation;
use unicode_width::UnicodeWidthStr;

verus! {

/// The extended grapheme clusters of `text`, in order.
pub uninterp spec fn grapheme_clusters(text: Seq<char>) -> Seq<Seq<char>>;

/// The number of terminal columns that `text` is measured to take.
pub uninterp spec fn display_width(text: Seq<char>) -> nat;

/// Whether `c` is white space.
pub uninterp spec fn is_whitespace(c: char) -> bool;

/// Whether `c` is a control code.
pub uninterp spec fn is_control(c: char) -> bool;

/// The text of each string of `strings`.
pub open spec fn texts_of(strings: Seq<String>) -> Seq<Seq<char>> {
    strings.map_values(|s: String| s@)
}

/// `clusters` is what segmentation makes of `text`: the clusters that
/// `grapheme_clusters` names, none of them empty, which put together give `text` again.
pub open spec fn is_segmentation(text: Seq<char>, clusters: Seq<Seq<char>>) -> bool {
    &&& clusters == grapheme_clusters(text)
    &&& clusters.flatten() == text
    &&& forall|i: int| 0 <= i < clusters.len() ==> (#[trigger] clusters[i]).len() > 0
}

/// Calls `UnicodeSegmentation::graphemes(text, true)` and collects the clusters.
///
/// Trusted: the clusters are `grapheme_clusters(text@)`; the iterator hands out
/// consecutive, non-empty slices of `text` that cover it from its first byte to its
/// last, so no cluster is empty and their concatenation is `text` again.
#[verifier::external_body]
pub(crate) fn graphemes(text: &str) -> (clusters: Vec<String>)
    ensures
        texts_of(clusters@) == grapheme_clusters(text@),
        is_segmentation(text@, texts_of(clusters@)),
{
    text.graphemes(true).map(String::from).collect()
}

/// Calls `UnicodeWidthStr::width`.
///
/// Trusted: the result is `display_width(text@)`.
#[verifier::external_body]
pub(crate) fn measured_width(text: &str) -> (width: usize)
    ensures
        width == display_width(text@),
{
    text.width()
}

/// Calls `char::is_whitespace`.
///
/// Trusted: the result is `is_whitespace(c)`.
#[verifier::external_body]
pub(crate) fn char_is_whitespace(c: char) -> (white: bool)
    ensures
        white == is_whitespace(c),
{
    c.is_whitespace()
}

/// Calls `char::is_control`.
///
/// Trusted: the result is `is_control(c)`.
#[verifier::external_body]
pub(crate) fn char_is_control(c: char) -> (control: bool)
    ensures
        control == is_control(c),
{
    c.is_control()
}

/// Calls `String::push`.
///
/// Trusted: the character is appended and nothing else changes.
#[verifier::external_body]
pub(crate) fn push_char(text: &mut String, c: char)
    ensures
        final(text)@ == old(text)@.push(c),
{
    text.push(c)
}

/// Calls `Path::file_name` on `path` and hands the name back as a string.
///
/// Trusted: nothing. What counts as the last component of a path differs from one
/// platform to the next.
#[verifier::external_body]
pub(crate) fn file_name_of(path: &str) -> (name: Option<String>) {
    Path::new(path).file_name().and_then(|name| name.to_str()).map(String::from)
}

} // verus!
