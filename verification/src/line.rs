//! One row of text, held as grapheme fragments with their display widths.

use vstd::prelude::*;
use vstd::seq_lib::lemma_flatten_concat;
use vstd::string::StringExecFns;
use std::ops::Range;
use crate::boundary::{
    char_is_control, char_is_whitespace, display_width, graphemes, is_control, is_segmentation,
    is_whitespace, measured_width, push_char, texts_of,
};
use crate::text::chars_of;

verus! {

/// Drawn in place of a full-width fragment that a column range cuts in two.
pub const ELLIPSIS: char = '\u{22ef}';

/// Drawn in place of white space that takes columns and is neither a space nor a tab.
pub const SPACE_MARK: char = '\u{2423}';

/// Drawn in place of a lone control character of no width.
pub const CONTROL_MARK: char = '\u{25af}';

/// Drawn in place of other text of no width.
pub const ZERO_WIDTH_MARK: char = ' ';

/// Drawn in place of an empty fragment.
pub const EMPTY_MARK: char = '.';

/// The columns that a fragment takes on screen.
#[derive(Clone, Copy, PartialEq, Eq, Debug, Structural)]
pub enum GraphemeWidth {
    Half,
    Full,
}

impl GraphemeWidth {
    /// One column for `Half`, two for `Full`.
    pub open spec fn columns(self) -> nat {
        match self {
            GraphemeWidth::Half => 1,
            GraphemeWidth::Full => 2,
        }
    }

    /// The number of columns.
    pub fn width(&self) -> (w: usize)
        ensures
            w == self.columns(),
    {
        match self {
            GraphemeWidth::Half => 1,
            GraphemeWidth::Full => 2,
        }
    }
}

/// What a fragment is: its text, the columns it takes and the glyph drawn in its
/// place, if any.
pub struct FragmentView {
    pub text: Seq<char>,
    pub width: GraphemeWidth,
    pub replacement: Option<char>,
}

impl FragmentView {
    /// What is drawn for the fragment: its replacement, or else its own text.
    pub open spec fn glyph(self) -> Seq<char> {
        match self.replacement {
            Some(c) => seq![c],
            None => self.text,
        }
    }
}

/// The glyph that stands in for a cluster, given its text, its measured width,
/// whether nothing but white space is in it, and whether its first character is a
/// control code.
pub open spec fn replacement_rule(
    text: Seq<char>,
    width: nat,
    blank: bool,
    control: bool,
) -> Option<char> {
    if text == seq![' '] {
        None
    } else if text == seq!['\t'] {
        Some(' ')
    } else if width > 0 && blank {
        Some(SPACE_MARK)
    } else if width == 0 {
        if text.len() == 0 {
            Some(EMPTY_MARK)
        } else if control && text.len() == 1 {
            Some(CONTROL_MARK)
        } else {
            Some(ZERO_WIDTH_MARK)
        }
    } else {
        None
    }
}

/// The columns of a cluster: one where it is replaced or measures at most one
/// column, two otherwise.
pub open spec fn width_rule(width: nat, replacement: Option<char>) -> GraphemeWidth {
    if replacement is Some || width <= 1 {
        GraphemeWidth::Half
    } else {
        GraphemeWidth::Full
    }
}

/// The fragment of a cluster, given what was measured of it.
pub open spec fn fragment_rule(
    text: Seq<char>,
    width: nat,
    blank: bool,
    control: bool,
) -> FragmentView {
    let replacement = replacement_rule(text, width, blank, control);
    FragmentView { text, width: width_rule(width, replacement), replacement }
}

/// Nothing but white space is in `text`.
pub open spec fn blank(text: Seq<char>) -> bool {
    forall|i: int| 0 <= i < text.len() ==> is_whitespace(#[trigger] text[i])
}

/// The first character of `text` is a control code.
pub open spec fn starts_with_control(text: Seq<char>) -> bool {
    text.len() > 0 && is_control(text[0])
}

/// The glyph that stands in for the cluster `text`.
pub open spec fn replacement_of(text: Seq<char>) -> Option<char> {
    replacement_rule(text, display_width(text), blank(text), starts_with_control(text))
}

/// The fragment of the cluster `text`.
pub open spec fn fragment_of(text: Seq<char>) -> FragmentView {
    fragment_rule(text, display_width(text), blank(text), starts_with_control(text))
}

/// The text of each fragment of `line`.
pub open spec fn texts(line: Seq<FragmentView>) -> Seq<Seq<char>> {
    line.map_values(|f: FragmentView| f.text)
}

/// The raw text of `line`: the texts of its fragments, put together.
pub open spec fn text_of(line: Seq<FragmentView>) -> Seq<char> {
    texts(line).flatten()
}

/// `line` is what segmenting `text` gives: one fragment for each cluster of `text`,
/// in order.
pub open spec fn segments(text: Seq<char>, line: Seq<FragmentView>) -> bool {
    &&& is_segmentation(text, texts(line))
    &&& forall|i: int| 0 <= i < line.len() ==> #[trigger] line[i] == fragment_of(line[i].text)
}

/// The columns taken by the first `index` fragments of `line`.
pub open spec fn columns_before(line: Seq<FragmentView>, index: int) -> nat
    decreases index,
{
    if index <= 0 {
        0
    } else {
        columns_before(line, index - 1) + line[index - 1].width.columns()
    }
}

/// The display column at which fragment `index` starts; past the last fragment, the
/// width of the whole line.
pub open spec fn width_until(line: Seq<FragmentView>, index: nat) -> nat {
    columns_before(
        line,
        if index <= line.len() {
            index as int
        } else {
            line.len() as int
        },
    )
}

/// The columns that all of `line` takes.
pub open spec fn total_width(line: Seq<FragmentView>) -> nat
    decreases line.len(),
{
    if line.len() == 0 {
        0
    } else {
        line.first().width.columns() + total_width(line.drop_first())
    }
}

/// What fragment `index` of `line` adds to the text drawn for the columns from
/// `start` up to `end`: nothing where it starts at or after `end`; an ellipsis where
/// it is two columns wide and `start` or `end` falls on its second column; its
/// glyph where it starts at or after `start`; nothing otherwise.
pub open spec fn cell(line: Seq<FragmentView>, index: int, start: int, end: int) -> Seq<char> {
    let column = columns_before(line, index);
    if column >= end {
        seq![]
    } else if line[index].width == GraphemeWidth::Full && (start == column + 1 || end == column
        + 1) {
        seq![ELLIPSIS]
    } else if column >= start {
        line[index].glyph()
    } else {
        seq![]
    }
}

/// The cells of the first `count` fragments of `line`, put together.
pub open spec fn cells_before(line: Seq<FragmentView>, count: int, start: int, end: int) -> Seq<
    char,
>
    decreases count,
{
    if count <= 0 {
        seq![]
    } else {
        cells_before(line, count - 1, start, end) + cell(line, count - 1, start, end)
    }
}

/// The text drawn for the display columns of `line` from `start` up to `end`.
pub open spec fn rendered(line: Seq<FragmentView>, start: int, end: int) -> Seq<char> {
    if start >= end {
        seq![]
    } else {
        cells_before(line, line.len() as int, start, end)
    }
}

/// The text of `line` with `c` put in before fragment `at`.
pub open spec fn text_with_insert(line: Seq<FragmentView>, c: char, at: int) -> Seq<char> {
    text_of(line.take(at)) + seq![c] + text_of(line.skip(at))
}

/// The text of `line` without fragment `at`; the whole text where there is no such
/// fragment.
pub open spec fn text_without(line: Seq<FragmentView>, at: int) -> Seq<char> {
    if 0 <= at < line.len() {
        text_of(line.remove(at))
    } else {
        text_of(line)
    }
}

/// A line of this many fragments and this many characters can be held: twice each
/// number stays below `usize::MAX`, so that every display column is a `usize` with
/// room for one more.
pub open spec fn fits(fragments: nat, chars: nat) -> bool {
    2 * fragments < usize::MAX && 2 * chars < usize::MAX
}

/// One grapheme cluster with the way it is drawn.
pub struct TextFragment {
    grapheme: String,
    rendered_width: GraphemeWidth,
    replacement: Option<char>,
}

impl View for TextFragment {
    type V = FragmentView;

    closed spec fn view(&self) -> FragmentView {
        FragmentView {
            text: self.grapheme@,
            width: self.rendered_width,
            replacement: self.replacement,
        }
    }
}

/// The view of each fragment of `fragments`.
pub open spec fn views(fragments: Seq<TextFragment>) -> Seq<FragmentView> {
    fragments.map_values(|f: TextFragment| f@)
}

impl TextFragment {
    /// The fragment for the cluster `grapheme`, measured `width` columns wide, where
    /// `blank` says that nothing but white space is in it and `control` that its
    /// first character is a control code.
    pub fn new(
        grapheme: String,
        width: usize,
        blank: bool,
        control: bool,
    ) -> (fragment: TextFragment)
        ensures
            fragment@ == fragment_rule(grapheme@, width as nat, blank, control),
    {
        let replacement = Line::choose_replacement(grapheme.as_str(), width, blank, control);
        let rendered_width = match replacement {
            Some(_) => GraphemeWidth::Half,
            None => if width <= 1 {
                GraphemeWidth::Half
            } else {
                GraphemeWidth::Full
            },
        };
        TextFragment { grapheme, rendered_width, replacement }
    }

    /// The fragment for the cluster `grapheme`, measured here.
    pub fn measure(grapheme: String) -> (fragment: TextFragment)
        ensures
            fragment@ == fragment_of(grapheme@),
    {
        let width = measured_width(grapheme.as_str());
        let blank = is_blank(grapheme.as_str());
        let control = starts_with_control_code(grapheme.as_str());
        TextFragment::new(grapheme, width, blank, control)
    }
}

/// Whether nothing but white space is in `s`.
pub fn is_blank(s: &str) -> (all: bool)
    ensures
        all == blank(s@),
{
    let chars = chars_of(s);
    let mut index: usize = 0;
    while index < chars.len()
        invariant
            chars@ == s@,
            index <= chars@.len(),
            forall|i: int| 0 <= i < index ==> is_whitespace(#[trigger] chars@[i]),
        decreases chars@.len() - index,
    {
        if !char_is_whitespace(chars[index]) {
            return false;
        }
        index = index + 1;
    }
    true
}

/// Whether the first character of `s` is a control code.
pub fn starts_with_control_code(s: &str) -> (control: bool)
    ensures
        control == starts_with_control(s@),
{
    s.unicode_len() > 0 && char_is_control(s.get_char(0))
}

/// A text of this many characters can be held as a line, however it is segmented.
pub open spec fn text_fits(chars: nat) -> bool {
    fits(chars, chars)
}

/// Whether a text of `chars` characters can be held as a line.
pub fn fits_in_line(chars: usize) -> (fitting: bool)
    ensures
        fitting == text_fits(chars as nat),
{
    chars <= (usize::MAX - 1) / 2
}

/// One row of text.
pub struct Line {
    fragments: Vec<TextFragment>,
    /// The display column at which each fragment starts, and after the last entry
    /// of `fragments` the width of the whole line.
    columns: Vec<usize>,
}

impl View for Line {
    type V = Seq<FragmentView>;

    closed spec fn view(&self) -> Seq<FragmentView> {
        views(self.fragments@)
    }
}

impl Default for Line {
    fn default() -> (line: Line)
        ensures
            line.wf(),
            line@ == Seq::<FragmentView>::empty(),
    {
        proof {
            assert(views(Seq::<TextFragment>::empty()) =~= Seq::<FragmentView>::empty());
            assert(texts(Seq::<FragmentView>::empty()) =~= Seq::<Seq<char>>::empty());
        }
        Line::new(Vec::new())
    }
}

impl Line {
    /// The table of columns goes with the fragments, and the line is of a size that
    /// can be held.
    pub closed spec fn wf(&self) -> bool {
        &&& self.columns@.len() == self.fragments@.len() + 1
        &&& forall|i: int|
            0 <= i <= self.fragments@.len() ==> #[trigger] self.columns@[i] == columns_before(
                self@,
                i,
            )
        &&& fits(self@.len(), text_of(self@).len())
    }

    /// The raw text of the line.
    pub open spec fn text(&self) -> Seq<char> {
        text_of(self@)
    }

    /// A line that is well formed is of a size that can be held.
    pub proof fn lemma_wf_fits(&self)
        requires
            self.wf(),
        ensures
            fits(self@.len(), self.text().len()),
    {
    }

    /// The line with the text `value`, segmented into grapheme clusters.
    pub fn from(value: &str) -> (line: Line)
        requires
            text_fits(value@.len()),
        ensures
            line.wf(),
            segments(value@, line@),
    {
        let fragments = Self::str_to_fragments(value);
        proof {
            lemma_segmentation_count(value@, texts(views(fragments@)));
        }
        Self::new(fragments)
    }

    /// The line that holds `fragments`, as they are.
    pub fn new(fragments: Vec<TextFragment>) -> (line: Line)
        requires
            fits(fragments@.len(), text_of(views(fragments@)).len()),
        ensures
            line.wf(),
            line@ == views(fragments@),
    {
        let columns = Self::column_table(&fragments);
        Line { fragments, columns }
    }

    /// The display column at which each of `fragments` starts, and at the end the
    /// width of them all.
    fn column_table(fragments: &Vec<TextFragment>) -> (columns: Vec<usize>)
        requires
            2 * fragments@.len() < usize::MAX,
        ensures
            columns@.len() == fragments@.len() + 1,
            forall|i: int|
                0 <= i <= fragments@.len() ==> #[trigger] columns@[i] == columns_before(
                    views(fragments@),
                    i,
                ),
    {
        let mut columns: Vec<usize> = Vec::new();
        let mut column: usize = 0;
        columns.push(column);
        let mut index: usize = 0;
        while index < fragments.len()
            invariant
                2 * fragments@.len() < usize::MAX,
                index <= fragments@.len(),
                columns@.len() == index + 1,
                column == columns_before(views(fragments@), index as int),
                column <= 2 * index,
                forall|i: int|
                    0 <= i <= index ==> #[trigger] columns@[i] == columns_before(
                        views(fragments@),
                        i,
                    ),
            decreases fragments@.len() - index,
        {
            column = column + fragments[index].rendered_width.width();
            columns.push(column);
            index = index + 1;
        }
        columns
    }

    /// The fragments of the clusters of `value`.
    pub fn str_to_fragments(value: &str) -> (fragments: Vec<TextFragment>)
        ensures
            segments(value@, views(fragments@)),
    {
        Self::measure_all(graphemes(value))
    }

    /// The fragment of each of `clusters`, in order.
    pub fn measure_all(clusters: Vec<String>) -> (fragments: Vec<TextFragment>)
        ensures
            texts(views(fragments@)) == texts_of(clusters@),
            forall|i: int|
                0 <= i < fragments@.len() ==> (#[trigger] fragments@[i])@ == fragment_of(
                    clusters@[i]@,
                ),
    {
        let mut clusters = clusters;
        let ghost all = texts_of(clusters@);
        let mut fragments: Vec<TextFragment> = Vec::new();
        let mut index: usize = 0;
        let count = clusters.len();
        while index < count
            invariant
                count == clusters@.len(),
                index <= count,
                all.len() == count,
                forall|i: int| index <= i < count ==> (#[trigger] clusters@[i])@ == all[i],
                fragments@.len() == index,
                forall|i: int|
                    0 <= i < index ==> (#[trigger] fragments@[i])@ == fragment_of(all[i]),
            decreases count - index,
        {
            let mut cluster = String::new();
            std::mem::swap(&mut cluster, &mut clusters[index]);
            fragments.push(TextFragment::measure(cluster));
            index = index + 1;
        }
        proof {
            assert(texts(views(fragments@)) =~= all);
        }
        fragments
    }

    /// Picks the glyph that stands in for the cluster `s`, measured `width` columns
    /// wide, where `blank` says that nothing but white space is in it and `control`
    /// that its first character is a control code.
    pub fn choose_replacement(
        s: &str,
        width: usize,
        blank: bool,
        control: bool,
    ) -> (replacement: Option<char>)
        ensures
            replacement == replacement_rule(s@, width as nat, blank, control),
    {
        let len = s.unicode_len();
        if len == 1 && s.get_char(0) == ' ' {
            assert(s@ =~= seq![' ']);
            None
        } else if len == 1 && s.get_char(0) == '\t' {
            assert(s@ =~= seq!['\t']);
            Some(' ')
        } else {
            assert(s@ != seq![' '] && s@ != seq!['\t']) by {
                if s@ == seq![' '] || s@ == seq!['\t'] {
                    assert(s@.len() == 1);
                }
            }
            if width > 0 && blank {
                Some(SPACE_MARK)
            } else if width == 0 {
                if len == 0 {
                    Some(EMPTY_MARK)
                } else if control && len == 1 {
                    Some(CONTROL_MARK)
                } else {
                    Some(ZERO_WIDTH_MARK)
                }
            } else {
                None
            }
        }
    }

    /// The glyph that stands in for the cluster `s`, if it is not drawn as it is.
    pub fn replacement_character(s: &str) -> (replacement: Option<char>)
        ensures
            replacement == replacement_of(s@),
    {
        let width = measured_width(s);
        let blank = is_blank(s);
        let control = starts_with_control_code(s);
        Self::choose_replacement(s, width, blank, control)
    }

    /// The number of graphemes.
    pub fn grapheme_count(&self) -> (count: usize)
        ensures
            count == self@.len(),
    {
        self.fragments.len()
    }

    /// The display column at which grapheme `grapheme_index` starts; past the last
    /// grapheme, the width of the line.
    pub fn width_until(&self, grapheme_index: usize) -> (width: usize)
        requires
            self.wf(),
        ensures
            width == width_until(self@, grapheme_index as nat),
    {
        if grapheme_index <= self.fragments.len() {
            self.columns[grapheme_index]
        } else {
            self.columns[self.fragments.len()]
        }
    }

    /// Appends to `out` the text of the fragments from `from` up to `to`.
    fn append_texts(&self, out: &mut String, from: usize, to: usize)
        requires
            from <= to <= self@.len(),
        ensures
            final(out)@ == old(out)@ + text_of(self@.subrange(from as int, to as int)),
    {
        let mut index = from;
        proof {
            assert(texts(self@.subrange(from as int, from as int)) =~= Seq::<Seq<char>>::empty());
        }
        while index < to
            invariant
                from <= index <= to <= self@.len(),
                out@ == old(out)@ + text_of(self@.subrange(from as int, index as int)),
            decreases to - index,
        {
            proof {
                let before = texts(self@.subrange(from as int, index as int));
                assert(texts(self@.subrange(from as int, index + 1)) =~= before.push(
                    self@[index as int].text,
                ));
                before.lemma_flatten_push(self@[index as int].text);
            }
            out.append(self.fragments[index].grapheme.as_str());
            index = index + 1;
        }
    }

    /// The text drawn for the display columns `range`.
    pub fn get(&self, range: Range<usize>) -> (res: String)
        requires
            self.wf(),
        ensures
            res@ == rendered(self@, range.start as int, range.end as int),
    {
        let mut res = String::new();
        let (l, r) = (range.start, range.end);
        if l >= r {
            return res;
        }
        let count = self.fragments.len();
        let mut index: usize = 0;
        while index < count && self.columns[index] < r
            invariant
                self.wf(),
                count == self@.len(),
                index <= count,
                res@ == cells_before(self@, index as int, l as int, r as int),
            decreases count - index,
        {
            let column = self.columns[index];
            let fragment = &self.fragments[index];
            proof {
                lemma_columns_bound(self@, index as int);
            }
            match fragment.rendered_width {
                GraphemeWidth::Full if l == column + 1 || r == column + 1 => {
                    push_char(&mut res, ELLIPSIS);
                },
                _ => {
                    if column >= l {
                        match fragment.replacement {
                            Some(c) => push_char(&mut res, c),
                            None => res.append(fragment.grapheme.as_str()),
                        }
                    }
                },
            }
            index = index + 1;
        }
        proof {
            if index < count {
                lemma_cells_end(self@, index as int, count as int, l as int, r as int);
            }
        }
        res
    }

    /// Puts `c` in before grapheme `grapheme_index`, or at the end where the line has
    /// fewer graphemes, and segments the line anew.
    pub fn insert_char(&mut self, c: char, grapheme_index: usize)
        requires
            old(self).wf(),
            text_fits(old(self).text().len() + 1),
        ensures
            final(self).wf(),
            segments(
                text_with_insert(
                    old(self)@,
                    c,
                    if grapheme_index <= old(self)@.len() {
                        grapheme_index as int
                    } else {
                        old(self)@.len() as int
                    },
                ),
                final(self)@,
            ),
    {
        let count = self.fragments.len();
        let at = if grapheme_index <= count {
            grapheme_index
        } else {
            count
        };
        let mut new_str = String::new();
        self.append_texts(&mut new_str, 0, at);
        push_char(&mut new_str, c);
        self.append_texts(&mut new_str, at, count);
        proof {
            assert(self@.subrange(0, at as int) =~= self@.take(at as int));
            assert(self@.subrange(at as int, count as int) =~= self@.skip(at as int));
            lemma_text_split(self@, at as int);
            assert(new_str@ =~= text_with_insert(self@, c, at as int));
        }
        *self = Self::from(new_str.as_str());
    }

    /// Takes grapheme `grapheme_index` out, if there is one, and segments the line
    /// anew.
    pub fn delete_grapheme_at(&mut self, grapheme_index: usize)
        requires
            old(self).wf(),
        ensures
            final(self).wf(),
            segments(text_without(old(self)@, grapheme_index as int), final(self)@),
    {
        let count = self.fragments.len();
        let mut new_str = String::new();
        if grapheme_index < count {
            self.append_texts(&mut new_str, 0, grapheme_index);
            self.append_texts(&mut new_str, grapheme_index + 1, count);
            proof {
                lemma_text_remove(self@, grapheme_index as int);
                assert(self@.subrange(0, grapheme_index as int) =~= self@.take(
                    grapheme_index as int,
                ));
                assert(self@.subrange(grapheme_index + 1, count as int) =~= self@.skip(
                    grapheme_index + 1,
                ));
                assert(new_str@ =~= text_without(self@, grapheme_index as int));
            }
        } else {
            self.append_texts(&mut new_str, 0, count);
            proof {
                assert(self@.subrange(0, count as int) =~= self@);
                assert(new_str@ =~= text_without(self@, grapheme_index as int));
            }
        }
        *self = Self::from(new_str.as_str());
    }

    /// The raw text of the line.
    pub fn as_string(&self) -> (res: String)
        ensures
            res@ == self.text(),
    {
        let mut res = String::new();
        self.append_texts(&mut res, 0, self.fragments.len());
        proof {
            assert(self@.subrange(0, self@.len() as int) =~= self@);
            assert(res@ =~= self.text());
        }
        res
    }

    /// Adds `s` at the end and segments the line anew.
    pub fn append_str(&mut self, s: &str)
        requires
            old(self).wf(),
            text_fits(old(self).text().len() + s@.len()),
        ensures
            final(self).wf(),
            segments(old(self).text() + s@, final(self)@),
    {
        let mut res = self.as_string();
        res.append(s);
        *self = Self::from(res.as_str());
    }

    /// The number of characters of the line.
    pub fn char_count(&self) -> (count: usize)
        requires
            self.wf(),
        ensures
            count == self.text().len(),
    {
        let mut count: usize = 0;
        let mut index: usize = 0;
        proof {
            assert(texts(self@.take(0)) =~= Seq::<Seq<char>>::empty());
        }
        while index < self.fragments.len()
            invariant
                self.wf(),
                index <= self@.len(),
                count == text_of(self@.take(index as int)).len(),
            decreases self@.len() - index,
        {
            proof {
                let before = texts(self@.take(index as int));
                assert(texts(self@.take(index + 1)) =~= before.push(self@[index as int].text));
                before.lemma_flatten_push(self@[index as int].text);
                lemma_text_split(self@, index + 1);
            }
            count = count + self.fragments[index].grapheme.as_str().unicode_len();
            index = index + 1;
        }
        proof {
            assert(self@.take(index as int) =~= self@);
        }
        count
    }

    /// Puts `c` at the end of the line and segments the line anew.
    pub fn append_char(&mut self, c: char)
        requires
            old(self).wf(),
            text_fits(old(self).text().len() + 1),
        ensures
            final(self).wf(),
            segments(old(self).text().push(c), final(self)@),
    {
        proof {
            let whole = self@;
            assert(whole.take(whole.len() as int) =~= whole);
            assert(texts(whole.skip(whole.len() as int)) =~= Seq::<Seq<char>>::empty());
            assert(text_with_insert(whole, c, whole.len() as int) =~= text_of(whole).push(c));
        }
        self.insert_char(c, self.grapheme_count());
    }

    /// Takes the last grapheme out of the line, if it has one, and segments the
    /// line anew.
    pub fn delete_last(&mut self)
        requires
            old(self).wf(),
        ensures
            final(self).wf(),
            segments(
                text_of(
                    if old(self)@.len() > 0 {
                        old(self)@.drop_last()
                    } else {
                        old(self)@
                    },
                ),
                final(self)@,
            ),
    {
        proof {
            let whole = self@;
            if whole.len() > 0 {
                assert(whole.remove(whole.len() - 1) =~= whole.drop_last());
            }
        }
        self.delete_grapheme_at(self.grapheme_count().saturating_sub(1));
    }

    /// The display columns that the line takes.
    pub fn width(&self) -> (width: usize)
        requires
            self.wf(),
        ensures
            width == total_width(self@),
    {
        proof {
            lemma_width_until_total(self@, self@.len());
        }
        self.width_until(self.grapheme_count())
    }

    /// The raw text of the line.
    pub fn to_string(&self) -> (res: String)
        ensures
            res@ == self.text(),
    {
        self.as_string()
    }

    /// Cuts the line off before grapheme `grapheme_index` and returns what was cut
    /// off.
    pub fn split(&mut self, grapheme_index: usize) -> (rest: Vec<TextFragment>)
        requires
            old(self).wf(),
            grapheme_index <= old(self)@.len(),
        ensures
            final(self).wf(),
            final(self)@ == old(self)@.take(grapheme_index as int),
            views(rest@) == old(self)@.skip(grapheme_index as int),
    {
        let rest = self.fragments.split_off(grapheme_index);
        self.columns.truncate(grapheme_index + 1);
        proof {
            let whole = old(self)@;
            let at = grapheme_index as int;
            assert(self@ =~= whole.take(at));
            assert(views(rest@) =~= whole.skip(at));
            lemma_text_split(whole, at);
            assert forall|i: int| 0 <= i <= at implies #[trigger] self.columns@[i]
                == columns_before(self@, i) by {
                lemma_columns_agree(whole, self@, i);
            }
        }
        rest
    }
}

/// The first `index` fragments take at most two columns each.
pub proof fn lemma_columns_bound(line: Seq<FragmentView>, index: int)
    ensures
        columns_before(line, index) <= 2 * index || index < 0,
    decreases index,
{
    if index > 0 {
        lemma_columns_bound(line, index - 1);
    }
}

/// The column at which a fragment starts does not depend on what follows it.
pub proof fn lemma_columns_agree(a: Seq<FragmentView>, b: Seq<FragmentView>, index: int)
    requires
        index <= a.len(),
        index <= b.len(),
        forall|i: int| 0 <= i < index ==> a[i] == b[i],
    ensures
        columns_before(a, index) == columns_before(b, index),
    decreases index,
{
    if index > 0 {
        lemma_columns_agree(a, b, index - 1);
    }
}

/// Fragments start at columns that do not decrease from left to right.
pub proof fn lemma_columns_monotonic(line: Seq<FragmentView>, i: int, j: int)
    requires
        i <= j,
    ensures
        columns_before(line, i) <= columns_before(line, j),
    decreases j - i,
{
    if i < j {
        lemma_columns_monotonic(line, i, j - 1);
    }
}

/// From a fragment that starts at or after the end of the range on, nothing more
/// is drawn.
pub proof fn lemma_cells_end(line: Seq<FragmentView>, from: int, to: int, start: int, end: int)
    requires
        0 <= from <= to,
        columns_before(line, from) >= end,
    ensures
        cells_before(line, to, start, end) == cells_before(line, from, start, end),
    decreases to - from,
{
    if from < to {
        lemma_cells_end(line, from, to - 1, start, end);
        lemma_columns_monotonic(line, from, to - 1);
        assert(cell(line, to - 1, start, end) =~= Seq::<char>::empty());
        assert(cells_before(line, to, start, end) =~= cells_before(line, to - 1, start, end));
    }
}

/// The text of a line is the text before a fragment followed by the text from it on.
pub proof fn lemma_text_split(line: Seq<FragmentView>, at: int)
    requires
        0 <= at <= line.len(),
    ensures
        text_of(line) == text_of(line.take(at)) + text_of(line.skip(at)),
        text_of(line.take(at)).len() <= text_of(line).len(),
        text_of(line.skip(at)).len() <= text_of(line).len(),
{
    assert(texts(line) =~= texts(line.take(at)) + texts(line.skip(at)));
    lemma_flatten_concat(texts(line.take(at)), texts(line.skip(at)));
}

/// The text of a line without one fragment is the text before that fragment
/// followed by the text after it, and is no longer than the text of the line.
pub proof fn lemma_text_remove(line: Seq<FragmentView>, at: int)
    requires
        0 <= at < line.len(),
    ensures
        text_of(line.remove(at)) == text_of(line.take(at)) + text_of(line.skip(at + 1)),
        text_of(line) == text_of(line.take(at)) + line[at].text + text_of(line.skip(at + 1)),
        text_of(line.remove(at)).len() <= text_of(line).len(),
{
    assert(line.remove(at) =~= line.take(at) + line.skip(at + 1));
    assert(texts(line.remove(at)) =~= texts(line.take(at)) + texts(line.skip(at + 1)));
    lemma_flatten_concat(texts(line.take(at)), texts(line.skip(at + 1)));
    lemma_text_split(line, at);
    assert(texts(line.skip(at)) =~= seq![line[at].text] + texts(line.skip(at + 1)));
    lemma_flatten_concat(seq![line[at].text], texts(line.skip(at + 1)));
    seq![line[at].text].lemma_flatten_one_element();
    assert(seq![line[at].text].first() == line[at].text);
}

/// The column at which a grapheme starts never decreases as the index grows.
pub proof fn lemma_width_until_monotonic(line: Seq<FragmentView>, i: nat, j: nat)
    requires
        i <= j,
    ensures
        width_until(line, i) <= width_until(line, j),
{
    let a = if i <= line.len() {
        i as int
    } else {
        line.len() as int
    };
    let b = if j <= line.len() {
        j as int
    } else {
        line.len() as int
    };
    lemma_columns_monotonic(line, a, b);
}

/// At the number of graphemes, and at every index past it, `width_until` is the
/// width of the whole line.
pub proof fn lemma_width_until_total(line: Seq<FragmentView>, index: nat)
    requires
        index >= line.len(),
    ensures
        width_until(line, index) == total_width(line),
{
    lemma_columns_total(line);
}

/// The columns before the end of a line are the columns of the whole line.
pub proof fn lemma_columns_total(line: Seq<FragmentView>)
    ensures
        columns_before(line, line.len() as int) == total_width(line),
    decreases line.len(),
{
    if line.len() > 0 {
        let rest = line.drop_first();
        lemma_columns_total(rest);
        lemma_columns_shift(line, rest.len() as int);
    }
}

/// The columns before a fragment are those of the first fragment and those
/// between the two.
pub proof fn lemma_columns_shift(line: Seq<FragmentView>, index: int)
    requires
        0 <= index < line.len(),
    ensures
        columns_before(line, index + 1) == line.first().width.columns() + columns_before(
            line.drop_first(),
            index,
        ),
    decreases index,
{
    if index > 0 {
        lemma_columns_shift(line, index - 1);
        assert(line.drop_first()[index - 1] == line[index]);
    } else {
        assert(columns_before(line, 0) == 0);
        assert(line.first() == line[0]);
    }
}

/// Each fragment starts at least one column after the one before it.
pub proof fn lemma_columns_increase(line: Seq<FragmentView>, i: int, j: int)
    requires
        0 <= i <= j,
    ensures
        columns_before(line, i) + (j - i) <= columns_before(line, j),
    decreases j - i,
{
    if i < j {
        lemma_columns_increase(line, i, j - 1);
    }
}

/// Left of the range nothing is drawn: fragments that start before `start` and
/// are not cut by the range add nothing.
pub proof fn lemma_cells_start(line: Seq<FragmentView>, count: int, start: int, end: int)
    requires
        0 <= count,
        columns_before(line, count) < start,
        start < end,
    ensures
        cells_before(line, count, start, end) == Seq::<char>::empty(),
    decreases count,
{
    if count > 0 {
        lemma_columns_increase(line, count - 1, count);
        lemma_cells_start(line, count - 1, start, end);
        assert(cell(line, count - 1, start, end) =~= Seq::<char>::empty());
        assert(cells_before(line, count, start, end) =~= Seq::<char>::empty());
    }
}

/// A range of one column that is the second column of a full-width fragment is
/// drawn as the ellipsis: the fragment is not cut in two.
pub proof fn lemma_cut_full_width(line: Seq<FragmentView>, index: int)
    requires
        0 <= index < line.len(),
        line[index].width == GraphemeWidth::Full,
    ensures
        rendered(
            line,
            columns_before(line, index) as int + 1,
            columns_before(line, index) as int + 2,
        ) == seq![ELLIPSIS],
{
    let column = columns_before(line, index) as int;
    let (start, end) = (column + 1, column + 2);
    lemma_cells_start(line, index, start, end);
    assert(cell(line, index, start, end) =~= seq![ELLIPSIS]);
    assert(cells_before(line, index + 1, start, end) =~= seq![ELLIPSIS]);
    lemma_cells_end(line, index + 1, line.len() as int, start, end);
}

/// Segmentation makes no more clusters than the text has characters.
pub proof fn lemma_segmentation_count(text: Seq<char>, clusters: Seq<Seq<char>>)
    requires
        is_segmentation(text, clusters),
    ensures
        clusters.len() <= text.len(),
{
    lemma_flatten_at_least_count(clusters);
}

/// Sequences of which none is empty hold, put together, at least one item each.
pub proof fn lemma_flatten_at_least_count(parts: Seq<Seq<char>>)
    requires
        forall|i: int| 0 <= i < parts.len() ==> (#[trigger] parts[i]).len() > 0,
    ensures
        parts.len() <= parts.flatten().len(),
    decreases parts.len(),
{
    if parts.len() > 0 {
        lemma_flatten_at_least_count(parts.drop_first());
    }
}

} // verus!
