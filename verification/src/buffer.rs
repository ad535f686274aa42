//! The document: its rows, the file it belongs to and whether it has unsaved
//! changes.

use vstd::prelude::*;
use vstd::string::StringExecFns;
use std::ops::Range;
use crate::file_info::FileInfo;
use crate::line::{
    fits, lemma_text_remove, lemma_text_split, lemma_width_until_monotonic,
    lemma_width_until_total, rendered, segments, text_fits, text_of, text_with_insert,
    text_without, texts, total_width, width_until, FragmentView, Line,
};
use crate::text::{
    lemma_lines_bound, lemma_lines_have_no_line_feed, lemma_lines_of_terminated,
    lemma_terminated_lines_of, lines_of, separable, split_lines, strip_cr, terminated,
};
use crate::boundary::{push_char, texts_of};

verus! {

/// Why a file could not be read or written.
#[derive(Clone, Copy, PartialEq, Eq, Debug, Structural)]
pub enum IoError {
    NotFound,
    PermissionDenied,
    Other,
}

/// What a document is: its rows from top to bottom, the path of its file and
/// whether it differs from what was last saved.
pub struct BufferView {
    pub rows: Seq<Seq<FragmentView>>,
    pub path: Option<Seq<char>>,
    pub dirty: bool,
}

/// The raw text of each of `rows`.
pub open spec fn row_texts(rows: Seq<Seq<FragmentView>>) -> Seq<Seq<char>> {
    rows.map_values(|row: Seq<FragmentView>| text_of(row))
}

/// The text of the file that holds `rows`.
pub open spec fn file_text(rows: Seq<Seq<FragmentView>>) -> Seq<char> {
    terminated(row_texts(rows))
}

/// `rows` is what loading `content` gives: one row for each line, segmented.
pub open spec fn loaded(content: Seq<char>, rows: Seq<Seq<FragmentView>>) -> bool {
    &&& rows.len() == lines_of(content).len()
    &&& forall|i: int| 0 <= i < rows.len() ==> segments(lines_of(content)[i], #[trigger] rows[i])
}

/// The number of graphemes in row `row`; none in a row that is not there.
pub open spec fn grapheme_count(rows: Seq<Seq<FragmentView>>, row: int) -> nat {
    if 0 <= row < rows.len() {
        rows[row].len()
    } else {
        0
    }
}

/// The number of characters in row `row`; none in a row that is not there.
pub open spec fn char_count(rows: Seq<Seq<FragmentView>>, row: int) -> nat {
    if 0 <= row < rows.len() {
        text_of(rows[row]).len()
    } else {
        0
    }
}

/// The display column at which grapheme `index` of row `row` starts; zero in a row
/// that is not there.
pub open spec fn row_width_until(rows: Seq<Seq<FragmentView>>, row: int, index: nat) -> nat {
    if 0 <= row < rows.len() {
        width_until(rows[row], index)
    } else {
        0
    }
}

/// `desired`, or the number of graphemes in row `row` if that is less.
pub open spec fn valid_grapheme_index(rows: Seq<Seq<FragmentView>>, row: int, desired: nat) -> nat {
    if desired <= grapheme_count(rows, row) {
        desired
    } else {
        grapheme_count(rows, row)
    }
}

/// The least of `index` and `count`, as an index into a sequence of `count` items
/// at which something can be put in.
pub open spec fn clamp(index: nat, count: nat) -> int {
    if index <= count {
        index as int
    } else {
        count as int
    }
}

/// `after` is `before` with `c` put into row `row` before grapheme `index`, or at
/// the end of that row where it has fewer graphemes, and the row segmented anew;
/// where `before` has no such row, `after` is `before` with one row more at its
/// end, which holds `c` alone.
pub open spec fn inserted(
    before: Seq<Seq<FragmentView>>,
    c: char,
    row: int,
    index: nat,
    after: Seq<Seq<FragmentView>>,
) -> bool {
    if 0 <= row < before.len() {
        &&& after == before.update(row, after[row])
        &&& segments(text_with_insert(before[row], c, clamp(index, before[row].len())), after[row])
    } else {
        &&& after == before.push(after.last())
        &&& segments(seq![c], after.last())
    }
}

/// `after` is `before` with grapheme `index` taken out of row `row` and the row
/// segmented anew; where `before` has no such row, `after` is `before`.
pub open spec fn deleted(
    before: Seq<Seq<FragmentView>>,
    row: int,
    index: int,
    after: Seq<Seq<FragmentView>>,
) -> bool {
    if 0 <= row < before.len() {
        &&& after == before.update(row, after[row])
        &&& segments(text_without(before[row], index), after[row])
    } else {
        after == before
    }
}

/// `after` is `before` with the text of row `row_del` added to the end of row
/// `row_merge`, that row segmented anew, and row `row_del` then taken out.
pub open spec fn merged(
    before: Seq<Seq<FragmentView>>,
    row_del: int,
    row_merge: int,
    after: Seq<Seq<FragmentView>>,
) -> bool {
    exists|joined: Seq<FragmentView>|
        {
            &&& segments(text_of(before[row_merge]) + text_of(before[row_del]), joined)
            &&& after == before.update(row_merge, joined).remove(row_del)
        }
}

/// `rows` with row `row` cut off before grapheme `index`, and what was cut off put
/// in as a row of its own before row `at`; where `rows` has no row `row`, an empty
/// row is put in.
pub open spec fn split_rows(rows: Seq<Seq<FragmentView>>, row: int, index: int, at: int) -> Seq<
    Seq<FragmentView>,
> {
    if 0 <= row < rows.len() {
        rows.update(row, rows[row].take(index)).insert(at, rows[row].skip(index))
    } else {
        rows.insert(at, seq![])
    }
}

/// Rows of which each is of a size that can be held, and few enough to count one
/// more.
pub open spec fn rows_fit(rows: Seq<Seq<FragmentView>>) -> bool {
    &&& rows.len() < usize::MAX
    &&& forall|i: int|
        0 <= i < rows.len() ==> fits((#[trigger] rows[i]).len(), text_of(rows[i]).len())
}

/// The rows of a document.
pub struct Buffer {
    lines: Vec<Line>,
    file_info: FileInfo,
    dirty: bool,
}

impl View for Buffer {
    type V = BufferView;

    closed spec fn view(&self) -> BufferView {
        BufferView {
            rows: self.lines@.map_values(|line: Line| line@),
            path: self.file_info@,
            dirty: self.dirty,
        }
    }
}

impl Buffer {
    /// An empty document without a file.
    pub fn default() -> (buffer: Buffer)
        ensures
            buffer.wf(),
            buffer@ == (BufferView { rows: seq![], path: None, dirty: false }),
    {
        let buffer = Buffer { lines: Vec::new(), file_info: FileInfo::new(), dirty: false };
        assert(buffer@.rows =~= seq![]);
        buffer
    }

    /// Every line is well formed, and there is room to count one row more.
    pub closed spec fn wf(&self) -> bool {
        &&& self.lines@.len() < usize::MAX
        &&& forall|i: int| 0 <= i < self.lines@.len() ==> (#[trigger] self.lines@[i]).wf()
    }

    /// Each row of a well-formed document is of a size that can be held, and so is
    /// the number of its rows.
    pub proof fn lemma_wf_fits(&self)
        requires
            self.wf(),
        ensures
            rows_fit(self@.rows),
    {
        assert forall|i: int| 0 <= i < self@.rows.len() implies fits(
            (#[trigger] self@.rows[i]).len(),
            text_of(self@.rows[i]).len(),
        ) by {
            self.lines@[i].lemma_wf_fits();
        }
    }

    /// Whether the document differs from what was last saved.
    pub fn is_dirty(&self) -> (dirty: bool)
        ensures
            dirty == self@.dirty,
    {
        self.dirty
    }

    /// Whether the document has a file.
    pub fn is_file_loaded(&self) -> (has: bool)
        ensures
            has == self@.path is Some,
    {
        self.file_info.has_path()
    }

    /// The path of the file behind the document.
    pub fn get_path(&self) -> (path: Option<&str>)
        ensures
            match path {
                Some(p) => self@.path == Some(p@),
                None => self@.path is None,
            },
    {
        self.file_info.get_path()
    }

    /// The name to show for the file behind the document.
    pub fn file_name(&self) -> (name: String)
        ensures
            self@.path is None ==> name@ == "[No Name]"@,
    {
        self.file_info.to_string()
    }

    /// Takes in what was read from the file `file_name`. Content that was read
    /// replaces all rows, one row for each line, and the file becomes the
    /// document's own. A failure to read leaves the document as it is and is
    /// handed back.
    pub fn load(&mut self, file_name: &str, read: Result<String, IoError>) -> (result: Result<
        (),
        IoError,
    >)
        requires
            read matches Ok(content) ==> text_fits(content@.len()),
        ensures
            match read {
                Ok(content) => {
                    &&& result is Ok
                    &&& final(self).wf()
                    &&& loaded(content@, final(self)@.rows)
                    &&& final(self)@.path == Some(file_name@)
                    &&& final(self)@.dirty == old(self)@.dirty
                },
                Err(error) => result == Err::<(), IoError>(error) && *final(self) == *old(self),
            },
    {
        match read {
            Ok(content) => {
                let texts = split_lines(content.as_str());
                let mut lines: Vec<Line> = Vec::new();
                let mut index: usize = 0;
                proof {
                    lemma_lines_bound(content@);
                }
                while index < texts.len()
                    invariant
                        index <= texts@.len(),
                        texts_of(texts@) == lines_of(content@),
                        texts@.len() <= content@.len(),
                        text_fits(content@.len()),
                        forall|i: int|
                            0 <= i < texts@.len() ==> (#[trigger] lines_of(content@)[i]).len()
                                <= content@.len(),
                        lines@.len() == index,
                        forall|i: int| 0 <= i < index ==> (#[trigger] lines@[i]).wf(),
                        forall|i: int|
                            0 <= i < index ==> segments(
                                lines_of(content@)[i],
                                (#[trigger] lines@[i])@,
                            ),
                    decreases texts@.len() - index,
                {
                    proof {
                        assert(texts_of(texts@)[index as int] == texts@[index as int]@);
                    }
                    lines.push(Line::from(texts[index].as_str()));
                    index = index + 1;
                }
                self.lines = lines;
                self.file_info = FileInfo::from(file_name);
                Ok(())
            },
            Err(error) => Err(error),
        }
    }

    /// The text that saving writes: the raw text of each row with a line feed
    /// after it.
    pub fn file_text(&self) -> (text: String)
        ensures
            text@ == file_text(self@.rows),
    {
        let mut text = String::new();
        let mut index: usize = 0;
        proof {
            assert(row_texts(self@.rows.take(0)) =~= seq![]);
        }
        while index < self.lines.len()
            invariant
                index <= self.lines@.len(),
                text@ == file_text(self@.rows.take(index as int)),
            decreases self.lines@.len() - index,
        {
            proof {
                let before = row_texts(self@.rows.take(index as int));
                let after = row_texts(self@.rows.take(index + 1));
                assert(after.drop_last() =~= before);
                assert(after.last() == text_of(self@.rows[index as int]));
            }
            let row = self.lines[index].as_string();
            text.append(row.as_str());
            push_char(&mut text, '\n');
            index = index + 1;
        }
        proof {
            assert(self@.rows.take(index as int) =~= self@.rows);
        }
        text
    }

    /// Takes in how writing `file_text()` to the document's file went. A document
    /// without a file has nothing written and stays as it is; otherwise success
    /// clears the mark of unsaved changes, and a failure is handed back.
    pub fn save(&mut self, written: Result<(), IoError>) -> (result: Result<(), IoError>)
        ensures
            final(self).wf() == old(self).wf(),
            final(self)@.rows == old(self)@.rows,
            final(self)@.path == old(self)@.path,
            old(self)@.path is None ==> result is Ok && final(self)@.dirty == old(self)@.dirty,
            old(self)@.path is Some ==> result == written && final(self)@.dirty == (old(
                self,
            )@.dirty && written is Err),
    {
        if self.file_info.has_path() {
            if written.is_ok() {
                self.dirty = false;
            }
            written
        } else {
            Ok(())
        }
    }

    /// Takes in how writing `file_text()` to the file `file_name` went. Success
    /// makes that file the document's own and clears the mark of unsaved changes;
    /// a failure leaves the document as it is and is handed back.
    pub fn save_as(&mut self, file_name: &str, written: Result<(), IoError>) -> (result: Result<
        (),
        IoError,
    >)
        ensures
            result == written,
            final(self).wf() == old(self).wf(),
            final(self)@.rows == old(self)@.rows,
            match written {
                Ok(_) => final(self)@.path == Some(file_name@) && !final(self)@.dirty,
                Err(_) => *final(self) == *old(self),
            },
    {
        if written.is_ok() {
            self.file_info = FileInfo::from(file_name);
            self.dirty = false;
        }
        written
    }

    /// Whether the document has no rows.
    pub fn is_empty(&self) -> (empty: bool)
        ensures
            empty == (self@.rows.len() == 0),
    {
        self.lines.len() == 0
    }

    /// The text drawn for the display columns `range` of row `row`; nothing for a row
    /// that is not there.
    pub fn get_line(&self, row: usize, range: Range<usize>) -> (text: Option<String>)
        requires
            self.wf(),
        ensures
            match text {
                Some(t) => row < self@.rows.len() && t@ == rendered(
                    self@.rows[row as int],
                    range.start as int,
                    range.end as int,
                ),
                None => row >= self@.rows.len(),
            },
    {
        if row < self.lines.len() {
            Some(self.lines[row].get(range))
        } else {
            None
        }
    }

    /// The display column at which grapheme `grapheme_ind` of row `row` starts.
    pub fn row_width_until(&self, row: usize, grapheme_ind: usize) -> (width: usize)
        requires
            self.wf(),
        ensures
            width == row_width_until(self@.rows, row as int, grapheme_ind as nat),
    {
        if row < self.lines.len() {
            self.lines[row].width_until(grapheme_ind)
        } else {
            0
        }
    }

    /// `grapheme_ind`, or the number of graphemes in row `row` if that is less.
    pub fn get_valid_grapheme_ind(&self, row: usize, grapheme_ind: usize) -> (index: usize)
        ensures
            index == valid_grapheme_index(self@.rows, row as int, grapheme_ind as nat),
    {
        if row < self.lines.len() {
            let count = self.lines[row].grapheme_count();
            if grapheme_ind <= count {
                grapheme_ind
            } else {
                count
            }
        } else {
            0
        }
    }

    /// The number of rows.
    pub fn height(&self) -> (height: usize)
        ensures
            height == self@.rows.len(),
    {
        self.lines.len()
    }

    /// The number of graphemes in row `row`.
    pub fn grapheme_count(&self, row: usize) -> (count: usize)
        ensures
            count == grapheme_count(self@.rows, row as int),
    {
        if row < self.lines.len() {
            self.lines[row].grapheme_count()
        } else {
            0
        }
    }

    /// The number of characters in row `row`.
    pub fn char_count(&self, row: usize) -> (count: usize)
        requires
            self.wf(),
        ensures
            count == char_count(self@.rows, row as int),
    {
        if row < self.lines.len() {
            self.lines[row].char_count()
        } else {
            0
        }
    }

    /// Puts `c` into row `row` before grapheme `grapheme_index`, or into a new row below
    /// the last where there is no row `row`, and tells in `has_len_increased` whether row
    /// `row` has more graphemes than before. Marks the document as changed.
    pub fn insert_char(
        &mut self,
        c: char,
        row: usize,
        grapheme_index: usize,
        has_len_increased: &mut bool,
    )
        requires
            old(self).wf(),
            row < old(self)@.rows.len() ==> text_fits(char_count(old(self)@.rows, row as int) + 1),
            row >= old(self)@.rows.len() ==> old(self)@.rows.len() + 1 < usize::MAX,
        ensures
            final(self).wf(),
            final(self)@.dirty,
            final(self)@.path == old(self)@.path,
            inserted(old(self)@.rows, c, row as int, grapheme_index as nat, final(self)@.rows),
            *final(has_len_increased) == (grapheme_count(final(self)@.rows, row as int)
                > grapheme_count(old(self)@.rows, row as int)),
    {
        let old_len = self.grapheme_count(row);
        if row < self.lines.len() {
            self.lines[row].insert_char(c, grapheme_index);
        } else {
            let mut s = String::new();
            push_char(&mut s, c);
            let line = Line::from(s.as_str());
            self.lines.push(line);
        }
        let new_len = self.grapheme_count(row);
        *has_len_increased = new_len > old_len;
        self.dirty = true;
        proof {
            if row < old(self)@.rows.len() {
                assert(self@.rows =~= old(self)@.rows.update(row as int, self@.rows[row as int]));
            } else {
                assert(self@.rows =~= old(self)@.rows.push(self@.rows.last()));
            }
        }
    }

    /// Takes grapheme `grapheme_index` out of row `row`, if there is such a row. Marks
    /// the document as changed.
    pub fn delete_grapheme_at(&mut self, row: usize, grapheme_index: usize)
        requires
            old(self).wf(),
        ensures
            final(self).wf(),
            final(self)@.dirty,
            final(self)@.path == old(self)@.path,
            deleted(old(self)@.rows, row as int, grapheme_index as int, final(self)@.rows),
    {
        if row < self.lines.len() {
            self.lines[row].delete_grapheme_at(grapheme_index);
        }
        self.dirty = true;
        proof {
            if row < old(self)@.rows.len() {
                assert(self@.rows =~= old(self)@.rows.update(row as int, self@.rows[row as int]));
            } else {
                assert(self@.rows =~= old(self)@.rows);
            }
        }
    }

    /// Adds the text of row `row_del` to the end of row `row_merge` and takes row
    /// `row_del` out. Marks the document as changed.
    pub fn delete_and_merge(&mut self, row_del: usize, row_merge: usize)
        requires
            old(self).wf(),
            row_del < old(self)@.rows.len(),
            row_merge < old(self)@.rows.len(),
            text_fits(char_count(old(self)@.rows, row_merge as int) + char_count(
                    old(self)@.rows,
                    row_del as int,
                )),
        ensures
            final(self).wf(),
            final(self)@.dirty,
            final(self)@.path == old(self)@.path,
            merged(old(self)@.rows, row_del as int, row_merge as int, final(self)@.rows),
    {
        let del_line_as_str = self.lines[row_del].as_string();
        self.lines[row_merge].append_str(del_line_as_str.as_str());
        let ghost joined = self.lines@[row_merge as int]@;
        proof {
            assert(self@.rows =~= old(self)@.rows.update(row_merge as int, joined));
        }
        self.lines.remove(row_del);
        self.dirty = true;
        proof {
            assert(self@.rows =~= old(self)@.rows.update(row_merge as int, joined).remove(
                row_del as int,
            ));
        }
    }

    /// Cuts row `row_split` off before grapheme `split_ind` and puts what was cut off in
    /// as a row of its own before row `row_merge`. Marks the document as changed.
    pub fn split_and_merge(&mut self, row_split: usize, split_ind: usize, row_merge: usize)
        requires
            old(self).wf(),
            old(self)@.rows.len() + 1 < usize::MAX,
            row_merge <= old(self)@.rows.len(),
            row_split < old(self)@.rows.len() ==> split_ind
                <= old(self)@.rows[row_split as int].len(),
        ensures
            final(self).wf(),
            final(self)@.dirty,
            final(self)@.path == old(self)@.path,
            final(self)@.rows == split_rows(
                old(self)@.rows,
                row_split as int,
                split_ind as int,
                row_merge as int,
            ),
    {
        let splitted_fragments = if row_split < self.lines.len() {
            proof {
                self.lines@[row_split as int].lemma_wf_fits();
                lemma_text_split(self@.rows[row_split as int], split_ind as int);
            }
            self.lines[row_split].split(split_ind)
        } else {
            Vec::new()
        };
        proof {
            assert(crate::line::views(Seq::<crate::line::TextFragment>::empty()) =~= seq![]);
            assert(crate::line::texts(Seq::<FragmentView>::empty()) =~= seq![]);
        }
        let line = Line::new(splitted_fragments);
        self.lines.insert(row_merge, line);
        self.dirty = true;
        proof {
            if row_split < old(self)@.rows.len() {
                assert(self@.rows =~= old(self)@.rows.update(
                    row_split as int,
                    old(self)@.rows[row_split as int].take(split_ind as int),
                ).insert(
                    row_merge as int,
                    old(self)@.rows[row_split as int].skip(split_ind as int),
                ));
            } else {
                assert(self@.rows =~= old(self)@.rows.insert(row_merge as int, seq![]));
            }
        }
    }
}

/// In every row, the column at which a grapheme starts never decreases as the
/// index grows, and at the number of graphemes of the row it is the width of the
/// whole row.
pub proof fn lemma_row_width_monotonic(rows: Seq<Seq<FragmentView>>, row: int, i: nat, j: nat)
    requires
        i <= j,
    ensures
        row_width_until(rows, row, i) <= row_width_until(rows, row, j),
        0 <= row < rows.len() ==> row_width_until(rows, row, grapheme_count(rows, row))
            == total_width(rows[row]),
{
    if 0 <= row < rows.len() {
        lemma_width_until_monotonic(rows[row], i, j);
        lemma_width_until_total(rows[row], rows[row].len());
    }
}

/// The raw texts of rows that were loaded are the lines of what was read.
pub proof fn lemma_loaded_texts(content: Seq<char>, rows: Seq<Seq<FragmentView>>)
    requires
        loaded(content, rows),
    ensures
        row_texts(rows) == lines_of(content),
{
    assert(row_texts(rows) =~= lines_of(content));
}

/// Saving right after loading writes the lines that were read, each with a line
/// feed after it. Where the content that was read has no carriage return, and is
/// empty or ends in a line feed, what is written is that content.
pub proof fn lemma_load_then_save(content: Seq<char>, rows: Seq<Seq<FragmentView>>)
    requires
        loaded(content, rows),
    ensures
        file_text(rows) == terminated(lines_of(content)),
        !content.contains('\r') && (content.len() == 0 || content.last() == '\n')
            ==> file_text(rows) == content,
{
    lemma_loaded_texts(content, rows);
    if !content.contains('\r') && (content.len() == 0 || content.last() == '\n') {
        lemma_terminated_lines_of(content);
    }
}

/// Rows that were loaded can be told apart again once they are written out,
/// provided that no line of what was read ends in a carriage return: loading puts
/// no line feed into a row.
pub proof fn lemma_loaded_separable(content: Seq<char>, rows: Seq<Seq<FragmentView>>)
    requires
        loaded(content, rows),
        forall|i: int|
            0 <= i < lines_of(content).len() ==> strip_cr(#[trigger] lines_of(content)[i])
                == lines_of(content)[i],
    ensures
        separable(row_texts(rows)),
        lines_of(file_text(rows)) == lines_of(content),
{
    lemma_loaded_texts(content, rows);
    lemma_lines_have_no_line_feed(content);
    lemma_lines_of_terminated(row_texts(rows));
}

/// Saving and loading again gives rows with the texts of the rows that were saved,
/// provided that no row holds a line feed or ends in a carriage return.
pub proof fn lemma_save_then_load(rows: Seq<Seq<FragmentView>>, reloaded: Seq<Seq<FragmentView>>)
    requires
        separable(row_texts(rows)),
        loaded(file_text(rows), reloaded),
    ensures
        row_texts(reloaded) == row_texts(rows),
{
    lemma_lines_of_terminated(row_texts(rows));
    lemma_loaded_texts(file_text(rows), reloaded);
}

/// Putting a character into a row before grapheme `index` and then taking grapheme
/// `index` out of the row restores the text of every row, provided that the
/// character has become grapheme `index` of the row by itself, with the text that
/// was before it still before it.
pub proof fn lemma_insert_then_delete(
    before: Seq<Seq<FragmentView>>,
    c: char,
    row: int,
    index: nat,
    mid: Seq<Seq<FragmentView>>,
    after: Seq<Seq<FragmentView>>,
)
    requires
        0 <= row < before.len(),
        index <= before[row].len(),
        inserted(before, c, row, index, mid),
        deleted(mid, row, index as int, after),
        index < mid[row].len(),
        mid[row][index as int].text == seq![c],
        text_of(mid[row].take(index as int)) == text_of(before[row].take(index as int)),
    ensures
        row_texts(after) == row_texts(before),
{
    let at = index as int;
    let (old_row, mid_row, new_row) = (before[row], mid[row], after[row]);
    lemma_text_split(old_row, at);
    lemma_text_remove(mid_row, at);
    // the text after the new grapheme is the text that was after the place of insertion
    let head = text_of(old_row.take(at));
    let tail = text_of(mid_row.skip(at + 1));
    assert(text_of(mid_row) == head + seq![c] + text_of(old_row.skip(at)));
    assert(text_of(mid_row) == head + seq![c] + tail);
    assert(tail =~= (head + seq![c] + tail).skip(head.len() as int + 1));
    assert(text_of(old_row.skip(at)) =~= (head + seq![c] + text_of(old_row.skip(at))).skip(
        head.len() as int + 1,
    ));
    assert(text_of(new_row) == text_of(old_row));
    assert(row_texts(after) =~= row_texts(before));
}

/// Putting a character in below the last row and then taking the first grapheme
/// out of the row that this made leaves that row empty.
pub proof fn lemma_insert_then_delete_new_row(
    before: Seq<Seq<FragmentView>>,
    c: char,
    mid: Seq<Seq<FragmentView>>,
    after: Seq<Seq<FragmentView>>,
)
    requires
        inserted(before, c, before.len() as int, 0, mid),
        deleted(mid, before.len() as int, 0, after),
    ensures
        row_texts(after) == row_texts(before).push(seq![]),
{
    let row = before.len() as int;
    let made = mid[row];
    assert(made == mid.last());
    assert(made.len() == 1 && made[0].text == seq![c]) by {
        let parts = texts(made);
        crate::line::lemma_flatten_at_least_count(parts);
        assert(parts.len() <= 1);
        if parts.len() == 0 {
            assert(parts.flatten() =~= Seq::<char>::empty());
        } else {
            parts.lemma_flatten_one_element();
            assert(parts[0] == parts.first());
        }
    }
    assert(made.remove(0) =~= Seq::<FragmentView>::empty());
    assert(texts(made.remove(0)) =~= Seq::<Seq<char>>::empty());
    assert(text_of(after[row]) =~= Seq::<char>::empty());
    assert(row_texts(after) =~= row_texts(before).push(seq![]));
}

} // verus!
