//! The cursor and the window on the document: where the cursor stands, which
//! column it aims for, and which part of the document is on screen.

use vstd::prelude::*;
use vstd::string::StringExecFns;
use vstd::view::View as _;
use std::ops::Range;
use crate::buffer::{
    char_count, deleted, grapheme_count, inserted, loaded, merged, row_texts, row_width_until,
    rows_fit, split_rows, valid_grapheme_index, Buffer, BufferView, IoError,
};
use crate::command::{EditCommand, MoveCommand};
use crate::documentstatus::DocumentStatus;
use crate::line::rendered;
use crate::text::{byte_count, centered, push_centered};
use crate::uicomponent::UiComponent;
use crate::boundary::texts_of;
use crate::line::{
    fits_in_line, lemma_columns_bound, lemma_text_split, segments, text_fits, text_of,
    FragmentView,
};
use crate::position::{minus_or_zero, Location, Position};
use crate::size::Size;

verus! {

/// Where a window of `extent` cells that starts at `offset` has to start so that
/// cell `position` is in it: at `position` where that lies before the window; where
/// it lies past the window, as far on as puts `position` into the last cell;
/// where it is, unmoved.
pub open spec fn scroll_target(offset: int, position: int, extent: int) -> int {
    if position < offset {
        position
    } else if position >= offset + extent {
        position + 1 - extent
    } else {
        offset
    }
}

/// The greeting shown in an empty document, for a window `width` columns wide:
/// nothing in a window without columns; a tilde alone where the name of the
/// program and its version, counted in bytes, do not fit beside it; else the tilde
/// and, in the middle of the remaining columns, the name and the version.
pub open spec fn welcome_message(width: nat, name: Seq<char>, version: Seq<char>) -> Seq<char> {
    let message = name + " editor -- version "@ + version;
    if width == 0 {
        seq![]
    } else if width - 1 < byte_count(message) {
        seq!['~']
    } else {
        seq!['~'] + centered(message, (width - 1) as nat)
    }
}

/// What a view is: the document, the cursor, the column that the cursor aims for,
/// the window and whether the screen is out of date.
pub struct ViewState {
    pub buffer: BufferView,
    pub needs_redraw: bool,
    pub size: Size,
    pub location: Location,
    pub offset: Position,
    pub sticky: usize,
    /// The name of the program, for the greeting.
    pub name: Seq<char>,
    /// The version of the program, for the greeting.
    pub version: Seq<char>,
}

impl ViewState {
    /// The number of rows of the document.
    pub open spec fn height(self) -> nat {
        self.buffer.rows.len()
    }

    /// The number of graphemes in row `row`.
    pub open spec fn count(self, row: int) -> nat {
        grapheme_count(self.buffer.rows, row)
    }

    /// The display column of the cursor.
    pub open spec fn column(self) -> nat {
        row_width_until(
            self.buffer.rows,
            self.location.row as int,
            self.location.grapheme_index as nat,
        )
    }

    /// The cursor stands on a row of the document or just below the last, and on
    /// the grapheme that it aims for or, where the row is shorter, at its end.
    pub open spec fn cursor_valid(self) -> bool {
        &&& rows_fit(self.buffer.rows)
        &&& self.location.row <= self.height()
        &&& self.location.grapheme_index == valid_grapheme_index(
            self.buffer.rows,
            self.location.row as int,
            self.sticky as nat,
        )
    }

    /// The cursor stands on a row of the document or just below the last, and on a
    /// grapheme of that row or at its end.
    pub open spec fn cursor_in_range(self) -> bool {
        &&& rows_fit(self.buffer.rows)
        &&& self.location.row <= self.height()
        &&& self.location.grapheme_index <= self.count(self.location.row as int)
    }

    /// The cursor is inside the window, in each direction in which the window has
    /// any extent.
    pub open spec fn in_view(self) -> bool {
        &&& self.size.height > 0 ==> self.offset.row <= self.location.row < self.offset.row
            + self.size.height
        &&& self.size.width > 0 ==> self.offset.col <= self.column() < self.offset.col
            + self.size.width
    }

    /// Where the cursor is drawn, counted from the first cell of the window.
    pub open spec fn caret(self) -> Position {
        Position {
            row: minus_or_zero(self.location.row as int, self.offset.row as int) as usize,
            col: minus_or_zero(self.column() as int, self.offset.col as int) as usize,
        }
    }

    /// The cursor is valid and inside the window.
    pub open spec fn valid(self) -> bool {
        self.cursor_valid() && self.in_view()
    }

    /// The cursor put on grapheme `grapheme_index` of row `row`, aiming for `sticky`.
    pub open spec fn at(self, row: usize, grapheme_index: usize, sticky: usize) -> ViewState {
        ViewState { location: Location { grapheme_index, row }, sticky, ..self }
    }

    /// The document replaced by `buffer`.
    pub open spec fn with_buffer(self, buffer: BufferView) -> ViewState {
        ViewState { buffer, ..self }
    }

    /// The screen marked as out of date.
    pub open spec fn redrawn(self) -> ViewState {
        ViewState { needs_redraw: true, ..self }
    }

    /// The cursor put back onto the document, if it stands below it.
    pub open spec fn on_valid_line(self) -> ViewState {
        if self.location.row <= self.height() {
            self
        } else {
            self.at(self.height() as usize, self.location.grapheme_index, self.sticky)
        }
    }

    /// The cursor put on the grapheme that it aims for or, where its row is shorter,
    /// at the end of the row.
    pub open spec fn snapped(self) -> ViewState {
        self.at(
            self.location.row,
            valid_grapheme_index(
                self.buffer.rows,
                self.location.row as int,
                self.sticky as nat,
            ) as usize,
            self.sticky,
        )
    }

    /// The cursor `step` rows up, or on the first row where there are fewer above.
    pub open spec fn moved_up(self, step: usize) -> ViewState {
        self.at(
            minus_or_zero(self.location.row as int, step as int) as usize,
            self.location.grapheme_index,
            self.sticky,
        ).snapped()
    }

    /// The cursor `step` rows down, or just below the last row where there are
    /// fewer below.
    pub open spec fn moved_down(self, step: usize) -> ViewState {
        self.at(
            if self.location.row + step <= self.height() {
                (self.location.row + step) as usize
            } else {
                self.height() as usize
            },
            self.location.grapheme_index,
            self.sticky,
        ).snapped()
    }

    /// The cursor one grapheme to the left; from the start of a row, at the end of
    /// the row above; unmoved at the start of the document.
    pub open spec fn moved_left(self) -> ViewState {
        let Location { row, grapheme_index } = self.location;
        if grapheme_index == 0 && row == 0 {
            self
        } else if grapheme_index == 0 {
            let end = self.count(row - 1) as usize;
            self.at((row - 1) as usize, end, end)
        } else {
            self.at(row, (grapheme_index - 1) as usize, (grapheme_index - 1) as usize)
        }
    }

    /// The cursor one grapheme to the right; from the end of a row, at the start of
    /// the row below; unmoved below the last row.
    pub open spec fn moved_right(self) -> ViewState {
        let Location { row, grapheme_index } = self.location;
        if row == self.height() {
            self
        } else if grapheme_index == self.count(row as int) {
            self.at((row + 1) as usize, 0, 0)
        } else {
            self.at(row, (grapheme_index + 1) as usize, (grapheme_index + 1) as usize)
        }
    }

    /// The cursor at the start of its row.
    pub open spec fn at_home(self) -> ViewState {
        self.at(self.location.row, 0, 0)
    }

    /// The cursor at the end of its row.
    pub open spec fn at_end(self) -> ViewState {
        let end = self.count(self.location.row as int) as usize;
        self.at(self.location.row, end, end)
    }

    /// The window moved, as little as can be, so that the cursor is inside it; the
    /// screen is out of date if the window moved.
    pub open spec fn scrolled(self) -> ViewState {
        let offset = Position {
            row: scroll_target(
                self.offset.row as int,
                self.location.row as int,
                self.size.height as int,
            ) as usize,
            col: scroll_target(
                self.offset.col as int,
                self.column() as int,
                self.size.width as int,
            ) as usize,
        };
        ViewState { offset, needs_redraw: self.needs_redraw || offset != self.offset, ..self }
    }

    /// The cursor moved as `command` asks.
    pub open spec fn moved(self, command: MoveCommand) -> ViewState {
        match command {
            MoveCommand::Up => self.moved_up(1),
            MoveCommand::Down => self.moved_down(1),
            MoveCommand::Left => self.moved_left(),
            MoveCommand::Right => self.moved_right(),
            MoveCommand::PageUp => self.moved_up(
                minus_or_zero(self.size.height as int, 1) as usize,
            ),
            MoveCommand::PageDown => self.moved_down(
                minus_or_zero(self.size.height as int, 1) as usize,
            ),
            MoveCommand::Home => self.at_home(),
            MoveCommand::End => self.at_end(),
        }
    }

    /// There is room in the document for what `command` adds to a row or to the
    /// rows.
    pub open spec fn has_room(self, command: EditCommand) -> bool {
        let Location { row, grapheme_index } = self.location;
        let rows = self.buffer.rows;
        match command {
            EditCommand::Insert(_) => if row < self.height() {
                text_fits(char_count(rows, row as int) + 1)
            } else {
                self.height() + 1 < usize::MAX
            },
            EditCommand::InsertNewline => self.height() + 1 < usize::MAX,
            EditCommand::DeleteBackward => grapheme_index == 0 && 0 < row < self.height()
                ==> text_fits(char_count(rows, row - 1) + char_count(rows, row as int)),
            EditCommand::DeleteForward => grapheme_index == self.count(row as int) && row + 1
                < self.height() ==> text_fits(
                char_count(rows, row as int) + char_count(rows, row + 1),
            ),
        }
    }

    /// `buffer` is marked as changed, and is of the file of this view's document.
    pub open spec fn touched(self, buffer: BufferView) -> bool {
        buffer.dirty && buffer.path == self.buffer.path
    }

    /// `buffer` is the document after `c` was put in at the cursor.
    pub open spec fn inserts(self, c: char, buffer: BufferView) -> bool {
        &&& self.touched(buffer)
        &&& inserted(
            self.buffer.rows,
            c,
            self.location.row as int,
            self.location.grapheme_index as nat,
            buffer.rows,
        )
    }

    /// The view after `c` was put in at the cursor, which made `buffer` of the
    /// document: the cursor stands behind `c` where the row has grown by it, and is
    /// else put back onto its row.
    pub open spec fn after_insert(self, buffer: BufferView) -> ViewState {
        let row = self.location.row as int;
        let with = self.with_buffer(buffer);
        (if with.count(row) > self.count(row) {
            with.moved_right()
        } else {
            with.snapped()
        }).redrawn().scrolled()
    }

    /// `buffer` is the document after the grapheme before the cursor was taken out,
    /// or, with the cursor at the start of a row that has a row above it, after the
    /// row was joined to the one above. At the start of the document and at the start
    /// of the row just below the last, nothing is taken out.
    pub open spec fn deletes_backward(self, buffer: BufferView) -> bool {
        let Location { row, grapheme_index } = self.location;
        if grapheme_index != 0 {
            &&& self.touched(buffer)
            &&& deleted(self.buffer.rows, row as int, grapheme_index - 1, buffer.rows)
        } else if 0 < row < self.height() {
            &&& self.touched(buffer)
            &&& merged(self.buffer.rows, row as int, row - 1, buffer.rows)
        } else {
            buffer == self.buffer
        }
    }

    /// The view after the deletion before the cursor, which made `buffer` of the
    /// document: the cursor has moved one to the left and is put back onto its row.
    pub open spec fn after_delete_backward(self, buffer: BufferView) -> ViewState {
        self.moved_left().with_buffer(buffer).snapped().redrawn().scrolled()
    }

    /// `buffer` is the document after the grapheme at the cursor was taken out, or,
    /// with the cursor at the end of a row that has a row below it, after that row
    /// was joined to this one. At the end of the last row and below it, nothing is
    /// taken out.
    pub open spec fn deletes_forward(self, buffer: BufferView) -> bool {
        let Location { row, grapheme_index } = self.location;
        if grapheme_index != self.count(row as int) {
            &&& self.touched(buffer)
            &&& deleted(self.buffer.rows, row as int, grapheme_index as int, buffer.rows)
        } else if row + 1 < self.height() {
            &&& self.touched(buffer)
            &&& merged(self.buffer.rows, row + 1, row as int, buffer.rows)
        } else {
            buffer == self.buffer
        }
    }

    /// The view after the deletion at the cursor, which made `buffer` of the
    /// document: the cursor is put back onto its row.
    pub open spec fn after_delete_forward(self, buffer: BufferView) -> ViewState {
        self.with_buffer(buffer).snapped().redrawn().scrolled()
    }

    /// `buffer` is the document after the row of the cursor was cut in two at the
    /// cursor, the second part being a row of its own just below; with the cursor
    /// below the last row, after an empty row was added.
    pub open spec fn breaks_line(self, buffer: BufferView) -> bool {
        let Location { row, grapheme_index } = self.location;
        &&& self.touched(buffer)
        &&& buffer.rows == split_rows(
            self.buffer.rows,
            row as int,
            grapheme_index as int,
            if row + 1 <= self.height() {
                row + 1
            } else {
                self.height() as int
            },
        )
    }

    /// The view after the line break, which made `buffer` of the document: the
    /// cursor has moved one to the right, onto the start of the new row.
    pub open spec fn after_newline(self, buffer: BufferView) -> ViewState {
        self.with_buffer(buffer).moved_right().redrawn().scrolled()
    }

    /// `after` is the view after the change that `command` asks for.
    pub open spec fn edits(self, command: EditCommand, after: ViewState) -> bool {
        match command {
            EditCommand::Insert(c) => self.inserts(c, after.buffer) && after == self.after_insert(
                after.buffer,
            ),
            EditCommand::InsertNewline => self.breaks_line(after.buffer) && after
                == self.after_newline(after.buffer),
            EditCommand::DeleteBackward => self.deletes_backward(after.buffer) && after
                == self.after_delete_backward(after.buffer),
            EditCommand::DeleteForward => self.deletes_forward(after.buffer) && after
                == self.after_delete_forward(after.buffer),
        }
    }

    /// The view after `buffer` was loaded in place of its document: the cursor is
    /// put back onto the document and onto its row.
    pub open spec fn after_load(self, buffer: BufferView) -> ViewState {
        self.with_buffer(buffer).on_valid_line().snapped().redrawn().scrolled()
    }

    /// The text of row `index` of the window, whose first row is row `origin_row`
    /// of the screen: the part of the document's row that the window shows; below
    /// the document a tilde, but for the greeting that an empty document shows in
    /// the row of the screen a third of the window's height down.
    pub open spec fn drawn_row(self, origin_row: int, index: int) -> Seq<char> {
        let row = index + self.offset.row;
        if row < self.height() {
            rendered(
                self.buffer.rows[row],
                self.offset.col as int,
                if self.offset.col + self.size.width <= usize::MAX {
                    self.offset.col + self.size.width
                } else {
                    usize::MAX as int
                },
            )
        } else if origin_row + index == self.size.height / 3 && self.height() == 0 {
            welcome_message(self.size.width as nat, self.name, self.version)
        } else {
            seq!['~']
        }
    }

    /// The rows of the window, from the top.
    pub open spec fn drawn(self, origin_row: int, rows: Seq<Seq<char>>) -> bool {
        &&& rows.len() == self.size.height
        &&& forall|i: int|
            0 <= i < rows.len() ==> #[trigger] rows[i] == self.drawn_row(origin_row, i)
    }

    /// The view of an editor that has just started, of the program `name` in the
    /// version `version`: no document, no window, the cursor at the start.
    pub open spec fn start(name: Seq<char>, version: Seq<char>) -> ViewState {
        ViewState {
            buffer: BufferView { rows: seq![], path: None, dirty: false },
            needs_redraw: false,
            size: Size { height: 0, width: 0 },
            location: Location { grapheme_index: 0, row: 0 },
            offset: Position { row: 0, col: 0 },
            sticky: 0,
            name,
            version,
        }
    }

    /// The window given the size `size`.
    pub open spec fn resized(self, size: Size) -> ViewState {
        ViewState { size, ..self }
    }
}

/// The cursor and the window on a document.
pub struct View {
    buffer: Buffer,
    needs_redraw: bool,
    size: Size,
    text_location: Location,
    scroll_offset: Position,
    max_grapheme_ind: usize,
    name: String,
    version: String,
}

impl vstd::view::View for View {
    type V = ViewState;

    closed spec fn view(&self) -> ViewState {
        ViewState {
            buffer: self.buffer@,
            needs_redraw: self.needs_redraw,
            size: self.size,
            location: self.text_location,
            offset: self.scroll_offset,
            sticky: self.max_grapheme_ind,
            name: self.name@,
            version: self.version@,
        }
    }
}

impl Default for View {
    fn default() -> (view: View)
        ensures
            view.wf(),
            view@ == ViewState::start(seq![], seq![]),
    {
        proof {
            reveal_strlit("");
            assert(""@ =~= Seq::<char>::empty());
        }
        View::new("", "")
    }
}

impl View {
    /// A view of the program `name` in the version `version`, without a document.
    pub fn new(name: &str, version: &str) -> (view: View)
        ensures
            view.wf(),
            view@ == ViewState::start(name@, version@),
    {
        View {
            buffer: Buffer::default(),
            needs_redraw: false,
            size: Size { height: 0, width: 0 },
            text_location: Location { grapheme_index: 0, row: 0 },
            scroll_offset: Position { row: 0, col: 0 },
            max_grapheme_ind: 0,
            name: String::from_str(name),
            version: String::from_str(version),
        }
    }

    /// The document is well formed, and the cursor is valid.
    spec fn cursor_wf(&self) -> bool {
        self.buffer.wf() && self@.cursor_valid()
    }

    /// The document is well formed, and the cursor is on it.
    spec fn range_wf(&self) -> bool {
        self.buffer.wf() && self@.cursor_in_range()
    }

    /// A view that is well formed is valid.
    pub proof fn lemma_wf_valid(&self)
        requires
            self.wf(),
        ensures
            self@.valid(),
    {
    }

    /// Where the cursor is drawn, counted from the first cell of the window.
    pub fn caret_position(&self) -> (position: Position)
        requires
            self.wf(),
        ensures
            position == self@.caret(),
            self@.size.height > 0 ==> position.row < self@.size.height,
            self@.size.width > 0 ==> position.col < self@.size.width,
    {
        proof {
            self.buffer.lemma_wf_fits();
            lemma_column_bound(self@);
        }
        self.text_location_to_position().saturating_sub(&self.scroll_offset)
    }

    /// Moves the cursor as `command` asks, and the window after it.
    pub fn handle_move_command(&mut self, command: MoveCommand)
        requires
            old(self).wf(),
        ensures
            final(self).wf(),
            final(self)@ == old(self)@.moved(command).scrolled(),
    {
        let Size { height, .. } = self.size;
        match command {
            MoveCommand::Up => self.move_up(1),
            MoveCommand::Down => self.move_down(1),
            MoveCommand::Left => self.move_left(),
            MoveCommand::Right => self.move_right(),
            MoveCommand::PageUp => self.move_up(height.saturating_sub(1)),
            MoveCommand::PageDown => self.move_down(height.saturating_sub(1)),
            MoveCommand::Home => self.home_action(),
            MoveCommand::End => self.end_action(),
        }
        self.scroll_into_view();
    }

    /// Moves the window so that the cursor is inside it.
    fn scroll_into_view(&mut self)
        requires
            old(self).cursor_wf(),
        ensures
            final(self).wf(),
            final(self)@ == old(self)@.scrolled(),
    {
        let Position { row, col } = self.text_location_to_position();
        proof {
            self.buffer.lemma_wf_fits();
            lemma_column_bound(self@);
        }
        self.scroll_vertically(row);
        self.scroll_horizontally(col);
    }

    /// The row and the display column of the cursor in the document.
    fn text_location_to_position(&self) -> (position: Position)
        requires
            self.buffer.wf(),
        ensures
            position.row == self@.location.row,
            position.col == self@.column(),
    {
        let row = self.text_location.row;
        let col = self.buffer.row_width_until(row, self.text_location.grapheme_index);
        Position { row, col }
    }

    /// Moves the window up or down so that row `row` is inside it.
    fn scroll_vertically(&mut self, row: usize)
        requires
            row < usize::MAX,
        ensures
            final(self)@ == (ViewState {
                offset: Position {
                    row: scroll_target(
                        old(self)@.offset.row as int,
                        row as int,
                        old(self)@.size.height as int,
                    ) as usize,
                    col: old(self)@.offset.col,
                },
                needs_redraw: old(self)@.needs_redraw || scroll_target(
                    old(self)@.offset.row as int,
                    row as int,
                    old(self)@.size.height as int,
                ) != old(self)@.offset.row,
                ..old(self)@
            }),
            final(self).buffer == old(self).buffer,
    {
        let height = self.size.height;
        let mut s_row = self.scroll_offset.row;
        let mut offset_changed = false;
        if row < s_row {
            s_row = row;
            offset_changed = true;
        } else if row >= s_row.saturating_add(height) {
            s_row = row.saturating_add(1).saturating_sub(height);
            offset_changed = true;
        }
        self.needs_redraw = self.needs_redraw || offset_changed;
        self.scroll_offset.row = s_row;
    }

    /// Moves the window left or right so that column `col` is inside it.
    fn scroll_horizontally(&mut self, col: usize)
        requires
            col < usize::MAX,
        ensures
            final(self)@ == (ViewState {
                offset: Position {
                    row: old(self)@.offset.row,
                    col: scroll_target(
                        old(self)@.offset.col as int,
                        col as int,
                        old(self)@.size.width as int,
                    ) as usize,
                },
                needs_redraw: old(self)@.needs_redraw || scroll_target(
                    old(self)@.offset.col as int,
                    col as int,
                    old(self)@.size.width as int,
                ) != old(self)@.offset.col,
                ..old(self)@
            }),
            final(self).buffer == old(self).buffer,
    {
        let width = self.size.width;
        let mut s_col = self.scroll_offset.col;
        let mut offset_changed = false;
        if col < s_col {
            s_col = col;
            offset_changed = true;
        } else if col >= s_col.saturating_add(width) {
            s_col = col.saturating_add(1).saturating_sub(width);
            offset_changed = true;
        }
        self.needs_redraw = self.needs_redraw || offset_changed;
        self.scroll_offset.col = s_col;
    }

    /// Moves the cursor `step` rows up.
    fn move_up(&mut self, step: usize)
        requires
            old(self).range_wf(),
        ensures
            final(self).cursor_wf(),
            final(self)@ == old(self)@.moved_up(step),
    {
        self.text_location.row = self.text_location.row.saturating_sub(step);
        self.snap_to_valid_grapheme();
    }

    /// Moves the cursor `step` rows down.
    fn move_down(&mut self, step: usize)
        requires
            old(self).range_wf(),
        ensures
            final(self).cursor_wf(),
            final(self)@ == old(self)@.moved_down(step),
    {
        self.text_location.row = self.text_location.row.saturating_add(step);
        self.snap_to_valid_line();
        self.snap_to_valid_grapheme();
    }

    /// Moves the cursor one grapheme to the left.
    fn move_left(&mut self)
        requires
            old(self).cursor_wf(),
        ensures
            final(self).cursor_wf(),
            final(self)@ == old(self)@.moved_left(),
    {
        if self.text_location.grapheme_index == 0 && self.text_location.row == 0 {
            return ;
        }
        if self.text_location.grapheme_index == 0 {
            self.move_up(1);
            self.move_to_end_of_line();
        } else {
            self.text_location.grapheme_index -= 1;
        }
        self.max_grapheme_ind = self.text_location.grapheme_index;
    }

    /// Moves the cursor one grapheme to the right.
    fn move_right(&mut self)
        requires
            old(self).range_wf(),
        ensures
            final(self).cursor_wf(),
            final(self)@ == old(self)@.moved_right(),
    {
        if self.text_location.row == self.buffer.height() {
            return ;
        }
        let line_width = self.buffer.grapheme_count(self.text_location.row);
        if self.text_location.grapheme_index == line_width {
            self.move_down(1);
            self.move_to_start_of_line();
        } else {
            self.text_location.grapheme_index += 1;
        }
        self.max_grapheme_ind = self.text_location.grapheme_index;
    }

    /// Moves the cursor to the start of its row.
    fn home_action(&mut self)
        requires
            old(self).range_wf(),
        ensures
            final(self).cursor_wf(),
            final(self)@ == old(self)@.at_home(),
    {
        self.move_to_start_of_line();
        self.max_grapheme_ind = self.text_location.grapheme_index;
    }

    /// Moves the cursor to the end of its row.
    fn end_action(&mut self)
        requires
            old(self).range_wf(),
        ensures
            final(self).cursor_wf(),
            final(self)@ == old(self)@.at_end(),
    {
        self.move_to_end_of_line();
        self.max_grapheme_ind = self.text_location.grapheme_index;
    }

    /// Puts the cursor at the start of its row.
    fn move_to_start_of_line(&mut self)
        ensures
            final(self)@ == old(self)@.at(old(self)@.location.row, 0, old(self)@.sticky),
            final(self).buffer == old(self).buffer,
    {
        self.text_location.grapheme_index = 0;
    }

    /// Puts the cursor at the end of its row.
    fn move_to_end_of_line(&mut self)
        ensures
            final(self)@ == old(self)@.at(
                old(self)@.location.row,
                old(self)@.count(old(self)@.location.row as int) as usize,
                old(self)@.sticky,
            ),
            final(self).buffer == old(self).buffer,
    {
        self.text_location.grapheme_index = self.buffer.grapheme_count(self.text_location.row)
    }

    /// Puts the cursor back onto the document, if it stands below it.
    fn snap_to_valid_line(&mut self)
        ensures
            final(self)@ == old(self)@.on_valid_line(),
            final(self).buffer == old(self).buffer,
    {
        let height = self.buffer.height();
        if self.text_location.row > height {
            self.text_location.row = height;
        }
    }

    /// Puts the cursor on the grapheme that it aims for, or at the end of its row
    /// where the row is shorter.
    fn snap_to_valid_grapheme(&mut self)
        ensures
            final(self)@ == old(self)@.snapped(),
            final(self).buffer == old(self).buffer,
    {
        self.text_location.grapheme_index = self.buffer.get_valid_grapheme_ind(
            self.text_location.row,
            self.max_grapheme_ind,
        );
    }

    /// Whether there is room in the document for what `command` adds.
    pub fn has_room(&self, command: EditCommand) -> (room: bool)
        requires
            self.wf(),
        ensures
            room == self@.has_room(command),
    {
        let Location { row, grapheme_index } = self.text_location;
        let height = self.buffer.height();
        proof {
            self.buffer.lemma_wf_fits();
        }
        match command {
            EditCommand::Insert(_) => if row < height {
                fits_in_line(self.buffer.char_count(row) + 1)
            } else {
                height < usize::MAX - 1
            },
            EditCommand::InsertNewline => height < usize::MAX - 1,
            EditCommand::DeleteBackward => if grapheme_index == 0 && 0 < row && row < height {
                fits_in_line(self.buffer.char_count(row - 1) + self.buffer.char_count(row))
            } else {
                true
            },
            EditCommand::DeleteForward => if grapheme_index == self.buffer.grapheme_count(row)
                && row < height && row + 1 < height {
                fits_in_line(self.buffer.char_count(row) + self.buffer.char_count(row + 1))
            } else {
                true
            },
        }
    }

    /// Changes the text at the cursor as `command` asks.
    pub fn handle_edit_command(&mut self, command: EditCommand)
        requires
            old(self).wf(),
            old(self)@.has_room(command),
        ensures
            final(self).wf(),
            old(self)@.edits(command, final(self)@),
    {
        match command {
            EditCommand::Insert(c) => self.insert_char(c),
            EditCommand::InsertNewline => self.perform_newline(),
            EditCommand::DeleteBackward => self.perform_backspace(),
            EditCommand::DeleteForward => self.perform_delete(),
        }
    }

    /// Puts `c` in at the cursor.
    pub fn insert_char(&mut self, c: char)
        requires
            old(self).wf(),
            old(self)@.has_room(EditCommand::Insert(c)),
        ensures
            final(self).wf(),
            old(self)@.inserts(c, final(self)@.buffer),
            final(self)@ == old(self)@.after_insert(final(self)@.buffer),
    {
        let mut has_len_increased = false;
        self.buffer.insert_char(
            c,
            self.text_location.row,
            self.text_location.grapheme_index,
            &mut has_len_increased,
        );
        proof {
            self.buffer.lemma_wf_fits();
        }
        if has_len_increased {
            self.move_right();
        } else {
            self.snap_to_valid_grapheme();
        }
        self.needs_redraw = true;
        self.scroll_into_view();
    }

    /// Deletes backward: the grapheme before the cursor, or the break between the row
    /// of the cursor and the row above.
    pub fn perform_backspace(&mut self)
        requires
            old(self).wf(),
            old(self)@.has_room(EditCommand::DeleteBackward),
        ensures
            final(self).wf(),
            old(self)@.deletes_backward(final(self)@.buffer),
            final(self)@ == old(self)@.after_delete_backward(final(self)@.buffer),
    {
        let Location { row, grapheme_index } = self.text_location;
        if grapheme_index != 0 {
            self.move_left();
            self.buffer.delete_grapheme_at(row, grapheme_index - 1);
        } else {
            self.move_left();
            if row > 0 && row != self.buffer.height() {
                self.buffer.delete_and_merge(row, row - 1);
            }
        }
        proof {
            self.buffer.lemma_wf_fits();
        }
        self.snap_to_valid_grapheme();
        self.needs_redraw = true;
        self.scroll_into_view();
    }

    /// Deletes forward: the grapheme at the cursor, or the break between the row of the
    /// cursor and the row below.
    pub fn perform_delete(&mut self)
        requires
            old(self).wf(),
            old(self)@.has_room(EditCommand::DeleteForward),
        ensures
            final(self).wf(),
            old(self)@.deletes_forward(final(self)@.buffer),
            final(self)@ == old(self)@.after_delete_forward(final(self)@.buffer),
    {
        let Location { row, grapheme_index } = self.text_location;
        if grapheme_index != self.buffer.grapheme_count(row) {
            self.buffer.delete_grapheme_at(row, grapheme_index);
        } else if row < self.buffer.height().saturating_sub(1) {
            self.buffer.delete_and_merge(row + 1, row);
        }
        proof {
            self.buffer.lemma_wf_fits();
        }
        self.snap_to_valid_grapheme();
        self.needs_redraw = true;
        self.scroll_into_view();
    }

    /// Breaks the row of the cursor at the cursor.
    pub fn perform_newline(&mut self)
        requires
            old(self).wf(),
            old(self)@.has_room(EditCommand::InsertNewline),
        ensures
            final(self).wf(),
            old(self)@.breaks_line(final(self)@.buffer),
            final(self)@ == old(self)@.after_newline(final(self)@.buffer),
            final(self)@.location == (Location {
                grapheme_index: 0,
                row: (old(self)@.location.row + 1) as usize,
            }),
    {
        let Location { row, grapheme_index } = self.text_location;
        let height = self.buffer.height();
        let row_merge = if row + 1 <= height {
            row + 1
        } else {
            height
        };
        self.buffer.split_and_merge(row, grapheme_index, row_merge);
        proof {
            self.buffer.lemma_wf_fits();
        }
        self.move_right();
        self.needs_redraw = true;
        self.scroll_into_view();
    }

    /// Whether the document has a file.
    pub fn is_file_loaded(&self) -> (has: bool)
        ensures
            has == self@.buffer.path is Some,
    {
        self.buffer.is_file_loaded()
    }

    /// The path of the file behind the document.
    pub fn get_path(&self) -> (path: Option<&str>)
        ensures
            match path {
                Some(p) => self@.buffer.path == Some(p@),
                None => self@.buffer.path is None,
            },
    {
        self.buffer.get_path()
    }

    /// The text that saving writes.
    pub fn file_text(&self) -> (text: String)
        ensures
            text@ == crate::buffer::file_text(self@.buffer.rows),
    {
        self.buffer.file_text()
    }

    /// Takes in what was read from the file `file_name`. Content that was read
    /// replaces the document, and the cursor is put back onto it; a failure to read
    /// leaves the view as it is and is handed back.
    pub fn load(&mut self, file_name: &str, read: Result<String, IoError>) -> (result: Result<
        (),
        IoError,
    >)
        requires
            old(self).wf(),
            read matches Ok(content) ==> text_fits(content@.len()),
        ensures
            final(self).wf(),
            match read {
                Ok(content) => {
                    &&& result is Ok
                    &&& loaded(content@, final(self)@.buffer.rows)
                    &&& final(self)@.buffer.path == Some(file_name@)
                    &&& final(self)@.buffer.dirty == old(self)@.buffer.dirty
                    &&& final(self)@ == old(self)@.after_load(final(self)@.buffer)
                },
                Err(error) => result == Err::<(), IoError>(error) && final(self)@ == old(self)@,
            },
    {
        let result = self.buffer.load(file_name, read);
        if result.is_ok() {
            proof {
                self.buffer.lemma_wf_fits();
            }
            self.snap_to_valid_line();
            self.snap_to_valid_grapheme();
            self.needs_redraw = true;
            self.scroll_into_view();
        }
        result
    }

    /// Takes in how writing `file_text()` to the document's file went.
    pub fn save(&mut self, written: Result<(), IoError>) -> (result: Result<(), IoError>)
        requires
            old(self).wf(),
        ensures
            final(self).wf(),
            final(self)@ == old(self)@.with_buffer(final(self)@.buffer),
            final(self)@.buffer.rows == old(self)@.buffer.rows,
            final(self)@.buffer.path == old(self)@.buffer.path,
            old(self)@.buffer.path is None ==> result is Ok && final(self)@.buffer.dirty == old(
                self,
            )@.buffer.dirty,
            old(self)@.buffer.path is Some ==> result == written && final(self)@.buffer.dirty == (
            old(self)@.buffer.dirty && written is Err),
    {
        self.buffer.save(written)
    }

    /// Takes in how writing `file_text()` to the file `file_name` went.
    pub fn save_as(&mut self, file_name: &str, written: Result<(), IoError>) -> (result: Result<
        (),
        IoError,
    >)
        requires
            old(self).wf(),
        ensures
            final(self).wf(),
            result == written,
            final(self)@ == old(self)@.with_buffer(final(self)@.buffer),
            final(self)@.buffer.rows == old(self)@.buffer.rows,
            match written {
                Ok(_) => final(self)@.buffer.path == Some(file_name@) && !final(self)@.buffer.dirty,
                Err(_) => final(self)@ == old(self)@,
            },
    {
        self.buffer.save_as(file_name, written)
    }

    /// Where the cursor stands in the text.
    pub fn text_location(&self) -> (location: Location)
        ensures
            location == self@.location,
    {
        self.text_location
    }

    /// The place of the window in the document.
    pub fn scroll_offset(&self) -> (offset: Position)
        ensures
            offset == self@.offset,
    {
        self.scroll_offset
    }

    /// The state of the document, as the status bar shows it.
    pub fn get_status(&self) -> (status: DocumentStatus)
        ensures
            status.total_lines == self@.height(),
            status.curr_line_ind == self@.location.row,
            status.is_modified == self@.buffer.dirty,
            self@.buffer.path is None ==> status.file_name@ == "[No Name]"@,
    {
        DocumentStatus {
            total_lines: self.buffer.height(),
            curr_line_ind: self.text_location.row,
            is_modified: self.buffer.is_dirty(),
            file_name: self.buffer.file_name(),
        }
    }

    /// The greeting for a window `width` columns wide, of the program `name` in
    /// the version `version`.
    pub fn generate_welcome_message(width: usize, name: &str, version: &str) -> (message: String)
        ensures
            message@ == welcome_message(width as nat, name@, version@),
    {
        if width == 0 {
            return String::new();
        }
        let mut welcome_message = String::from_str(name);
        welcome_message.append(" editor -- version ");
        welcome_message.append(version);
        let len = welcome_message.as_str().len();
        let remaining_width = width - 1;
        let mut message = String::from_str("~");
        proof {
            reveal_strlit("~");
            assert("~"@ =~= seq!['~']);
        }
        // hide the welcome message if it doesn't fit entirely.
        if remaining_width < len {
            return message;
        }
        push_centered(&mut message, welcome_message.as_str(), remaining_width);
        message
    }
}

impl UiComponent for View {
    /// The document is well formed, the cursor is valid and inside the window.
    closed spec fn wf(&self) -> bool {
        self.buffer.wf() && self@.valid()
    }

    open spec fn marked_as(&self, value: bool, after: &Self) -> bool {
        after.wf() && after@ == (ViewState { needs_redraw: value, ..self@ })
    }

    open spec fn sized_as(&self, size: Size, after: &Self) -> bool {
        after.wf() && after@ == self@.resized(size).scrolled()
    }

    open spec fn out_of_date(&self) -> bool {
        self@.needs_redraw
    }

    open spec fn draws(&self, origin_y: usize, rows: Seq<Seq<char>>, after: &Self) -> bool {
        self@.drawn(origin_y as int, rows) && after@ == self@
    }

    fn set_needs_redraw(&mut self, value: bool) {
        self.needs_redraw = value;
    }

    fn needs_redraw(&self) -> (needed: bool) {
        self.needs_redraw
    }

    fn draw(&mut self, origin_row: usize) -> (rows: Vec<String>) {
        let Size { height, width } = self.size;
        let vertical_center = height / 3;
        let top = self.scroll_offset.row;
        let left = self.scroll_offset.col;
        let right = self.scroll_offset.col.saturating_add(width);
        let mut rows: Vec<String> = Vec::new();
        let mut index: usize = 0;
        proof {
            reveal_strlit("~");
            assert("~"@ =~= seq!['~']);
        }
        while index < height
            invariant
                self.wf(),
                index <= height,
                height == self@.size.height,
                width == self@.size.width,
                vertical_center == height / 3,
                top == self@.offset.row,
                left == self@.offset.col,
                right == if left + width <= usize::MAX {
                    left + width
                } else {
                    usize::MAX as int
                },
                "~"@ == seq!['~'],
                rows@.len() == index,
                forall|i: int|
                    0 <= i < index ==> (#[trigger] rows@[i])@ == self@.drawn_row(
                        origin_row as int,
                        i,
                    ),
            decreases height - index,
        {
            let text = if index <= usize::MAX - top {
                self.buffer.get_line(index + top, Range { start: left, end: right })
            } else {
                None
            };
            let row = match text {
                Some(line) => line,
                None => if index <= usize::MAX - origin_row && origin_row + index == vertical_center
                    && self.buffer.is_empty() {
                    Self::generate_welcome_message(
                        width,
                        self.name.as_str(),
                        self.version.as_str(),
                    )
                } else {
                    String::from_str("~")
                },
            };
            rows.push(row);
            index = index + 1;
        }
        proof {
            assert forall|i: int| 0 <= i < texts_of(rows@).len() implies #[trigger] texts_of(
                rows@,
            )[i] == self@.drawn_row(origin_row as int, i) by {
                assert(texts_of(rows@)[i] == rows@[i]@);
            }
        }
        rows
    }

    fn set_size(&mut self, size: Size) {
        self.size = size;
        self.scroll_into_view();
    }
}

/// The cursor of a valid view stands at a column with room for one more.
pub proof fn lemma_column_bound(view: ViewState)
    requires
        rows_fit(view.buffer.rows),
    ensures
        view.column() < usize::MAX,
        view.location.row <= view.height() ==> view.location.row < usize::MAX,
{
    if view.location.row < view.height() {
        let line = view.buffer.rows[view.location.row as int];
        let index = if view.location.grapheme_index <= line.len() {
            view.location.grapheme_index as int
        } else {
            line.len() as int
        };
        lemma_columns_bound(line, index);
    }
}

/// Scrolling puts the cursor inside the window, and changes nothing but the
/// window's place and the mark of the screen; a window that has extent and holds
/// the cursor stays where it is.
pub proof fn lemma_scrolled_in_view(view: ViewState)
    requires
        view.cursor_in_range(),
    ensures
        view.scrolled().in_view(),
        view.scrolled() == (ViewState {
            offset: view.scrolled().offset,
            needs_redraw: view.scrolled().needs_redraw,
            ..view
        }),
        view.in_view() && view.size.height > 0 && view.size.width > 0 ==> view.scrolled() == view,
{
    lemma_column_bound(view);
}

/// Scrolling makes a view valid whose cursor is.
pub proof fn lemma_scrolled_valid(view: ViewState)
    requires
        view.cursor_valid(),
    ensures
        view.scrolled().valid(),
{
    lemma_scrolled_in_view(view);
}

/// The cursor of a valid view is drawn inside the window: its place, counted from
/// the first cell of the window, is less than the size of the window in each
/// direction in which the window has any extent.
pub proof fn lemma_caret_in_window(view: ViewState)
    requires
        view.valid(),
    ensures
        view.size.height > 0 ==> 0 <= view.caret().row < view.size.height,
        view.size.width > 0 ==> 0 <= view.caret().col < view.size.width,
{
    lemma_column_bound(view);
}

/// Moves keep a valid view valid.
pub proof fn lemma_moved_valid(view: ViewState, command: MoveCommand)
    requires
        view.valid(),
    ensures
        view.moved(command).scrolled().valid(),
{
    let moved = view.moved(command);
    assert(moved.cursor_valid()) by {
        match command {
            MoveCommand::Up => {},
            MoveCommand::Down => {},
            MoveCommand::Left => {},
            MoveCommand::Right => {},
            MoveCommand::PageUp => {},
            MoveCommand::PageDown => {},
            MoveCommand::Home => {},
            MoveCommand::End => {},
        }
    }
    lemma_scrolled_valid(moved);
}

/// Edits keep a valid view valid, where the document that the edit makes is of a
/// size that can be held.
pub proof fn lemma_edited_valid(view: ViewState, command: EditCommand, after: ViewState)
    requires
        view.valid(),
        view.edits(command, after),
        rows_fit(after.buffer.rows),
    ensures
        after.valid(),
{
    let with = view.with_buffer(after.buffer);
    match command {
        EditCommand::Insert(c) => {
            if with.count(view.location.row as int) > view.count(view.location.row as int) {
                lemma_scrolled_in_view(with.moved_right().redrawn());
            } else {
                lemma_scrolled_in_view(with.snapped().redrawn());
            }
        },
        EditCommand::InsertNewline => {
            lemma_scrolled_in_view(with.moved_right().redrawn());
        },
        EditCommand::DeleteBackward => {
            lemma_scrolled_in_view(view.moved_left().with_buffer(after.buffer).snapped().redrawn());
        },
        EditCommand::DeleteForward => {
            lemma_scrolled_in_view(with.snapped().redrawn());
        },
    }
}

/// A new size keeps a valid view valid.
pub proof fn lemma_resized_valid(view: ViewState, size: Size)
    requires
        view.valid(),
    ensures
        view.resized(size).scrolled().valid(),
{
    lemma_scrolled_in_view(view.resized(size));
}

/// Moving down one row and up again puts the cursor back where it was, also where
/// the row below is too short for it, provided that there is a row to move down
/// from.
pub proof fn lemma_down_then_up(view: ViewState)
    requires
        view.valid(),
        view.location.row < view.height(),
    ensures
        view.moved(MoveCommand::Down).scrolled().moved(MoveCommand::Up).scrolled().location
            == view.location,
        view.moved(MoveCommand::Down).scrolled().moved(MoveCommand::Up).scrolled().sticky
            == view.sticky,
{
    let down = view.moved(MoveCommand::Down);
    lemma_scrolled_in_view(down);
    lemma_scrolled_in_view(down.scrolled().moved(MoveCommand::Up));
}

/// Breaking a row at the cursor and then deleting backward, from the start of the
/// row that the break made, restores the text of every row.
pub proof fn lemma_newline_then_backspace(view: ViewState, broken: ViewState, joined: ViewState)
    requires
        view.valid(),
        broken.valid(),
        view.location.row < view.height(),
        view.edits(EditCommand::InsertNewline, broken),
        broken.edits(EditCommand::DeleteBackward, joined),
    ensures
        broken.location == (Location { grapheme_index: 0, row: (view.location.row + 1) as usize }),
        row_texts(joined.buffer.rows) == row_texts(view.buffer.rows),
{
    let Location { row, grapheme_index } = view.location;
    let rows = view.buffer.rows;
    let cut = broken.buffer.rows;
    lemma_scrolled_in_view(view.with_buffer(broken.buffer).moved_right().redrawn());
    assert(cut == rows.update(row as int, rows[row as int].take(grapheme_index as int)).insert(
        row + 1,
        rows[row as int].skip(grapheme_index as int),
    ));
    assert(view.with_buffer(broken.buffer).count(row as int) == grapheme_index);
    assert(broken.location == (Location { grapheme_index: 0, row: (row + 1) as usize }));
    assert(merged(cut, row + 1, row as int, joined.buffer.rows));
    let line = choose|line: Seq<FragmentView>|
        {
            &&& segments(text_of(cut[row as int]) + text_of(cut[row + 1]), line)
            &&& joined.buffer.rows == cut.update(row as int, line).remove(row + 1)
        };
    lemma_text_split(rows[row as int], grapheme_index as int);
    assert(text_of(line) == text_of(rows[row as int]));
    assert(row_texts(joined.buffer.rows) =~= row_texts(rows));
}

} // verus!
