//! The bar in which the user types an answer to a prompt.

use vstd::prelude::*;
use vstd::string::StringExecFns;
use std::ops::Range;
use crate::command::EditCommand;
use crate::line::{
    fits_in_line, rendered, segments, text_fits, text_of, total_width, FragmentView, Line,
};
use crate::position::minus_or_zero;
use crate::size::Size;
use crate::text::byte_count;
use crate::uicomponent::UiComponent;
use crate::boundary::texts_of;

verus! {

/// The line that the command bar shows in `width` columns: the prompt and, of the
/// value, as much of its end as the columns behind the prompt hold; nothing where
/// that does not fit.
pub open spec fn command_line(prompt: Seq<char>, value: Seq<FragmentView>, width: usize) -> Seq<
    char,
> {
    let area = minus_or_zero(width as int, byte_count(prompt) as int);
    let end = total_width(value) as int;
    let line = prompt + rendered(value, minus_or_zero(end, area), end);
    if byte_count(line) <= width {
        line
    } else {
        Seq::<char>::empty()
    }
}

/// `a + b`, or the greatest `usize` where the sum is greater.
pub open spec fn plus_or_max(a: usize, b: usize) -> usize {
    if a + b <= usize::MAX {
        (a + b) as usize
    } else {
        usize::MAX
    }
}

/// The bar in which the user types an answer to a prompt.
pub struct CommandBar {
    prompt: String,
    value: Line,
    needs_redraw: bool,
    size: Size,
}

impl Default for CommandBar {
    fn default() -> (bar: CommandBar)
        ensures
            bar.wf(),
            bar.prompt() == Seq::<char>::empty(),
            bar.typed() == Seq::<FragmentView>::empty(),
            !bar.marked(),
            bar.size() == (Size { height: 0, width: 0 }),
    {
        CommandBar {
            prompt: String::new(),
            value: Line::default(),
            needs_redraw: false,
            size: Size { height: 0, width: 0 },
        }
    }
}

impl CommandBar {
    /// The prompt.
    pub closed spec fn prompt(&self) -> Seq<char> {
        self.prompt@
    }

    /// What was typed, as a line.
    pub closed spec fn typed(&self) -> Seq<FragmentView> {
        self.value@
    }

    /// The bar is marked as out of date.
    pub closed spec fn marked(&self) -> bool {
        self.needs_redraw
    }

    /// The size of the bar.
    pub closed spec fn size(&self) -> Size {
        self.size
    }

    /// There is room for what `command` adds to what was typed.
    pub open spec fn has_room(&self, command: EditCommand) -> bool {
        command is Insert ==> text_fits(text_of(self.typed()).len() + 1)
    }

    /// `after` is what was typed once `command` was carried out on it: a character
    /// is added at the end, deleting backward takes the last grapheme out, and
    /// nothing else changes anything.
    pub open spec fn edits(typed: Seq<FragmentView>, command: EditCommand, after: Seq<
        FragmentView,
    >) -> bool {
        match command {
            EditCommand::Insert(c) => segments(text_of(typed).push(c), after),
            EditCommand::DeleteBackward => segments(
                text_of(
                    if typed.len() > 0 {
                        typed.drop_last()
                    } else {
                        typed
                    },
                ),
                after,
            ),
            EditCommand::DeleteForward | EditCommand::InsertNewline => after == typed,
        }
    }

    /// Whether there is room for what `command` adds to what was typed.
    pub fn can_handle(&self, command: EditCommand) -> (room: bool)
        requires
            self.wf(),
        ensures
            room == self.has_room(command),
    {
        match command {
            EditCommand::Insert(_) => {
                proof {
                    self.value.lemma_wf_fits();
                }
                fits_in_line(self.value.char_count() + 1)
            },
            _ => true,
        }
    }

    /// Carries out `command` on what was typed, and marks the bar as out of date.
    pub fn handle_edit_command(&mut self, command: EditCommand)
        requires
            old(self).wf(),
            old(self).has_room(command),
        ensures
            final(self).wf(),
            Self::edits(old(self).typed(), command, final(self).typed()),
            final(self).marked(),
            final(self).prompt() == old(self).prompt(),
            final(self).size() == old(self).size(),
    {
        match command {
            EditCommand::Insert(character) => self.value.append_char(character),
            EditCommand::DeleteForward | EditCommand::InsertNewline => {},
            EditCommand::DeleteBackward => self.value.delete_last(),
        }
        self.needs_redraw = true;
    }

    /// The column of the cursor: behind the prompt and what was typed, but inside the
    /// bar.
    pub fn caret_position_col(&self) -> (col: usize)
        ensures
            col == if plus_or_max(byte_count(self.prompt()), self.typed().len() as usize)
                <= self.size().width {
                plus_or_max(byte_count(self.prompt()), self.typed().len() as usize)
            } else {
                self.size().width
            },
    {
        let max_width = self.prompt.as_str().len().saturating_add(self.value.grapheme_count());
        if max_width <= self.size.width {
            max_width
        } else {
            self.size.width
        }
    }

    /// What was typed.
    pub fn value(&self) -> (value: String)
        ensures
            value@ == text_of(self.typed()),
    {
        self.value.to_string()
    }

    /// Sets the prompt.
    pub fn set_prompt(&mut self, prompt: &str)
        ensures
            final(self).prompt() == prompt@,
            final(self).typed() == old(self).typed(),
            final(self).marked() == old(self).marked(),
            final(self).size() == old(self).size(),
            final(self).wf() == old(self).wf(),
    {
        self.prompt = String::from_str(prompt);
    }
}

impl UiComponent for CommandBar {
    closed spec fn wf(&self) -> bool {
        self.value.wf()
    }

    open spec fn marked_as(&self, value: bool, after: &Self) -> bool {
        &&& after.marked() == value
        &&& after.prompt() == self.prompt()
        &&& after.typed() == self.typed()
        &&& after.size() == self.size()
    }

    open spec fn sized_as(&self, size: Size, after: &Self) -> bool {
        &&& after.size() == size
        &&& after.prompt() == self.prompt()
        &&& after.typed() == self.typed()
        &&& after.marked() == self.marked()
    }

    open spec fn out_of_date(&self) -> bool {
        self.marked()
    }

    open spec fn draws(&self, origin_y: usize, rows: Seq<Seq<char>>, after: &Self) -> bool {
        &&& rows == seq![command_line(self.prompt(), self.typed(), self.size().width)]
        &&& *after == *self
    }

    fn set_needs_redraw(&mut self, value: bool) {
        self.needs_redraw = value;
    }

    fn needs_redraw(&self) -> (needed: bool) {
        self.needs_redraw
    }

    fn set_size(&mut self, size: Size) {
        self.size = size;
    }

    fn draw(&mut self, origin: usize) -> (rows: Vec<String>) {
        // the space between the right side of the prompt and the edge of the bar
        let area_for_value = self.size.width.saturating_sub(self.prompt.as_str().len());
        // the end of the value is always shown, so the range ends at its full width
        let value_end = self.value.width();
        // and starts as far before that as there is space
        let value_start = value_end.saturating_sub(area_for_value);
        let mut message = self.prompt.clone();
        let shown = self.value.get(Range { start: value_start, end: value_end });
        message.append(shown.as_str());
        let to_print = if message.as_str().len() <= self.size.width {
            message
        } else {
            String::new()
        };
        let mut rows: Vec<String> = Vec::new();
        rows.push(to_print);
        proof {
            assert(texts_of(rows@) =~= seq![
                command_line(self.prompt(), self.typed(), self.size().width),
            ]);
        }
        rows
    }
}

} // verus!
