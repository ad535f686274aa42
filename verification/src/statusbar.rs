//! The bar that tells the state of the document.

use vstd::prelude::*;
use vstd::string::StringExecFns;
use crate::documentstatus::{line_count_text, modified_text, position_text, DocumentStatus};
use crate::position::minus_or_zero;
use crate::size::Size;
use crate::text::{byte_count, push_right_aligned, right_aligned};
use crate::uicomponent::UiComponent;
use crate::boundary::texts_of;

verus! {

/// The line that the status bar shows for `status` in `width` columns: the name of
/// the file, the number of lines and the mark of unsaved changes, and at the right
/// end the place of the cursor; nothing where that does not fit.
pub open spec fn status_line(status: DocumentStatus, width: usize) -> Seq<char> {
    let beginning = status.file_name@ + " - "@ + line_count_text(status) + " "@ + modified_text(
        status,
    );
    let remainder = minus_or_zero(width as int, byte_count(beginning) as int) as nat;
    let line = beginning + right_aligned(position_text(status), remainder);
    if byte_count(line) <= width {
        line
    } else {
        Seq::<char>::empty()
    }
}

/// The bar that tells the state of the document.
pub struct StatusBar {
    curr_status: DocumentStatus,
    needs_redraw: bool,
    size: Size,
}

impl Default for StatusBar {
    fn default() -> (bar: StatusBar)
        ensures
            bar.status().blank(),
            !bar.marked(),
            bar.size() == (Size { height: 0, width: 0 }),
    {
        StatusBar {
            curr_status: DocumentStatus::default(),
            needs_redraw: false,
            size: Size { height: 0, width: 0 },
        }
    }
}

impl StatusBar {
    /// The state that the bar shows.
    pub closed spec fn status(&self) -> DocumentStatus {
        self.curr_status
    }

    /// The bar is marked as out of date.
    pub closed spec fn marked(&self) -> bool {
        self.needs_redraw
    }

    /// The size of the bar.
    pub closed spec fn size(&self) -> Size {
        self.size
    }

    /// Takes in the state of the document. A state that differs from the one shown
    /// replaces it and marks the bar as out of date.
    pub fn update_status(&mut self, new_status: DocumentStatus)
        ensures
            final(self).size() == old(self).size(),
            new_status.same(&old(self).status()) ==> final(self).status() == old(self).status()
                && final(self).marked() == old(self).marked(),
            !new_status.same(&old(self).status()) ==> final(self).status() == new_status
                && final(self).marked(),
    {
        if new_status != self.curr_status {
            self.curr_status = new_status;
            self.needs_redraw = true;
        }
    }
}

impl UiComponent for StatusBar {
    open spec fn wf(&self) -> bool {
        true
    }

    open spec fn marked_as(&self, value: bool, after: &Self) -> bool {
        &&& after.marked() == value
        &&& after.status() == self.status()
        &&& after.size() == self.size()
    }

    open spec fn sized_as(&self, size: Size, after: &Self) -> bool {
        &&& after.size() == size
        &&& after.status() == self.status()
        &&& after.marked() == self.marked()
    }

    open spec fn out_of_date(&self) -> bool {
        self.marked()
    }

    open spec fn draws(&self, origin_y: usize, rows: Seq<Seq<char>>, after: &Self) -> bool {
        &&& rows == seq![status_line(self.status(), self.size().width)]
        &&& *after == *self
    }

    fn set_needs_redraw(&mut self, value: bool) {
        self.needs_redraw = value;
    }

    fn needs_redraw(&self) -> (needed: bool) {
        self.needs_redraw
    }

    fn draw(&mut self, origin_y: usize) -> (rows: Vec<String>) {
        // Assemble the first part of the status bar
        let line_count = self.curr_status.get_line_count_string();
        let modified_indicator = self.curr_status.get_modified_string();
        let mut beginning = self.curr_status.file_name.clone();
        beginning.append(" - ");
        beginning.append(line_count.as_str());
        beginning.append(" ");
        beginning.append(modified_indicator.as_str());
        // Assemble the whole status bar, with the position indicator at the back
        let position_indicator = self.curr_status.get_position_indicator_string();
        let remainder_len = self.size.width.saturating_sub(beginning.as_str().len());
        let mut status = beginning;
        push_right_aligned(&mut status, position_indicator.as_str(), remainder_len);
        // Only print out the status if it fits.
        // Otherwise write out an empty string to ensure the row is cleared.
        let to_print = if status.as_str().len() <= self.size.width {
            status
        } else {
            String::new()
        };
        let mut rows: Vec<String> = Vec::new();
        rows.push(to_print);
        proof {
            assert(texts_of(rows@) =~= seq![status_line(self.status(), self.size().width)]);
        }
        rows
    }

    fn set_size(&mut self, size: Size) {
        self.size = size;
    }
}

} // verus!
