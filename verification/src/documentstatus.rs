//! What the status bar says of the document.

use vstd::prelude::*;
use vstd::string::StringExecFns;
use crate::text::{decimal, decimal_string};

verus! {

/// The state of the document, as far as it is shown.
#[derive(Debug)]
pub struct DocumentStatus {
    pub total_lines: usize,
    pub curr_line_ind: usize,
    pub is_modified: bool,
    pub file_name: String,
}

/// `n + 1`, or the greatest `usize` where `n` is that already.
pub open spec fn next_or_max(n: usize) -> nat {
    if n < usize::MAX {
        (n + 1) as nat
    } else {
        n as nat
    }
}

/// What a status says of changes: `(modified)` where there are unsaved ones.
pub open spec fn modified_text(status: DocumentStatus) -> Seq<char> {
    if status.is_modified {
        "(modified)"@
    } else {
        Seq::<char>::empty()
    }
}

/// What a status says of the length of the document: the number of lines and the
/// word `lines`.
pub open spec fn line_count_text(status: DocumentStatus) -> Seq<char> {
    decimal(status.total_lines as nat) + " lines"@
}

/// What a status says of the cursor: the number of its line, counted from one, a
/// stroke and the number of lines.
pub open spec fn position_text(status: DocumentStatus) -> Seq<char> {
    decimal(next_or_max(status.curr_line_ind)) + "/"@ + decimal(status.total_lines as nat)
}

impl PartialEq for DocumentStatus {
    fn eq(&self, other: &DocumentStatus) -> (same: bool) {
        self.total_lines == other.total_lines && self.curr_line_ind == other.curr_line_ind
            && self.is_modified == other.is_modified && self.file_name == other.file_name
    }
}

impl Eq for DocumentStatus {

}

impl vstd::std_specs::cmp::PartialEqSpecImpl for DocumentStatus {
    open spec fn obeys_eq_spec() -> bool {
        true
    }

    /// Two states are equal if they say the same.
    open spec fn eq_spec(&self, other: &DocumentStatus) -> bool {
        self.same(other)
    }
}

impl Default for DocumentStatus {
    fn default() -> (status: DocumentStatus)
        ensures
            status.blank(),
    {
        DocumentStatus {
            total_lines: 0,
            curr_line_ind: 0,
            is_modified: false,
            file_name: String::new(),
        }
    }
}

impl DocumentStatus {
    /// The state says that the document is empty, unchanged and without a name.
    pub open spec fn blank(&self) -> bool {
        &&& self.total_lines == 0
        &&& self.curr_line_ind == 0
        &&& !self.is_modified
        &&& self.file_name@ == Seq::<char>::empty()
    }

    /// Whether two states say the same.
    pub open spec fn same(&self, other: &DocumentStatus) -> bool {
        &&& self.total_lines == other.total_lines
        &&& self.curr_line_ind == other.curr_line_ind
        &&& self.is_modified == other.is_modified
        &&& self.file_name@ == other.file_name@
    }

    /// What the status says of changes.
    pub fn get_modified_string(&self) -> (text: String)
        ensures
            text@ == modified_text(*self),
    {
        if self.is_modified {
            String::from_str("(modified)")
        } else {
            String::new()
        }
    }

    /// What the status says of the length of the document.
    pub fn get_line_count_string(&self) -> (text: String)
        ensures
            text@ == line_count_text(*self),
    {
        let mut text = decimal_string(self.total_lines);
        text.append(" lines");
        text
    }

    /// What the status says of the cursor.
    pub fn get_position_indicator_string(&self) -> (text: String)
        ensures
            text@ == position_text(*self),
    {
        let mut text = decimal_string(self.curr_line_ind.saturating_add(1));
        text.append("/");
        let total = decimal_string(self.total_lines);
        text.append(total.as_str());
        text
    }
}

} // verus!
