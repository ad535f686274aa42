//! The file that a document belongs to, if any.

use vstd::prelude::*;
use vstd::string::StringExecFns;
use crate::boundary::file_name_of;

verus! {

/// The identity of the file behind a document; none while the document is untitled.
pub struct FileInfo {
    path: Option<String>,
}

impl View for FileInfo {
    type V = Option<Seq<char>>;

    closed spec fn view(&self) -> Option<Seq<char>> {
        match self.path {
            Some(path) => Some(path@),
            None => None,
        }
    }
}

impl FileInfo {
    /// No file.
    pub fn new() -> (info: FileInfo)
        ensures
            info@ is None,
    {
        FileInfo { path: None }
    }

    /// The file with the path `file_name`.
    pub fn from(file_name: &str) -> (info: FileInfo)
        ensures
            info@ == Some(file_name@),
    {
        FileInfo { path: Some(String::from_str(file_name)) }
    }

    /// The path of the file.
    pub fn get_path(&self) -> (path: Option<&str>)
        ensures
            match path {
                Some(p) => self@ == Some(p@),
                None => self@ is None,
            },
    {
        match &self.path {
            Some(path) => Some(path.as_str()),
            None => None,
        }
    }

    /// Whether there is a file.
    pub fn has_path(&self) -> (has: bool)
        ensures
            has == self@ is Some,
    {
        self.path.is_some()
    }

    /// The name shown for a file whose path ends in the component `file_name`, or
    /// for one without such a component.
    pub fn name_or_default(file_name: Option<String>) -> (name: String)
        ensures
            name@ == match file_name {
                Some(n) => n@,
                None => "[No Name]"@,
            },
    {
        match file_name {
            Some(name) => name,
            None => String::from_str("[No Name]"),
        }
    }

    /// The name to show for the file: the last component of its path, and
    /// `[No Name]` where there is no path or the path has no such component.
    pub fn to_string(&self) -> (name: String)
        ensures
            self@ is None ==> name@ == "[No Name]"@,
    {
        match &self.path {
            Some(path) => Self::name_or_default(file_name_of(path.as_str())),
            None => Self::name_or_default(None),
        }
    }
}

} // verus!
