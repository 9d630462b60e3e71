//! The language tag of a document, derived from its file name.

use vstd::prelude::*;
use vstd::string::StrSliceExecFns;
use vstd::string::StringExecFns;

verus! {

/// True when the file name ends in ".rs", the one extension this editor
/// recognises.
pub open spec fn is_rust_file(name: Seq<char>) -> bool {
    &&& name.len() >= 3
    &&& name[name.len() - 3] == '.'
    &&& name[name.len() - 2] == 'r'
    &&& name[name.len() - 1] == 's'
}

/// The display name that `FileType::from` assigns to a file name.
pub open spec fn file_type_name(name: Seq<char>) -> Seq<char> {
    if is_rust_file(name) {
        "Rust"@
    } else {
        "No filetype"@
    }
}

/// The kind of file a document holds, shown in the status bar.
pub struct FileType {
    name: String,
}

impl FileType {
    /// The display name of this file type.
    pub fn name(&self) -> (r: String)
        ensures
            r@ == self.spec_name(),
    {
        self.name.clone()
    }

    /// Spec view of the display name.
    pub closed spec fn spec_name(&self) -> Seq<char> {
        self.name@
    }

    /// Derives the file type from a file name by its extension.
    pub fn from(file_name: &str) -> (r: FileType)
        ensures
            r.spec_name() == file_type_name(file_name@),
    {
        let n = file_name.unicode_len();
        if n >= 3 && file_name.get_char(n - 3) == '.' && file_name.get_char(n - 2) == 'r'
            && file_name.get_char(n - 1) == 's' {
            FileType { name: String::from_str("Rust") }
        } else {
            FileType { name: String::from_str("No filetype") }
        }
    }
}

impl Default for FileType {
    /// An unrecognised file type.
    fn default() -> (r: Self)
        ensures
            r.spec_name() == "No filetype"@,
    {
        FileType { name: String::from_str("No filetype") }
    }
}

} // verus!
