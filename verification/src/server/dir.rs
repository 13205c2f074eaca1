use vstd::prelude::*;
use vstd::std_specs::convert::FromSpecImpl;

verus! {

/// Failures of renaming a directory
#[derive(Debug)]
pub enum LocalDirRenameError {
    NotADirectory,
    FailedToGetMetadata(std::io::Error),
    IoError(std::io::Error),
}

/// Failures of listing a directory
#[derive(Debug)]
pub enum LocalDirEntriesError {
    ReadDirError(std::io::Error),
    NextEntryError(std::io::Error),
    FileTypeError(std::io::Error),
}

impl From<LocalDirEntriesError> for std::io::Error {
    /// The I/O error behind the failure
    fn from(e: LocalDirEntriesError) -> Self {
        match e {
            LocalDirEntriesError::ReadDirError(x) => x,
            LocalDirEntriesError::NextEntryError(x) => x,
            LocalDirEntriesError::FileTypeError(x) => x,
        }
    }
}

impl FromSpecImpl<LocalDirEntriesError> for std::io::Error {
    open spec fn obeys_from_spec() -> bool {
        true
    }

    open spec fn from_spec(e: LocalDirEntriesError) -> Self {
        match e {
            LocalDirEntriesError::ReadDirError(x) => x,
            LocalDirEntriesError::NextEntryError(x) => x,
            LocalDirEntriesError::FileTypeError(x) => x,
        }
    }
}

/// An entry of a directory
#[derive(Clone, Debug, PartialEq, Eq)]
pub struct LocalDirEntry {
    pub path: String,
    pub is_file: bool,
    pub is_dir: bool,
    pub is_symlink: bool,
}

impl LocalDirEntry {
    /// The path of the entry as text
    pub fn path_to_string(&self) -> (s: String)
        ensures
            s@ == self.path@,
    {
        self.path.clone()
    }
}

} // verus!
