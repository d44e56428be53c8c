use vstd::prelude::*;

verus! {

/// The part of the downloader's state that is saved and read back at start.
#[derive(Debug, PartialEq, Eq)]
pub struct SavedState {
    pub input_value: String,
    pub display_value: String,
}

impl Clone for SavedState {
    fn clone(&self) -> (r: Self)
        ensures
            r == *self,
    {
        SavedState { input_value: self.input_value.clone(), display_value: self.display_value.clone() }
    }
}

/// Why the saved state could not be read.
#[derive(Debug, Clone, Copy, PartialEq, Eq)]
pub enum LoadError {
    FileError,
    FormatError,
}

/// Why the state could not be saved.
#[derive(Debug, Clone, Copy, PartialEq, Eq)]
pub enum SaveError {
    DirectoryError,
    FileError,
    WriteError,
    FormatError,
}

} // verus!
