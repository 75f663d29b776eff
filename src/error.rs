//! The kinds of failure a run can meet.

use vstd::prelude::*;

verus! {

#[derive(Debug, Clone, Copy, PartialEq, Eq, Structural)]
pub enum ErrorKind {
    /// The manifest cannot be parsed, or an entry lacks a field.
    ManifestMalformed,
    /// A document's file cannot be opened or decoded.
    FileUnreadable,
    /// A declared file type outside the known set.
    UnknownFileType,
    /// The result records cannot be serialized or written.
    OutputWriteFailed,
}

impl ErrorKind {
    /// Whether the error ends the run. An unreadable file or an unknown type
    /// only empties that entry's text.
    pub fn is_fatal(&self) -> (r: bool)
        ensures
            r == (*self == ErrorKind::ManifestMalformed || *self == ErrorKind::OutputWriteFailed),
    {
        match self {
            ErrorKind::ManifestMalformed => true,
            ErrorKind::OutputWriteFailed => true,
            ErrorKind::FileUnreadable => false,
            ErrorKind::UnknownFileType => false,
        }
    }
}

} // verus!
