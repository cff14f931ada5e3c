//! The ways in which an operation can be refused.

use vstd::prelude::*;

verus! {

/// Why an operation was refused. A refused operation changes nothing.
#[derive(Clone, Copy, Debug, PartialEq, Eq, Structural)]
pub enum ErrorCode {
    /// A name or an extension is longer than its bound.
    StringTooLong,
    /// The folder sequence counter is at its largest value.
    FolderCountExceeded,
    /// The file sequence counter is at its largest value.
    FileCountExceeded,
    /// The content does not fit into the record's content region.
    DataSizeExceeded,
    /// No live record has the given id.
    NotFound,
    /// The owner's profile was created before.
    AlreadyExists,
}

impl ErrorCode {
    /// The text shown for this error.
    pub fn message(&self) -> (text: &'static str)
        ensures
            text@ == match *self {
                ErrorCode::StringTooLong => "String too long"@,
                ErrorCode::FolderCountExceeded => "Folder count exceeded"@,
                ErrorCode::FileCountExceeded => "File count exceeded"@,
                ErrorCode::DataSizeExceeded => "Data size exceeded"@,
                ErrorCode::NotFound => "Record not found"@,
                ErrorCode::AlreadyExists => "Record already exists"@,
            },
    {
        match self {
            ErrorCode::StringTooLong => "String too long",
            ErrorCode::FolderCountExceeded => "Folder count exceeded",
            ErrorCode::FileCountExceeded => "File count exceeded",
            ErrorCode::DataSizeExceeded => "Data size exceeded",
            ErrorCode::NotFound => "Record not found",
            ErrorCode::AlreadyExists => "Record already exists",
        }
    }
}

} // verus!
