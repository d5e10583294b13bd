//! The errors of the save store: a kind to branch on and a message to show.

use vstd::prelude::*;
use vstd::string::StringExecFns;

verus! {

/// What went wrong, for callers that branch on it.
#[derive(Clone, Copy, Debug, PartialEq, Eq, Structural)]
pub enum ErrorKind {
    /// The user closed the file picker without choosing a file.
    DialogCancelled,
    /// The file or slot asked for is not there.
    NotFound,
    /// Reading, writing or removing failed for another reason.
    IoFailure,
    /// A file does not hold what it should.
    ParseFailure,
    /// A game state could not be written as JSON.
    EncodeFailure,
}

/// An error of the save store.
#[derive(Clone, Debug, PartialEq, Eq)]
pub struct SaveError {
    pub kind: ErrorKind,
    pub message: String,
}

/// A [`SaveError`] with its message as a sequence of characters.
pub struct SaveErrorView {
    pub kind: ErrorKind,
    pub message: Seq<char>,
}

impl View for SaveError {
    type V = SaveErrorView;

    open spec fn view(&self) -> SaveErrorView {
        SaveErrorView { kind: self.kind, message: self.message@ }
    }
}

/// What the store reads of a failed file operation: whether the file was
/// missing, and the system's description of the failure.
#[derive(Clone, Debug, PartialEq, Eq)]
pub struct IoFault {
    pub not_found: bool,
    pub detail: String,
}

/// The kind of error that a failed read or removal is reported as.
pub open spec fn fault_kind(fault: IoFault) -> ErrorKind {
    if fault.not_found {
        ErrorKind::NotFound
    } else {
        ErrorKind::IoFailure
    }
}

/// The error of kind `kind` whose message is `prefix` followed by `detail`.
pub open spec fn error_with(kind: ErrorKind, prefix: Seq<char>, detail: Seq<char>) -> SaveErrorView {
    SaveErrorView { kind, message: prefix + detail }
}

/// The error that a failed read or removal is reported as: not-found where
/// the file was missing, an I/O failure otherwise.
pub open spec fn fault_error(prefix: Seq<char>, fault: IoFault) -> SaveErrorView {
    error_with(fault_kind(fault), prefix, fault.detail@)
}

impl SaveError {
    /// The error of kind `kind` whose message is `prefix` followed by `detail`.
    pub fn new(kind: ErrorKind, prefix: &str, detail: &str) -> (out: SaveError)
        ensures
            out@ == error_with(kind, prefix@, detail@),
    {
        let mut message = prefix.to_owned();
        message.append(detail);
        SaveError { kind, message }
    }

    /// The error of kind `kind` whose message is `message`.
    pub fn with_message(kind: ErrorKind, message: &str) -> (out: SaveError)
        ensures
            out@ == (SaveErrorView { kind, message: message@ }),
    {
        SaveError { kind, message: message.to_owned() }
    }

    /// The error that a failed read or removal is reported as.
    pub fn from_fault(prefix: &str, fault: &IoFault) -> (out: SaveError)
        ensures
            out@ == fault_error(prefix@, *fault),
    {
        let kind = if fault.not_found {
            ErrorKind::NotFound
        } else {
            ErrorKind::IoFailure
        };
        SaveError::new(kind, prefix, fault.detail.as_str())
    }
}

} // verus!
