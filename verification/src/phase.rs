//! The phases of a worker and the steps between them that both workers share.

use vstd::prelude::*;
use crate::rejection::{forbidden, io_failure, out_of_order, RejectionView};

verus! {

/// How a file is to be opened.
#[derive(Clone, Copy, Debug, PartialEq, Eq, Structural)]
pub enum OpenMode {
    /// Open a file that exists, to read it.
    ReadExisting,
    /// Create the file, or empty it if it exists, to write it.
    CreateTruncate,
}

impl OpenMode {
    /// What a file holds after it was opened in this mode and `written` was
    /// written to it in full, if it held `before`.
    pub open spec fn stored_after(self, before: Seq<char>, written: Seq<char>) -> Seq<char> {
        match self {
            OpenMode::ReadExisting => before,
            OpenMode::CreateTruncate => written,
        }
    }
}

/// The request to open a file, made once the access is allowed.
#[derive(Debug, PartialEq, Eq)]
pub struct OpenRequest {
    pub path: String,
    pub mode: OpenMode,
}

/// The mathematical value of an [`OpenRequest`].
pub struct OpenRequestView {
    pub path: Seq<char>,
    pub mode: OpenMode,
}

impl View for OpenRequest {
    type V = OpenRequestView;

    open spec fn view(&self) -> OpenRequestView {
        OpenRequestView { path: self.path@, mode: self.mode }
    }
}

/// Where a worker stands with its request.
#[derive(Clone, Copy, Debug, PartialEq, Eq, Structural)]
pub enum Phase {
    /// Nothing has been looked at yet.
    Pending,
    /// The fields are extracted; the session has not answered yet.
    Examined,
    /// The session allows the access; the file is not open yet.
    Granted,
    /// The file is open and the worker holds its handle.
    Authorized,
    /// The handle was given out for the file operation, which has not
    /// reported back yet.
    Realizing,
    /// The request succeeded.
    Succeeded,
    /// The request failed.
    Failed,
}

impl Phase {
    /// Whether the request has reached its one outcome.
    pub open spec fn spec_is_terminal(self) -> bool {
        self is Succeeded || self is Failed
    }

    /// Whether the request has reached its one outcome.
    #[verifier::when_used_as_spec(spec_is_terminal)]
    pub fn is_terminal(self) -> (terminal: bool)
        ensures
            terminal == self.spec_is_terminal(),
    {
        match self {
            Phase::Succeeded => true,
            Phase::Failed => true,
            _ => false,
        }
    }
}

/// The request to open the examined path once the session has answered, or
/// the rejection that the answer or the phase earns.
pub open spec fn authorized(
    phase: Phase,
    path: Option<Seq<char>>,
    granted: bool,
    mode: OpenMode,
) -> Result<OpenRequestView, RejectionView> {
    if phase is Examined && path is Some {
        if granted {
            Ok(OpenRequestView { path: path->0, mode })
        } else {
            Err(forbidden())
        }
    } else {
        Err(out_of_order())
    }
}

/// The handle that a worker takes over when the open is reported, or the
/// rejection that the report or the phase earns.
pub open spec fn attached<H>(phase: Phase, opened: Result<H, String>) -> Result<H, RejectionView> {
    if phase is Granted {
        match opened {
            Ok(handle) => Ok(handle),
            Err(description) => Err(io_failure(description@)),
        }
    } else {
        Err(out_of_order())
    }
}

} // verus!
