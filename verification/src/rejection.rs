//! The terminal failures a request can end in.

use vstd::prelude::*;

verus! {

/// Why a request was turned down.
#[derive(Clone, Copy, Debug, PartialEq, Eq, Structural)]
pub enum RejectionKind {
    /// A required field is missing from the request or has the wrong type.
    MalformedRequest,
    /// The session does not allow the access that the action needs.
    Forbidden,
    /// Opening, reading, writing or decoding the file failed.
    Io,
    /// The service knows no action of the requested name.
    UnknownAction,
    /// A step was taken in a phase that does not hold what the step needs.
    ResourceLost,
}

/// A terminal failure: its kind and the message reported to the caller.
#[derive(Debug, PartialEq, Eq)]
pub struct Rejection {
    pub kind: RejectionKind,
    pub message: String,
}

/// The mathematical value of a [`Rejection`].
pub struct RejectionView {
    pub kind: RejectionKind,
    pub message: Seq<char>,
}

impl View for Rejection {
    type V = RejectionView;

    open spec fn view(&self) -> RejectionView {
        RejectionView { kind: self.kind, message: self.message@ }
    }
}

/// The message of a denied access.
pub open spec fn forbidden_text() -> Seq<char> {
    "You haven't permissions!"@
}

/// The message of a step taken while no file handle is held.
pub open spec fn handle_expected_text() -> Seq<char> {
    "File handle expected"@
}

/// The message of a step taken outside the phase it belongs to.
pub open spec fn out_of_order_text() -> Seq<char> {
    "Worker phase out of order"@
}

/// The rejection of a denied access.
pub open spec fn forbidden() -> RejectionView {
    RejectionView { kind: RejectionKind::Forbidden, message: forbidden_text() }
}

/// The rejection of a failed file operation with the given description.
pub open spec fn io_failure(description: Seq<char>) -> RejectionView {
    RejectionView { kind: RejectionKind::Io, message: description }
}

/// The rejection of a realize step that finds no file handle.
pub open spec fn handle_expected() -> RejectionView {
    RejectionView { kind: RejectionKind::ResourceLost, message: handle_expected_text() }
}

/// The rejection of a step taken outside the phase it belongs to.
pub open spec fn out_of_order() -> RejectionView {
    RejectionView { kind: RejectionKind::ResourceLost, message: out_of_order_text() }
}

impl Rejection {
    /// A rejection of the given kind with the given message.
    pub fn new(kind: RejectionKind, message: String) -> (rejection: Rejection)
        ensures
            rejection@ == (RejectionView { kind, message: message@ }),
    {
        Rejection { kind, message }
    }

    /// The rejection of a denied access.
    pub fn forbidden() -> (rejection: Rejection)
        ensures
            rejection@ == forbidden(),
    {
        Rejection { kind: RejectionKind::Forbidden, message: "You haven't permissions!".to_owned() }
    }

    /// The rejection of a failed file operation, carrying its description.
    pub fn io(description: String) -> (rejection: Rejection)
        ensures
            rejection@ == io_failure(description@),
    {
        Rejection { kind: RejectionKind::Io, message: description }
    }

    /// The rejection of a realize step that finds no file handle.
    pub fn handle_expected() -> (rejection: Rejection)
        ensures
            rejection@ == handle_expected(),
    {
        Rejection { kind: RejectionKind::ResourceLost, message: "File handle expected".to_owned() }
    }

    /// The rejection of a step taken outside the phase it belongs to.
    pub fn out_of_order() -> (rejection: Rejection)
        ensures
            rejection@ == out_of_order(),
    {
        Rejection {
            kind: RejectionKind::ResourceLost,
            message: "Worker phase out of order".to_owned(),
        }
    }
}

} // verus!
