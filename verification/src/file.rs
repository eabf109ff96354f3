//! The file services: the access they ask permission for, and the routing of
//! an action name to the worker that performs it.

use vstd::prelude::*;
use vstd::string::StringExecFns;
use mould::session::Request;
use crate::reader::ReadFileWorker;
use crate::rejection::{Rejection, RejectionKind, RejectionView};
use crate::request::{action_of, request_action};
use crate::writer::WriteFileWorker;

verus! {

/// The kind of access that an action performs on a file.
#[derive(Clone, Copy, Debug, PartialEq, Eq, Structural)]
pub enum FileAccess {
    CanRead,
    CanWrite,
    CanDelete,
}

impl FileAccess {
    /// The permission that a session is asked for to allow this access.
    pub open spec fn spec_permission(self) -> crate::FileAccessPermission {
        match self {
            FileAccess::CanRead => crate::FileAccessPermission::CanRead,
            FileAccess::CanWrite => crate::FileAccessPermission::CanWrite,
            FileAccess::CanDelete => crate::FileAccessPermission::CanDelete,
        }
    }

    /// The permission that a session is asked for to allow this access.
    #[verifier::when_used_as_spec(spec_permission)]
    pub fn permission(self) -> (permission: crate::FileAccessPermission)
        ensures
            permission == self.spec_permission(),
    {
        match self {
            FileAccess::CanRead => crate::FileAccessPermission::CanRead,
            FileAccess::CanWrite => crate::FileAccessPermission::CanWrite,
            FileAccess::CanDelete => crate::FileAccessPermission::CanDelete,
        }
    }
}

/// A question put to the session: may this path be accessed in this way?
///
/// The path is borrowed from the worker for the time of the question.
#[derive(Clone, Copy, Debug, PartialEq, Eq)]
pub struct FileAccessPermission<'a> {
    pub path: &'a str,
    pub access: FileAccess,
}

/// What a service makes of an action name.
pub enum Selection {
    /// The action reads a file.
    Read,
    /// The action writes a file.
    Write,
    /// The service knows no such action.
    Unknown,
}

/// What the file service makes of an action name.
pub open spec fn file_selection(action: Seq<char>) -> Selection {
    if action == "read-file"@ {
        Selection::Read
    } else if action == "write-file"@ {
        Selection::Write
    } else {
        Selection::Unknown
    }
}

/// What the JSON file service makes of an action name.
pub open spec fn json_selection(action: Seq<char>) -> Selection {
    if action == "read-object"@ {
        Selection::Read
    } else if action == "write-object"@ {
        Selection::Write
    } else {
        Selection::Unknown
    }
}

/// The message that turns down an action which the named service does not
/// know.
pub open spec fn unknown_action_text(action: Seq<char>, service: Seq<char>) -> Seq<char> {
    "Unknown action '"@ + action + "' for "@ + service + " service!"@
}

/// The rejection of an action which the named service does not know.
pub open spec fn unknown_action(action: Seq<char>, service: Seq<char>) -> RejectionView {
    RejectionView {
        kind: RejectionKind::UnknownAction,
        message: unknown_action_text(action, service),
    }
}

/// Where a request goes: to a fresh worker, or nowhere.
pub enum Route<H> {
    Read(ReadFileWorker<H>),
    Write(WriteFileWorker<H>),
    Reject(Rejection),
}

impl<H> Route<H> {
    /// Whether this is the route that `selection` calls for: a fresh worker
    /// of the selected kind that converts as `convert` says, or the rejection
    /// that names the action and the service.
    pub open spec fn follows(
        self,
        selection: Selection,
        convert: bool,
        action: Seq<char>,
        service: Seq<char>,
    ) -> bool {
        match self {
            Route::Read(worker) => selection is Read && worker.wf() && worker.phase() is Pending
                && worker.converts() == convert,
            Route::Write(worker) => selection is Write && worker.wf() && worker.phase() is Pending
                && worker.converts() == convert,
            Route::Reject(rejection) => selection is Unknown && rejection@ == unknown_action(
                action,
                service,
            ),
        }
    }
}

/// Builds the rejection of an action which the named service does not know.
fn reject_unknown(action: &str, service: &str) -> (rejection: Rejection)
    ensures
        rejection@ == unknown_action(action@, service@),
{
    let mut message = "Unknown action '".to_owned();
    message.append(action);
    message.append("' for ");
    message.append(service);
    message.append(" service!");
    Rejection::new(RejectionKind::UnknownAction, message)
}

/// Whether two texts are the same.
fn same_text(left: &str, right: &str) -> (same: bool)
    ensures
        same == (left@ == right@),
{
    left.to_owned() == right.to_owned()
}

/// The service for files of plain text: `read-file` and `write-file`.
pub struct FileService {}

impl FileService {
    pub fn new() -> (service: Self) {
        FileService {}
    }

    /// Routes an action name.
    ///
    /// `read-file` and `write-file` get a fresh worker that does not convert;
    /// any other name is rejected, and the rejection names it.
    pub fn route_action<H>(&self, action: &str) -> (route: Route<H>)
        ensures
            route.follows(file_selection(action@), false, action@, "file"@),
    {
        if same_text(action, "read-file") {
            Route::Read(ReadFileWorker::new(false))
        } else if same_text(action, "write-file") {
            Route::Write(WriteFileWorker::new(false))
        } else {
            Route::Reject(reject_unknown(action, "file"))
        }
    }

    /// Routes a request by its action name.
    pub fn route<H>(&self, request: &Request) -> (route: Route<H>)
        ensures
            route.follows(
                file_selection(request_action(*request)),
                false,
                request_action(*request),
                "file"@,
            ),
    {
        self.route_action(action_of(request).as_str())
    }
}

/// The service for files that hold JSON: `read-object` and `write-object`.
pub struct JsonFileService {}

impl JsonFileService {
    pub fn new() -> (service: Self) {
        JsonFileService {}
    }

    /// Routes an action name.
    ///
    /// `read-object` and `write-object` get a fresh worker that converts; any
    /// other name is rejected, and the rejection names it.
    pub fn route_action<H>(&self, action: &str) -> (route: Route<H>)
        ensures
            route.follows(json_selection(action@), true, action@, "json file"@),
    {
        if same_text(action, "read-object") {
            Route::Read(ReadFileWorker::new(true))
        } else if same_text(action, "write-object") {
            Route::Write(WriteFileWorker::new(true))
        } else {
            Route::Reject(reject_unknown(action, "json file"))
        }
    }

    /// Routes a request by its action name.
    pub fn route<H>(&self, request: &Request) -> (route: Route<H>)
        ensures
            route.follows(
                json_selection(request_action(*request)),
                true,
                request_action(*request),
                "json file"@,
            ),
    {
        self.route_action(action_of(request).as_str())
    }
}

} // verus!
