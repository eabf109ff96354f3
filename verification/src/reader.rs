//! The worker that reads a whole file.

use vstd::prelude::*;
use mould::session::Request;
use crate::file::{FileAccess, FileAccessPermission};
use crate::outcome::{item_of, Item, ItemView, Realize, RealizeView};
use crate::phase::{attached, authorized, OpenMode, OpenRequest, OpenRequestView, Phase};
use crate::rejection::{
    forbidden,
    handle_expected,
    io_failure,
    out_of_order,
    Rejection,
    RejectionView,
};
use crate::request::{extract_text_field, malformed, text_fields};
use crate::HasFileAccessPermission;

verus! {

/// Reads one file for one request.
///
/// `H` is the handle of an open file. The worker holds it from the moment
/// the file is open until the read begins, and at no other time.
pub struct ReadFileWorker<H> {
    convert: bool,
    phase: Phase,
    path: Option<String>,
    file: Option<H>,
}

/// The path that a read request names, or the rejection that it earns in the
/// given phase.
pub open spec fn read_examined(phase: Phase, request: Request) -> Result<Seq<char>, RejectionView> {
    if !(phase is Pending) {
        Err(out_of_order())
    } else if text_fields(request).contains_key("path"@) {
        Ok(text_fields(request)["path"@])
    } else {
        Err(malformed("path"@))
    }
}

/// The item that a read ends with once the file operation has reported, or
/// the rejection that the report or the phase earns.
pub open spec fn read_completed(phase: Phase, convert: bool, read: Result<String, String>) -> Result<
    ItemView,
    RejectionView,
> {
    if phase is Realizing {
        match read {
            Ok(data) => item_of(convert, data@),
            Err(description) => Err(io_failure(description@)),
        }
    } else {
        Err(out_of_order())
    }
}

impl<H> ReadFileWorker<H> {
    /// Whether the file's text is parsed as JSON.
    pub closed spec fn spec_converts(&self) -> bool {
        self.convert
    }

    /// The phase the worker is in.
    pub closed spec fn spec_phase(&self) -> Phase {
        self.phase
    }

    /// The path extracted from the request, while the session's answer is
    /// awaited.
    pub closed spec fn examined_path(&self) -> Option<Seq<char>> {
        match self.path {
            Some(path) => Some(path@),
            None => None,
        }
    }

    /// The handle that the worker holds.
    pub closed spec fn handle(&self) -> Option<H> {
        self.file
    }

    #[verifier::type_invariant]
    spec fn inv(&self) -> bool {
        &&& self.path is Some <==> self.phase is Examined
        &&& self.file is Some <==> self.phase is Authorized
    }

    /// The worker holds a path exactly while the session's answer is awaited,
    /// and a handle exactly while it is authorized. Every step leaves the
    /// worker so.
    pub open spec fn wf(&self) -> bool {
        &&& self.examined_path() is Some <==> self.phase() is Examined
        &&& self.handle() is Some <==> self.phase() is Authorized
    }

    /// A worker for one request, which parses the file as JSON if `convert`.
    pub fn new(convert: bool) -> (worker: Self)
        ensures
            worker.wf(),
            worker.phase() is Pending,
            worker.converts() == convert,
    {
        ReadFileWorker { convert, phase: Phase::Pending, path: None, file: None }
    }

    /// Whether the file's text is parsed as JSON.
    #[verifier::when_used_as_spec(spec_converts)]
    pub fn converts(&self) -> (convert: bool)
        ensures
            convert == self.spec_converts(),
    {
        self.convert
    }

    /// The phase the worker is in.
    #[verifier::when_used_as_spec(spec_phase)]
    pub fn phase(&self) -> (phase: Phase)
        ensures
            phase == self.spec_phase(),
    {
        self.phase
    }

    /// Whether the worker holds a file handle, which it does exactly while it
    /// is authorized.
    pub fn holds_handle(&self) -> (held: bool)
        ensures
            held == self.handle() is Some,
            held == self.phase() is Authorized,
    {
        proof {
            use_type_invariant(self);
        }
        self.file.is_some()
    }

    /// Takes everything that the worker holds and leaves it failed, so that
    /// a step which returns early has let go of it all.
    fn release(&mut self) -> (held: Self)
        ensures
            held == *old(self),
            held.wf(),
            final(self).wf(),
            final(self).phase() is Failed,
            final(self).converts() == old(self).converts(),
    {
        proof {
            use_type_invariant(&*self);
        }
        let mut held = ReadFileWorker {
            convert: self.convert,
            phase: Phase::Failed,
            path: None,
            file: None,
        };
        std::mem::swap(self, &mut held);
        held
    }

    /// Extracts the path from the request.
    ///
    /// A request without a string field `path` is rejected as malformed, and
    /// the worker has failed: there is no question to put to the session.
    pub fn examine(&mut self, request: Request) -> (examined: Result<(), Rejection>)
        ensures
            final(self).wf(),
            final(self).converts() == old(self).converts(),
            match read_examined(old(self).phase(), request) {
                Ok(path) => {
                    &&& examined is Ok
                    &&& final(self).phase() is Examined
                    &&& final(self).examined_path() == Some(path)
                },
                Err(expected) => {
                    &&& examined matches Err(rejection)
                    &&& rejection@ == expected
                    &&& final(self).phase() is Failed
                },
            },
    {
        let held = self.release();
        if !matches!(held.phase, Phase::Pending) {
            return Err(Rejection::out_of_order());
        }
        let mut request = request;
        match extract_text_field(&mut request, "path") {
            Ok(path) => {
                *self = ReadFileWorker {
                    convert: held.convert,
                    phase: Phase::Examined,
                    path: Some(path),
                    file: None,
                };
                Ok(())
            },
            Err(rejection) => Err(rejection),
        }
    }

    /// The question to put to the session: may the examined path be read?
    ///
    /// There is a question exactly while the worker awaits the answer.
    pub fn query(&self) -> (query: Option<FileAccessPermission<'_>>)
        ensures
            match query {
                Some(query) => {
                    &&& self.phase() is Examined
                    &&& self.examined_path() == Some(query.path@)
                    &&& query.access == FileAccess::CanRead
                },
                None => !(self.phase() is Examined),
            },
    {
        proof {
            use_type_invariant(self);
        }
        match &self.path {
            Some(path) => Some(
                FileAccessPermission { path: path.as_str(), access: FileAccess::CanRead },
            ),
            None => None,
        }
    }

    /// Takes the session's answer.
    ///
    /// When the access is denied the request is rejected as forbidden and the
    /// worker has failed: no file is to be opened. When it is granted, the
    /// result asks for the examined path to be opened for reading.
    pub fn authorize(&mut self, granted: bool) -> (open: Result<OpenRequest, Rejection>)
        ensures
            final(self).wf(),
            final(self).converts() == old(self).converts(),
            match authorized(
                old(self).phase(),
                old(self).examined_path(),
                granted,
                OpenMode::ReadExisting,
            ) {
                Ok(expected) => {
                    &&& open matches Ok(request)
                    &&& request@ == expected
                    &&& final(self).phase() is Granted
                },
                Err(expected) => {
                    &&& open matches Err(rejection)
                    &&& rejection@ == expected
                    &&& final(self).phase() is Failed
                },
            },
    {
        let held = self.release();
        match held.path {
            Some(path) => {
                if granted {
                    self.phase = Phase::Granted;
                    Ok(OpenRequest { path, mode: OpenMode::ReadExisting })
                } else {
                    Err(Rejection::forbidden())
                }
            },
            None => Err(Rejection::out_of_order()),
        }
    }

    /// Runs the first phase up to the request to open the file: extracts the
    /// path, asks the session, and takes its answer.
    ///
    /// The session is asked once, for read access to the extracted path, and
    /// only if the extraction succeeded. Whatever it answers, the result is
    /// the one that [`Self::authorize`] gives for that answer.
    pub fn prepare<T: HasFileAccessPermission>(&mut self, session: &T, request: Request) -> (open:
        Result<OpenRequest, Rejection>)
        ensures
            final(self).wf(),
            final(self).converts() == old(self).converts(),
            match read_examined(old(self).phase(), request) {
                Ok(path) => match open {
                    Ok(request) => {
                        &&& request@ == (OpenRequestView { path, mode: OpenMode::ReadExisting })
                        &&& final(self).phase() is Granted
                    },
                    Err(rejection) => {
                        &&& rejection@ == forbidden()
                        &&& final(self).phase() is Failed
                    },
                },
                Err(expected) => {
                    &&& open matches Err(rejection)
                    &&& rejection@ == expected
                    &&& final(self).phase() is Failed
                },
            },
    {
        match self.examine(request) {
            Ok(_) => {
                let granted = match self.query() {
                    Some(query) => session.has_permission(query.path, query.access.permission()),
                    None => false,
                };
                self.authorize(granted)
            },
            Err(rejection) => Err(rejection),
        }
    }

    /// Takes the report of the open.
    ///
    /// A handle is accepted only from a worker whose access was granted, and
    /// the worker is then authorized. A failed open ends the request with the
    /// description of the failure. A handle offered in any other phase is let
    /// go of at once.
    pub fn attach(&mut self, opened: Result<H, String>) -> (accepted: Result<(), Rejection>)
        ensures
            final(self).wf(),
            final(self).converts() == old(self).converts(),
            match attached(old(self).phase(), opened) {
                Ok(handle) => {
                    &&& accepted is Ok
                    &&& final(self).phase() is Authorized
                    &&& final(self).handle() == Some(handle)
                },
                Err(expected) => {
                    &&& accepted matches Err(rejection)
                    &&& rejection@ == expected
                    &&& final(self).phase() is Failed
                },
            },
    {
        let held = self.release();
        if !matches!(held.phase, Phase::Granted) {
            return Err(Rejection::out_of_order());
        }
        match opened {
            Ok(handle) => {
                *self = ReadFileWorker {
                    convert: held.convert,
                    phase: Phase::Authorized,
                    path: None,
                    file: Some(handle),
                };
                Ok(())
            },
            Err(description) => Err(Rejection::io(description)),
        }
    }

    /// Begins the second phase: gives the handle out for the file to be read.
    ///
    /// A worker that holds no handle fails at once.
    pub fn realize(&mut self) -> (handle: Result<H, Rejection>)
        ensures
            final(self).wf(),
            final(self).converts() == old(self).converts(),
            match old(self).handle() {
                Some(held) => {
                    &&& handle == Ok::<H, Rejection>(held)
                    &&& final(self).phase() is Realizing
                },
                None => {
                    &&& handle matches Err(rejection)
                    &&& rejection@ == handle_expected()
                    &&& final(self).phase() is Failed
                },
            },
    {
        let held = self.release();
        match held.file {
            Some(handle) => {
                self.phase = Phase::Realizing;
                Ok(handle)
            },
            None => Err(Rejection::handle_expected()),
        }
    }

    /// Takes the report of the read and ends the request.
    ///
    /// A successful read produces exactly one item: the text as it was read,
    /// or the JSON value it denotes. A failed read, or text that is not JSON
    /// where JSON is expected, ends the request in failure.
    pub fn complete(&mut self, read: Result<String, String>) -> (outcome: Result<Realize, Rejection>)
        ensures
            final(self).wf(),
            final(self).converts() == old(self).converts(),
            match read_completed(old(self).phase(), old(self).converts(), read) {
                Ok(item) => {
                    &&& outcome matches Ok(realize)
                    &&& realize@ == RealizeView::OneItemAndDone(item)
                    &&& final(self).phase() is Succeeded
                },
                Err(expected) => {
                    &&& outcome matches Err(rejection)
                    &&& rejection@ == expected
                    &&& final(self).phase() is Failed
                },
            },
    {
        let held = self.release();
        if !matches!(held.phase, Phase::Realizing) {
            return Err(Rejection::out_of_order());
        }
        let item = match read {
            Ok(data) => Item::read(held.convert, data),
            Err(description) => Err(Rejection::io(description)),
        };
        match item {
            Ok(item) => {
                self.phase = Phase::Succeeded;
                Ok(Realize::OneItemAndDone(item))
            },
            Err(rejection) => Err(rejection),
        }
    }
}

} // verus!
