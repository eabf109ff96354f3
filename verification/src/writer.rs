//! The worker that writes a whole file.

use vstd::prelude::*;
use mould::session::Request;
use crate::file::{FileAccess, FileAccessPermission};
use crate::json::render_value;
use crate::outcome::Realize;
use crate::phase::{attached, authorized, OpenMode, OpenRequest, OpenRequestView, Phase};
use crate::rejection::{
    forbidden,
    handle_expected,
    io_failure,
    out_of_order,
    Rejection,
    RejectionView,
};
use crate::request::{
    carries_the_same,
    extract_object_field,
    extract_text_field,
    malformed,
    object_fields,
    text_fields,
};
use crate::HasFileAccessPermission;

verus! {

/// Writes one file for one request.
///
/// `H` is the handle of an open file. The worker holds it from the moment
/// the file is open until the write begins, and at no other time. The text
/// to write is held from the extraction until the write begins.
pub struct WriteFileWorker<H> {
    convert: bool,
    phase: Phase,
    path: Option<String>,
    content: Option<String>,
    file: Option<H>,
}

/// The text that a write request asks to store: the string field `content`,
/// or, where the worker converts, the JSON text of the object field `object`.
/// A request without that field is malformed.
pub open spec fn write_content(convert: bool, request: Request) -> Result<Seq<char>, RejectionView> {
    if convert {
        if object_fields(request).contains_key("object"@) {
            Ok(object_fields(request)["object"@])
        } else {
            Err(malformed("object"@))
        }
    } else {
        if text_fields(request).contains_key("content"@) {
            Ok(text_fields(request)["content"@])
        } else {
            Err(malformed("content"@))
        }
    }
}

/// The path and the text that a write request names, or the rejection that
/// it earns in the given phase. The path is looked at first.
pub open spec fn write_examined(phase: Phase, convert: bool, request: Request) -> Result<
    (Seq<char>, Seq<char>),
    RejectionView,
> {
    if !(phase is Pending) {
        Err(out_of_order())
    } else if !text_fields(request).contains_key("path"@) {
        Err(malformed("path"@))
    } else {
        match write_content(convert, request) {
            Ok(content) => Ok((text_fields(request)["path"@], content)),
            Err(rejection) => Err(rejection),
        }
    }
}

/// Whether a write is acknowledged once the file operation has reported, or
/// the rejection that the report or the phase earns.
pub open spec fn write_completed(phase: Phase, written: Result<(), String>) -> Result<
    (),
    RejectionView,
> {
    if phase is Realizing {
        match written {
            Ok(_) => Ok(()),
            Err(description) => Err(io_failure(description@)),
        }
    } else {
        Err(out_of_order())
    }
}

/// Extracts the text to write from the request: the string field `content`,
/// or, if `convert`, the object field `object` rendered as JSON text.
pub fn extract_content(convert: bool, request: &mut Request) -> (content: Result<String, Rejection>)
    ensures
        carries_the_same(*old(request), *final(request)),
        match write_content(convert, *old(request)) {
            Ok(expected) => {
                &&& content matches Ok(text)
                &&& text@ == expected
            },
            Err(expected) => {
                &&& content matches Err(rejection)
                &&& rejection@ == expected
            },
        },
{
    if convert {
        match extract_object_field(request, "object") {
            Ok(object) => Ok(render_value(&object)),
            Err(rejection) => Err(rejection),
        }
    } else {
        extract_text_field(request, "content")
    }
}

impl<H> WriteFileWorker<H> {
    /// Whether the text to write is the JSON text of an object.
    pub closed spec fn spec_converts(&self) -> bool {
        self.convert
    }

    /// The phase the worker is in.
    pub closed spec fn spec_phase(&self) -> Phase {
        self.phase
    }

    /// The path extracted from the request, while the session's answer is
    /// awaited.
    pub closed spec fn examined_path(&self) -> Option<Seq<char>> {
        match self.path {
            Some(path) => Some(path@),
            None => None,
        }
    }

    /// The text that the worker holds to be written.
    pub closed spec fn held_content(&self) -> Option<Seq<char>> {
        match self.content {
            Some(content) => Some(content@),
            None => None,
        }
    }

    /// The handle that the worker holds.
    pub closed spec fn handle(&self) -> Option<H> {
        self.file
    }

    #[verifier::type_invariant]
    spec fn inv(&self) -> bool {
        &&& self.path is Some <==> self.phase is Examined
        &&& self.content is Some <==> (self.phase is Examined || self.phase is Granted
            || self.phase is Authorized)
        &&& self.file is Some <==> self.phase is Authorized
    }

    /// The worker holds a path exactly while the session's answer is awaited,
    /// the text from the extraction until the write begins, and a handle
    /// exactly while it is authorized. Every step leaves the worker so.
    pub open spec fn wf(&self) -> bool {
        &&& self.examined_path() is Some <==> self.phase() is Examined
        &&& self.held_content() is Some <==> (self.phase() is Examined || self.phase() is Granted
            || self.phase() is Authorized)
        &&& self.handle() is Some <==> self.phase() is Authorized
    }

    /// A worker for one request, which writes the JSON text of an object if
    /// `convert`.
    pub fn new(convert: bool) -> (worker: Self)
        ensures
            worker.wf(),
            worker.phase() is Pending,
            worker.converts() == convert,
    {
        WriteFileWorker { convert, phase: Phase::Pending, path: None, content: None, file: None }
    }

    /// Whether the text to write is the JSON text of an object.
    #[verifier::when_used_as_spec(spec_converts)]
    pub fn converts(&self) -> (convert: bool)
        ensures
            convert == self.spec_converts(),
    {
        self.convert
    }

    /// The phase the worker is in.
    #[verifier::when_used_as_spec(spec_phase)]
    pub fn phase(&self) -> (phase: Phase)
        ensures
            phase == self.spec_phase(),
    {
        self.phase
    }

    /// Whether the worker holds a file handle, which it does exactly while it
    /// is authorized.
    pub fn holds_handle(&self) -> (held: bool)
        ensures
            held == self.handle() is Some,
            held == self.phase() is Authorized,
    {
        proof {
            use_type_invariant(self);
        }
        self.file.is_some()
    }

    /// Takes everything that the worker holds and leaves it failed, so that
    /// a step which returns early has let go of it all.
    fn release(&mut self) -> (held: Self)
        ensures
            held == *old(self),
            held.wf(),
            final(self).wf(),
            final(self).phase() is Failed,
            final(self).converts() == old(self).converts(),
    {
        proof {
            use_type_invariant(&*self);
        }
        let mut held = WriteFileWorker {
            convert: self.convert,
            phase: Phase::Failed,
            path: None,
            content: None,
            file: None,
        };
        std::mem::swap(self, &mut held);
        held
    }

    /// Extracts the path and the text to write from the request.
    ///
    /// A request that lacks one of them is rejected as malformed, naming the
    /// first that is missing, and the worker has failed: there is no question
    /// to put to the session.
    pub fn examine(&mut self, request: Request) -> (examined: Result<(), Rejection>)
        ensures
            final(self).wf(),
            final(self).converts() == old(self).converts(),
            match write_examined(old(self).phase(), old(self).converts(), request) {
                Ok((path, content)) => {
                    &&& examined is Ok
                    &&& final(self).phase() is Examined
                    &&& final(self).examined_path() == Some(path)
                    &&& final(self).held_content() == Some(content)
                },
                Err(expected) => {
                    &&& examined matches Err(rejection)
                    &&& rejection@ == expected
                    &&& final(self).phase() is Failed
                },
            },
    {
        let held = self.release();
        if !matches!(held.phase, Phase::Pending) {
            return Err(Rejection::out_of_order());
        }
        let mut request = request;
        let path = match extract_text_field(&mut request, "path") {
            Ok(path) => path,
            Err(rejection) => {
                return Err(rejection);
            },
        };
        match extract_content(held.convert, &mut request) {
            Ok(content) => {
                *self = WriteFileWorker {
                    convert: held.convert,
                    phase: Phase::Examined,
                    path: Some(path),
                    content: Some(content),
                    file: None,
                };
                Ok(())
            },
            Err(rejection) => Err(rejection),
        }
    }

    /// The question to put to the session: may the examined path be written?
    ///
    /// There is a question exactly while the worker awaits the answer.
    pub fn query(&self) -> (query: Option<FileAccessPermission<'_>>)
        ensures
            match query {
                Some(query) => {
                    &&& self.phase() is Examined
                    &&& self.examined_path() == Some(query.path@)
                    &&& query.access == FileAccess::CanWrite
                },
                None => !(self.phase() is Examined),
            },
    {
        proof {
            use_type_invariant(self);
        }
        match &self.path {
            Some(path) => Some(
                FileAccessPermission { path: path.as_str(), access: FileAccess::CanWrite },
            ),
            None => None,
        }
    }

    /// Takes the session's answer.
    ///
    /// When the access is denied the request is rejected as forbidden and the
    /// worker has failed: no file is to be opened. When it is granted, the
    /// result asks for the examined path to be created or emptied, and the
    /// worker keeps the text.
    pub fn authorize(&mut self, granted: bool) -> (open: Result<OpenRequest, Rejection>)
        ensures
            final(self).wf(),
            final(self).converts() == old(self).converts(),
            match authorized(
                old(self).phase(),
                old(self).examined_path(),
                granted,
                OpenMode::CreateTruncate,
            ) {
                Ok(expected) => {
                    &&& open matches Ok(request)
                    &&& request@ == expected
                    &&& final(self).phase() is Granted
                    &&& final(self).held_content() == old(self).held_content()
                },
                Err(expected) => {
                    &&& open matches Err(rejection)
                    &&& rejection@ == expected
                    &&& final(self).phase() is Failed
                },
            },
    {
        let held = self.release();
        match held.path {
            Some(path) => {
                if granted {
                    *self = WriteFileWorker {
                        convert: held.convert,
                        phase: Phase::Granted,
                        path: None,
                        content: held.content,
                        file: None,
                    };
                    Ok(OpenRequest { path, mode: OpenMode::CreateTruncate })
                } else {
                    Err(Rejection::forbidden())
                }
            },
            None => Err(Rejection::out_of_order()),
        }
    }

    /// Runs the first phase up to the request to open the file: extracts the
    /// path and the text, asks the session, and takes its answer.
    ///
    /// The session is asked once, for write access to the extracted path, and
    /// only if the extraction succeeded. Whatever it answers, the result is
    /// the one that [`Self::authorize`] gives for that answer.
    pub fn prepare<T: HasFileAccessPermission>(&mut self, session: &T, request: Request) -> (open:
        Result<OpenRequest, Rejection>)
        ensures
            final(self).wf(),
            final(self).converts() == old(self).converts(),
            match write_examined(old(self).phase(), old(self).converts(), request) {
                Ok((path, content)) => match open {
                    Ok(request) => {
                        &&& request@ == (OpenRequestView { path, mode: OpenMode::CreateTruncate })
                        &&& final(self).phase() is Granted
                        &&& final(self).held_content() == Some(content)
                    },
                    Err(rejection) => {
                        &&& rejection@ == forbidden()
                        &&& final(self).phase() is Failed
                    },
                },
                Err(expected) => {
                    &&& open matches Err(rejection)
                    &&& rejection@ == expected
                    &&& final(self).phase() is Failed
                },
            },
    {
        match self.examine(request) {
            Ok(_) => {
                let granted = match self.query() {
                    Some(query) => session.has_permission(query.path, query.access.permission()),
                    None => false,
                };
                self.authorize(granted)
            },
            Err(rejection) => Err(rejection),
        }
    }

    /// Takes the report of the open.
    ///
    /// A handle is accepted only from a worker whose access was granted, and
    /// the worker is then authorized and keeps the text. A failed open ends
    /// the request with the description of the failure. A handle offered in
    /// any other phase is let go of at once.
    pub fn attach(&mut self, opened: Result<H, String>) -> (accepted: Result<(), Rejection>)
        ensures
            final(self).wf(),
            final(self).converts() == old(self).converts(),
            match attached(old(self).phase(), opened) {
                Ok(handle) => {
                    &&& accepted is Ok
                    &&& final(self).phase() is Authorized
                    &&& final(self).handle() == Some(handle)
                    &&& final(self).held_content() == old(self).held_content()
                },
                Err(expected) => {
                    &&& accepted matches Err(rejection)
                    &&& rejection@ == expected
                    &&& final(self).phase() is Failed
                },
            },
    {
        let held = self.release();
        if !matches!(held.phase, Phase::Granted) {
            return Err(Rejection::out_of_order());
        }
        match opened {
            Ok(handle) => {
                *self = WriteFileWorker {
                    convert: held.convert,
                    phase: Phase::Authorized,
                    path: None,
                    content: held.content,
                    file: Some(handle),
                };
                Ok(())
            },
            Err(description) => Err(Rejection::io(description)),
        }
    }

    /// Begins the second phase: gives the handle and the text out for the
    /// file to be written.
    ///
    /// A worker that holds no handle fails at once.
    pub fn realize(&mut self) -> (job: Result<(H, String), Rejection>)
        ensures
            final(self).wf(),
            final(self).converts() == old(self).converts(),
            match old(self).handle() {
                Some(held) => {
                    &&& job matches Ok((handle, content))
                    &&& handle == held
                    &&& Some(content@) == old(self).held_content()
                    &&& final(self).phase() is Realizing
                },
                None => {
                    &&& job matches Err(rejection)
                    &&& rejection@ == handle_expected()
                    &&& final(self).phase() is Failed
                },
            },
    {
        let held = self.release();
        match (held.file, held.content) {
            (Some(handle), Some(content)) => {
                self.phase = Phase::Realizing;
                Ok((handle, content))
            },
            _ => Err(Rejection::handle_expected()),
        }
    }

    /// Takes the report of the write and ends the request.
    ///
    /// A successful write is acknowledged without an item. A failed write
    /// ends the request with the description of the failure.
    pub fn complete(&mut self, written: Result<(), String>) -> (outcome: Result<Realize, Rejection>)
        ensures
            final(self).wf(),
            final(self).converts() == old(self).converts(),
            match write_completed(old(self).phase(), written) {
                Ok(_) => {
                    &&& outcome matches Ok(realize)
                    &&& realize is Done
                    &&& final(self).phase() is Succeeded
                },
                Err(expected) => {
                    &&& outcome matches Err(rejection)
                    &&& rejection@ == expected
                    &&& final(self).phase() is Failed
                },
            },
    {
        let held = self.release();
        if !matches!(held.phase, Phase::Realizing) {
            return Err(Rejection::out_of_order());
        }
        match written {
            Ok(_) => {
                self.phase = Phase::Succeeded;
                Ok(Realize::Done)
            },
            Err(description) => Err(Rejection::io(description)),
        }
    }
}

} // verus!
