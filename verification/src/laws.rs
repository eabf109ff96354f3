//! What holds of the workers across their steps.

use vstd::prelude::*;
use mould::session::Request;
use crate::outcome::ItemView;
use crate::phase::{attached, authorized, OpenMode, OpenRequestView, Phase};
use crate::reader::{read_completed, read_examined, ReadFileWorker};
use crate::rejection::{forbidden, out_of_order, RejectionView};
use crate::request::{malformed, text_fields};
use crate::writer::{write_examined, WriteFileWorker};

verus! {

/// A request without a string field `path` is malformed for a reader and for
/// a writer alike, and the rejection names `path`. The worker has then
/// failed, so the session's answer, if one were given, would be turned away.
pub proof fn lemma_missing_path_is_malformed(request: Request, convert: bool, granted: bool)
    requires
        !text_fields(request).contains_key("path"@),
    ensures
        read_examined(Phase::Pending, request) == Err::<Seq<char>, RejectionView>(
            malformed("path"@),
        ),
        write_examined(Phase::Pending, convert, request) == Err::<
            (Seq<char>, Seq<char>),
            RejectionView,
        >(malformed("path"@)),
        authorized(Phase::Failed, None, granted, OpenMode::ReadExisting) == Err::<
            OpenRequestView,
            RejectionView,
        >(out_of_order()),
{
}

/// A denied access is forbidden whatever the path and the mode: no request
/// to open a file is made. The worker has then failed, so a handle, if one
/// were offered, would be turned away.
pub proof fn lemma_denied_access_is_forbidden<H>(
    path: Seq<char>,
    mode: OpenMode,
    opened: Result<H, String>,
)
    ensures
        authorized(Phase::Examined, Some(path), false, mode) == Err::<
            OpenRequestView,
            RejectionView,
        >(forbidden()),
        attached(Phase::Failed, opened) == Err::<H, RejectionView>(out_of_order()),
{
}

/// A file is asked to be opened only for an access that was granted, and a
/// handle is taken over only by a worker whose access was granted: the order
/// of extraction, permission and opening cannot be cut short.
pub proof fn lemma_handle_follows_grant<H>(
    phase: Phase,
    path: Option<Seq<char>>,
    granted: bool,
    mode: OpenMode,
    opened: Result<H, String>,
)
    ensures
        authorized(phase, path, granted, mode) is Ok ==> granted && phase is Examined,
        attached(phase, opened) is Ok ==> phase is Granted,
{
}

/// What a plain write request asks to store is its field `content`, and a
/// plain read of a file that was created or emptied and then holds what was
/// written in full produces exactly that text.
pub proof fn lemma_read_gives_back_what_was_written(
    write: Request,
    before: Seq<char>,
    read: Result<String, String>,
)
    requires
        text_fields(write).contains_key("path"@),
        text_fields(write).contains_key("content"@),
        read matches Ok(data) && data@ == OpenMode::CreateTruncate.stored_after(
            before,
            text_fields(write)["content"@],
        ),
    ensures
        write_examined(Phase::Pending, false, write) == Ok::<(Seq<char>, Seq<char>), RejectionView>(
            (text_fields(write)["path"@], text_fields(write)["content"@]),
        ),
        read_completed(Phase::Realizing, false, read) == Ok::<ItemView, RejectionView>(
            ItemView::Content(text_fields(write)["content"@]),
        ),
{
}

/// Serving the same write request twice stores what serving it once stores:
/// the text to write depends on the request alone, and a write replaces what
/// the file held and appends nothing.
pub proof fn lemma_writing_twice_stores_the_same(write: Request, convert: bool, before: Seq<char>)
    requires
        write_examined(Phase::Pending, convert, write) is Ok,
    ensures
        ({
            let content = write_examined(Phase::Pending, convert, write)->Ok_0.1;
            let once = OpenMode::CreateTruncate.stored_after(before, content);
            OpenMode::CreateTruncate.stored_after(once, content) == once
        }),
{
}

/// A reader that has reached its outcome holds no handle.
pub proof fn lemma_finished_reader_holds_no_handle<H>(worker: ReadFileWorker<H>)
    requires
        worker.wf(),
        worker.phase().is_terminal(),
    ensures
        worker.handle() is None,
{
}

/// A writer that has reached its outcome holds no handle and no text.
pub proof fn lemma_finished_writer_holds_nothing<H>(worker: WriteFileWorker<H>)
    requires
        worker.wf(),
        worker.phase().is_terminal(),
    ensures
        worker.handle() is None,
        worker.held_content() is None,
{
}

} // verus!
