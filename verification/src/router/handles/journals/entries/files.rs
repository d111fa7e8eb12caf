//! The files of an entry: reading one back, and the checks of an upload.

use vstd::prelude::*;
use axum::http::HeaderMap;
use crate::db::ids::{EntryId, FileEntryId, JournalId};
use crate::net::header::{
    header_get, header_to_str, parse_media_type, spec_header_text, spec_headers, spec_mime_parse, MediaType,
};
use crate::text::{push_str, to_owned_string};

verus! {

/// the file named in the path
#[derive(Debug, Clone, Copy, PartialEq, Eq, Structural)]
pub struct FileEntryPath {
    pub journals_id: JournalId,
    pub entries_id: EntryId,
    pub file_entry_id: FileEntryId,
}

/// the query of a file: whether it is downloaded as an attachment
#[derive(Debug, Clone, Copy, PartialEq, Eq, Structural)]
pub struct FileEntryQuery {
    pub download: Option<bool>,
}

impl FileEntryQuery {
    /// whether the file is sent as an attachment: only when asked for
    pub fn wants_download(&self) -> (rtn: bool)
        ensures
            rtn == (self.download == Some(true)),
    {
        match self.download {
            Some(d) => d,
            None => false,
        }
    }
}

/// the `content-disposition` of a downloaded file: an attachment named by
/// the file's name, or its uid when it has none
pub fn attachment_disposition(name: Option<&str>, uid: &str) -> (rtn: String)
    ensures
        rtn@ == "attachment; filename=\""@ + (match name {
            Some(n) => n@,
            None => uid@,
        }) + "\""@,
{
    let mut rtn = to_owned_string("attachment; filename=\"");
    match name {
        Some(n) => push_str(&mut rtn, n),
        None => push_str(&mut rtn, uid),
    }
    push_str(&mut rtn, "\"");
    rtn
}

/// why a file could not be read
#[derive(Debug, Clone, Copy, PartialEq, Eq, Structural)]
pub enum RetrieveError {
    JournalNotFound,
    FileNotFound,
}

impl RetrieveError {
    /// the http status of the error: 404
    pub fn status(&self) -> (rtn: u16)
        ensures
            rtn == 404,
    {
        404
    }
}

/// why an upload was refused
#[derive(Debug, Clone, Copy, PartialEq, Eq, Structural)]
pub enum UploadError {
    JournalNotFound,
    FileNotFound,
    NotRequestedFile,
    InvalidContentType,
    InvalidHash,
    TooLarge,
    TooSmall,
}

impl UploadError {
    /// the http status of the error: 404 for a missing journal or file,
    /// 400 for the rest
    pub fn status(&self) -> (rtn: u16)
        ensures
            rtn == (if *self is JournalNotFound || *self is FileNotFound { 404u16 } else { 400u16 }),
    {
        match self {
            UploadError::JournalNotFound | UploadError::FileNotFound => 404,
            _ => 400,
        }
    }
}

/// the media type of an upload from its `content-type` text: refused when
/// there is none or it does not parse
pub fn media_of(content_type: Option<&str>) -> (rtn: Result<MediaType, UploadError>)
    ensures
        match content_type {
            None => rtn == Err::<MediaType, _>(UploadError::InvalidContentType),
            Some(t) => match spec_mime_parse(t@) {
                None => rtn == Err::<MediaType, _>(UploadError::InvalidContentType),
                Some(m) => rtn matches Ok(r) && (r.type_@, r.subtype@) == m,
            },
        },
{
    match content_type {
        None => Err(UploadError::InvalidContentType),
        Some(t) => match parse_media_type(t) {
            None => Err(UploadError::InvalidContentType),
            Some(m) => Ok(m),
        },
    }
}

/// the media type of an upload from its headers: refused when the
/// `content-type` header is missing, is not visible ascii, or does not parse
pub fn get_mime(headers: &HeaderMap) -> (rtn: Result<MediaType, UploadError>)
    ensures
        match spec_header_text(spec_headers(*headers), "content-type"@) {
            Some(Some(t)) => match spec_mime_parse(t) {
                None => rtn == Err::<MediaType, _>(UploadError::InvalidContentType),
                Some(m) => (rtn matches Ok(r) && (r.type_@, r.subtype@) == m),
            },
            _ => rtn == Err::<MediaType, _>(UploadError::InvalidContentType),
        },
{
    proof {
        reveal_strlit("content-type");
    }
    match header_get(headers, "content-type") {
        None => Err(UploadError::InvalidContentType),
        Some(value) => match header_to_str(value) {
            Ok(text) => media_of(Some(text)),
            Err(_) => Err(UploadError::InvalidContentType),
        },
    }
}

/// how the hash of an upload is checked: against a hash sent in a header,
/// against the last 32 bytes of the body, or not at all (`Unchecked`)
#[derive(Debug)]
pub enum HashCheck {
    Given(Vec<u8>),
    AtEnd,
    Unchecked,
}

/// why writing an upload failed
#[derive(Debug, Clone, Copy, PartialEq, Eq, Structural)]
pub enum WriteError {
    InvalidHash,
    TooLarge,
    TooSmall,
}

/// the outcome of an upload once its body was written and hashed: a given
/// hash must match; a hash at the end must be 32 bytes and match
pub fn hash_outcome(check: &HashCheck, computed: &[u8], trailing: &[u8]) -> (rtn: Result<(), WriteError>)
    ensures
        match *check {
            HashCheck::Given(g) => rtn == (if g@ == computed@ { Ok::<(), WriteError>(()) } else { Err(WriteError::InvalidHash) }),
            HashCheck::AtEnd => rtn == (if trailing@.len() != 32 {
                Err::<(), WriteError>(WriteError::TooSmall)
            } else if trailing@ == computed@ {
                Ok(())
            } else {
                Err(WriteError::InvalidHash)
            }),
            HashCheck::Unchecked => rtn is Ok,
        },
{
    match check {
        HashCheck::Given(g) => if bytes_eq(g.as_slice(), computed) {
            Ok(())
        } else {
            Err(WriteError::InvalidHash)
        },
        HashCheck::AtEnd => if trailing.len() != 32 {
            Err(WriteError::TooSmall)
        } else if bytes_eq(trailing, computed) {
            Ok(())
        } else {
            Err(WriteError::InvalidHash)
        },
        HashCheck::Unchecked => Ok(()),
    }
}

/// whether two byte strings are the same
fn bytes_eq(a: &[u8], b: &[u8]) -> (rtn: bool)
    ensures
        rtn == (a@ == b@),
{
    if a.len() != b.len() {
        return false;
    }
    let n = a.len();
    let mut i: usize = 0;
    while i < n
        invariant
            n == a@.len(),
            n == b@.len(),
            i <= n,
            forall|j: int| 0 <= j < i ==> a@[j] == b@[j],
        decreases n - i,
    {
        if a[i] != b[i] {
            return false;
        }
        i = i + 1;
    }
    assert(a@ =~= b@);
    true
}

/// where an upload stands; `requested` is whether the file record waits
/// for its file
#[derive(Debug, Clone, Copy, PartialEq, Eq, Structural)]
pub enum UploadStage {
    Journal,
    Permission,
    File,
    Headers { requested: bool },
    Create,
    Body,
    Promote,
    Commit,
    Done,
}

/// the outcome of the last action of an upload
#[derive(Debug, Clone, Copy, PartialEq, Eq, Structural)]
pub enum UploadEvent {
    /// the journal was looked up: whether it exists
    Journal(bool),
    /// the permission was checked: whether it was granted
    Permission(bool),
    /// the file record was looked up: whether it waits for its file, when
    /// it exists
    File(Option<bool>),
    /// the headers were read: whether the content type parses and the hash
    /// header is valid
    Headers { media: bool, hash: bool },
    /// the file was created on disk: whether that worked
    Created(bool),
    /// the body was written into the file and its hash matched
    BodyWritten,
    /// the body was refused while it was written
    BodyRefused(WriteError),
    /// the database work of the step went through
    Written,
    /// the transaction was committed: whether that worked
    Committed(bool),
    /// a database call, a read of the body or a write of the file failed
    Failed,
}

/// what an upload does next
#[derive(Debug, Clone, Copy, PartialEq, Eq, Structural)]
pub enum UploadAction {
    CheckPermission,
    LookUpFile,
    ReadHeaders,
    CreateFile,
    WriteBody,
    /// record the file's type, size and hash
    Promote,
    Commit,
    /// answer with the recorded file
    Answer,
    /// answer with the refusal
    Refuse(UploadError),
    /// answer what the permission check answers
    Deny,
    /// answer with an error
    Fail,
    /// remove the file being written, then answer with the refusal
    CleanAndRefuse(UploadError),
    /// remove the file being written, then answer with an error
    CleanAndFail,
    /// remove the created file, then answer with an error
    RemoveAndFail,
}

/// the refusal of a body that did not write
pub open spec fn spec_write_refusal(err: WriteError) -> UploadError {
    match err {
        WriteError::InvalidHash => UploadError::InvalidHash,
        WriteError::TooLarge => UploadError::TooLarge,
        WriteError::TooSmall => UploadError::TooSmall,
    }
}

/// the refusal of a body that did not write
fn write_refusal(err: WriteError) -> (rtn: UploadError)
    ensures
        rtn == spec_write_refusal(err),
{
    match err {
        WriteError::InvalidHash => UploadError::InvalidHash,
        WriteError::TooLarge => UploadError::TooLarge,
        WriteError::TooSmall => UploadError::TooSmall,
    }
}

/// the next stage and action of an upload
pub open spec fn spec_upload_step(stage: UploadStage, event: UploadEvent) -> (UploadStage, UploadAction) {
    match (stage, event) {
        (UploadStage::Journal, UploadEvent::Journal(found)) => if found {
            (UploadStage::Permission, UploadAction::CheckPermission)
        } else {
            (UploadStage::Done, UploadAction::Refuse(UploadError::JournalNotFound))
        },
        (UploadStage::Permission, UploadEvent::Permission(granted)) => if granted {
            (UploadStage::File, UploadAction::LookUpFile)
        } else {
            (UploadStage::Done, UploadAction::Deny)
        },
        (UploadStage::File, UploadEvent::File(found)) => match found {
            Some(requested) => (UploadStage::Headers { requested }, UploadAction::ReadHeaders),
            None => (UploadStage::Done, UploadAction::Refuse(UploadError::FileNotFound)),
        },
        (UploadStage::Headers { requested }, UploadEvent::Headers { media, hash }) => if !media {
            (UploadStage::Done, UploadAction::Refuse(UploadError::InvalidContentType))
        } else if !hash {
            (UploadStage::Done, UploadAction::Refuse(UploadError::InvalidHash))
        } else if !requested {
            (UploadStage::Done, UploadAction::Refuse(UploadError::NotRequestedFile))
        } else {
            (UploadStage::Create, UploadAction::CreateFile)
        },
        (UploadStage::Create, UploadEvent::Created(true)) => (UploadStage::Body, UploadAction::WriteBody),
        (UploadStage::Body, UploadEvent::BodyWritten) => (UploadStage::Promote, UploadAction::Promote),
        (UploadStage::Body, UploadEvent::BodyRefused(e)) => (
            UploadStage::Done,
            UploadAction::CleanAndRefuse(spec_write_refusal(e)),
        ),
        (UploadStage::Body, _) => (UploadStage::Done, UploadAction::CleanAndFail),
        (UploadStage::Promote, UploadEvent::Written) => (UploadStage::Commit, UploadAction::Commit),
        (UploadStage::Promote, _) => (UploadStage::Done, UploadAction::CleanAndFail),
        (UploadStage::Commit, UploadEvent::Committed(true)) => (UploadStage::Done, UploadAction::Answer),
        (UploadStage::Commit, _) => (UploadStage::Done, UploadAction::RemoveAndFail),
        _ => (UploadStage::Done, UploadAction::Fail),
    }
}

/// The next step of an upload: a missing journal or file record is
/// refused, a refused permission answered by the check; then the content
/// type, the hash header and the state of the record are checked, in that
/// order; then the file is created, the body written into it, the record
/// promoted and the transaction committed. Once the file exists, every
/// failure removes it again; an outcome that does not answer the stage
/// fails the upload.
pub fn upload_step(stage: UploadStage, event: UploadEvent) -> (rtn: (UploadStage, UploadAction))
    ensures
        rtn == spec_upload_step(stage, event),
{
    match (stage, event) {
        (UploadStage::Journal, UploadEvent::Journal(found)) => if found {
            (UploadStage::Permission, UploadAction::CheckPermission)
        } else {
            (UploadStage::Done, UploadAction::Refuse(UploadError::JournalNotFound))
        },
        (UploadStage::Permission, UploadEvent::Permission(granted)) => if granted {
            (UploadStage::File, UploadAction::LookUpFile)
        } else {
            (UploadStage::Done, UploadAction::Deny)
        },
        (UploadStage::File, UploadEvent::File(found)) => match found {
            Some(requested) => (UploadStage::Headers { requested }, UploadAction::ReadHeaders),
            None => (UploadStage::Done, UploadAction::Refuse(UploadError::FileNotFound)),
        },
        (UploadStage::Headers { requested }, UploadEvent::Headers { media, hash }) => if !media {
            (UploadStage::Done, UploadAction::Refuse(UploadError::InvalidContentType))
        } else if !hash {
            (UploadStage::Done, UploadAction::Refuse(UploadError::InvalidHash))
        } else if !requested {
            (UploadStage::Done, UploadAction::Refuse(UploadError::NotRequestedFile))
        } else {
            (UploadStage::Create, UploadAction::CreateFile)
        },
        (UploadStage::Create, UploadEvent::Created(true)) => (UploadStage::Body, UploadAction::WriteBody),
        (UploadStage::Body, UploadEvent::BodyWritten) => (UploadStage::Promote, UploadAction::Promote),
        (UploadStage::Body, UploadEvent::BodyRefused(e)) => (
            UploadStage::Done,
            UploadAction::CleanAndRefuse(write_refusal(e)),
        ),
        (UploadStage::Body, _) => (UploadStage::Done, UploadAction::CleanAndFail),
        (UploadStage::Promote, UploadEvent::Written) => (UploadStage::Commit, UploadAction::Commit),
        (UploadStage::Promote, _) => (UploadStage::Done, UploadAction::CleanAndFail),
        (UploadStage::Commit, UploadEvent::Committed(true)) => (UploadStage::Done, UploadAction::Answer),
        (UploadStage::Commit, _) => (UploadStage::Done, UploadAction::RemoveAndFail),
        _ => (UploadStage::Done, UploadAction::Fail),
    }
}

/// An upload never leaves a stray file: at every stage at which the file
/// exists, each outcome goes on to the next step or removes the file.
pub proof fn lemma_upload_keeps_no_stray_file(stage: UploadStage, event: UploadEvent)
    requires
        stage is Body || stage is Promote || stage is Commit,
    ensures
        ({
            let (next, action) = spec_upload_step(stage, event);
            ||| action is CleanAndRefuse
            ||| action is CleanAndFail
            ||| action is RemoveAndFail
            ||| next is Promote || next is Commit
            ||| action is Answer
        }),
{
}

/// An upload creates no file before every check passed: the file is
/// created only from a record waiting for its file, with a parsed content
/// type and a valid hash header.
pub proof fn lemma_upload_checks_first(stage: UploadStage, event: UploadEvent)
    ensures
        spec_upload_step(stage, event).1 is CreateFile ==> stage == (UploadStage::Headers { requested: true })
            && event == (UploadEvent::Headers { media: true, hash: true }),
{
}

/// the stage an upload reaches from its start through the outcomes, and
/// the actions it took, in order
pub open spec fn spec_upload_run(events: Seq<UploadEvent>) -> (UploadStage, Seq<UploadAction>)
    decreases events.len(),
{
    if events.len() == 0 {
        (UploadStage::Journal, Seq::empty())
    } else {
        let (stage, actions) = spec_upload_run(events.drop_last());
        let (next, action) = spec_upload_step(stage, events.last());
        (next, actions.push(action))
    }
}

/// whether a stage of an upload comes after the permission was granted
pub open spec fn spec_upload_permitted(stage: UploadStage) -> bool {
    !(stage is Journal) && !(stage is Permission) && !(stage is Done)
}

/// No file is created without the permission: in every run of an upload
/// from its start, the file is created only on the outcome of a header
/// check that passed, after the permission check granted the permission.
pub proof fn lemma_upload_needs_permission(events: Seq<UploadEvent>)
    ensures
        spec_upload_run(events).1.len() == events.len(),
        forall|i: int|
            0 <= i < events.len() && #[trigger] spec_upload_run(events).1[i] is CreateFile ==> events[i]
                == (UploadEvent::Headers { media: true, hash: true }) && exists|j: int|
                0 <= j < i && #[trigger] events[j] == UploadEvent::Permission(true),
        spec_upload_permitted(spec_upload_run(events).0) ==> exists|j: int|
            0 <= j < events.len() && #[trigger] events[j] == UploadEvent::Permission(true),
    decreases events.len(),
{
    if events.len() > 0 {
        let prev = events.drop_last();
        lemma_upload_needs_permission(prev);
        let (stage, actions) = spec_upload_run(prev);
        let n = events.len() - 1;
        let (next, action) = spec_upload_step(stage, events.last());
        assert(spec_upload_run(events).1 == actions.push(action));
        assert forall|i: int|
            0 <= i < events.len() && #[trigger] spec_upload_run(events).1[i] is CreateFile implies events[i]
                == (UploadEvent::Headers { media: true, hash: true }) && exists|j: int|
                0 <= j < i && #[trigger] events[j] == UploadEvent::Permission(true) by {
            if i < n {
                assert(spec_upload_run(events).1[i] == actions[i]);
                assert(events[i] == prev[i]);
                let j = choose|j: int| 0 <= j < i && #[trigger] prev[j] == UploadEvent::Permission(true);
                assert(events[j] == prev[j]);
            } else {
                assert(action is CreateFile);
                assert(stage is Headers);
                let j = choose|j: int| 0 <= j < prev.len() && #[trigger] prev[j] == UploadEvent::Permission(true);
                assert(events[j] == prev[j]);
            }
        }
        if spec_upload_permitted(next) {
            if stage is Permission {
                assert(events[n] == UploadEvent::Permission(true));
            } else {
                let j = choose|j: int| 0 <= j < prev.len() && #[trigger] prev[j] == UploadEvent::Permission(true);
                assert(events[j] == prev[j]);
            }
        }
    }
}

} // verus!
