//! Journals, their entries, files and custom fields.

pub mod custom_field;
pub mod sharing;

use vstd::prelude::*;
use crate::db::{ErrorKind, PgError};
use crate::db::ids::{
    CustomFieldId, CustomFieldUid, EntryId, FileEntryId, FileEntryUid, JournalId, JournalUid, RemoteServerId, UserId,
};
use custom_field::Type;
use crate::path::{join_path, spec_join_path};
use crate::text::{push_decimal, push_str, spec_decimal, str_eq};
use crate::time::Timestamp;

verus! {

/// the potential errors when creating a journal
#[derive(Debug)]
pub enum JournalCreateError {
    /// the given journal name already exists for this user
    NameExists,
    /// the specified user does not exist
    UserNotFound,
    Db(PgError),
}

/// the potential errors when updating a journal
#[derive(Debug)]
pub enum JournalUpdateError {
    /// the given journal name already exists for this user
    NameExists,
    /// the specified journal does not exist
    NotFound,
    Db(PgError),
}

impl JournalCreateError {
    /// what a violated constraint means for a new journal: a name the user
    /// already has, or a user that does not exist; `None` for any other
    /// constraint, which is the database's own error
    pub fn from_violation(kind: &ErrorKind) -> (rtn: Option<Self>)
        ensures
            match *kind {
                ErrorKind::Unique(c) => if c@ == "journals_users_id_name_key"@ {
                    rtn matches Some(JournalCreateError::NameExists)
                } else {
                    rtn is None
                },
                ErrorKind::ForeignKey(c) => if c@ == "journals_users_id_fkey"@ {
                    rtn matches Some(JournalCreateError::UserNotFound)
                } else {
                    rtn is None
                },
            },
    {
        match kind {
            ErrorKind::Unique(c) => if str_eq(c, "journals_users_id_name_key") {
                Some(JournalCreateError::NameExists)
            } else {
                None
            },
            ErrorKind::ForeignKey(c) => if str_eq(c, "journals_users_id_fkey") {
                Some(JournalCreateError::UserNotFound)
            } else {
                None
            },
        }
    }
}

impl JournalUpdateError {
    /// what a violated unique constraint means for an updated journal: a
    /// name the user already has, else the database's own error (an update
    /// touches no foreign key)
    pub fn from_violation(kind: &ErrorKind) -> (rtn: Option<Self>)
        requires
            kind is Unique,
        ensures
            match *kind {
                ErrorKind::Unique(c) => if c@ == "journals_users_id_name_key"@ {
                    rtn matches Some(JournalUpdateError::NameExists)
                } else {
                    rtn is None
                },
                ErrorKind::ForeignKey(_) => false,
            },
    {
        match kind {
            ErrorKind::Unique(c) => if str_eq(c, "journals_users_id_name_key") {
                Some(JournalUpdateError::NameExists)
            } else {
                None
            },
            ErrorKind::ForeignKey(_) => None,
        }
    }

    /// the outcome of an update by the number of rows it changed: one for
    /// the journal, none when it does not exist
    pub fn from_rows(rows: u64) -> (rtn: Result<(), Self>)
        requires
            rows <= 1,
        ensures
            rows == 1 ==> rtn is Ok,
            rows == 0 ==> rtn matches Err(JournalUpdateError::NotFound),
    {
        if rows == 1 {
            Ok(())
        } else {
            Err(JournalUpdateError::NotFound)
        }
    }
}

/// the options available when creating a journal
#[derive(Debug)]
pub struct JournalCreateOptions {
    /// the user to assign the journal to
    users_id: UserId,
    /// the name of the journal
    name: String,
    /// an optional description of the journal
    description: Option<String>,
}

impl JournalCreateOptions {
    pub closed spec fn spec_users_id(&self) -> UserId {
        self.users_id
    }

    pub closed spec fn spec_name(&self) -> Seq<char> {
        self.name@
    }

    pub closed spec fn spec_description(&self) -> Option<Seq<char>> {
        match self.description {
            Some(d) => Some(d@),
            None => None,
        }
    }

    /// assigns a description to the journal
    pub fn description(self, value: String) -> (rtn: Self)
        ensures
            rtn.spec_users_id() == self.spec_users_id(),
            rtn.spec_name() == self.spec_name(),
            rtn.spec_description() == Some(value@),
    {
        let mut this = self;
        this.description = Some(value);
        this
    }

    /// the user the journal is for
    pub fn users_id(&self) -> (rtn: &UserId)
        ensures
            *rtn == self.spec_users_id(),
    {
        &self.users_id
    }

    /// the name of the journal
    pub fn name(&self) -> (rtn: &str)
        ensures
            rtn@ == self.spec_name(),
    {
        self.name.as_str()
    }
}

/// a journal kept on this server
#[derive(Debug, Clone)]
pub struct LocalJournal {
    pub id: JournalId,
    pub uid: JournalUid,
    pub users_id: UserId,
    pub name: String,
    pub description: Option<String>,
    pub created: Timestamp,
    pub updated: Option<Timestamp>,
}

impl LocalJournal {
    /// the options to create a journal with the given owner and name and no
    /// description
    pub fn create_options(users_id: UserId, name: String) -> (rtn: JournalCreateOptions)
        ensures
            rtn.spec_users_id() == users_id,
            rtn.spec_name() == name@,
            rtn.spec_description() is None,
    {
        JournalCreateOptions { users_id, name, description: None }
    }
}

/// a journal that comes from a remote server
#[derive(Debug)]
pub struct RemoteJournal {
    pub id: JournalId,
    pub uid: JournalUid,
    pub users_id: UserId,
    /// the remote server that the journal comes from
    pub server_id: RemoteServerId,
    pub name: String,
    pub description: Option<String>,
    pub created: Timestamp,
    pub updated: Option<Timestamp>,
}

/// a journal as the database holds it: kept here or from a remote server
#[derive(Debug)]
pub enum Journal {
    Local(LocalJournal),
    Remote(RemoteJournal),
}

impl Journal {
    /// the database id of the journal
    pub fn id(&self) -> (rtn: &JournalId)
        ensures
            *rtn == match *self {
                Journal::Local(l) => l.id,
                Journal::Remote(r) => r.id,
            },
    {
        match self {
            Journal::Local(local) => &local.id,
            Journal::Remote(rmt) => &rmt.id,
        }
    }

    /// the owner of the journal
    pub fn users_id(&self) -> (rtn: &UserId)
        ensures
            *rtn == match *self {
                Journal::Local(l) => l.users_id,
                Journal::Remote(r) => r.users_id,
            },
    {
        match self {
            Journal::Local(local) => &local.users_id,
            Journal::Remote(rmt) => &rmt.users_id,
        }
    }

    /// the journal kept here, or the journal itself back when it is remote
    pub fn into_local(self) -> (rtn: Result<LocalJournal, Self>)
        ensures
            match self {
                Journal::Local(l) => rtn == Ok::<LocalJournal, Journal>(l),
                Journal::Remote(_) => rtn == Err::<LocalJournal, Journal>(self),
            },
    {
        match self {
            Journal::Local(local) => Ok(local),
            _ => Err(self),
        }
    }

    /// the remote journal, or the journal itself back when it is kept here
    pub fn into_remote(self) -> (rtn: Result<RemoteJournal, Self>)
        ensures
            match self {
                Journal::Remote(r) => rtn == Ok::<RemoteJournal, Journal>(r),
                Journal::Local(_) => rtn == Err::<RemoteJournal, Journal>(self),
            },
    {
        match self {
            Journal::Remote(rmt) => Ok(rmt),
            _ => Err(self),
        }
    }
}

/// where a journal is kept
#[derive(Debug, Clone, Copy, PartialEq, Eq, Structural)]
pub enum JournalKind {
    Local,
    Remote,
}

/// the given value is an invalid JournalKind
#[derive(Debug)]
pub struct InvalidJournalKind;

/// the number that stores a journal kind
pub open spec fn spec_kind_code(kind: JournalKind) -> i16 {
    match kind {
        JournalKind::Local => 0,
        JournalKind::Remote => 1,
    }
}

/// the journal kind that a stored number stands for
pub open spec fn spec_kind_from_code(value: i16) -> Option<JournalKind> {
    if value == 0 {
        Some(JournalKind::Local)
    } else if value == 1 {
        Some(JournalKind::Remote)
    } else {
        None
    }
}

impl JournalKind {
    /// the number that stores the kind
    pub fn to_code(&self) -> (rtn: i16)
        ensures
            rtn == spec_kind_code(*self),
    {
        match self {
            JournalKind::Local => 0,
            JournalKind::Remote => 1,
        }
    }

    /// the kind that a stored number stands for
    pub fn try_from_code(value: i16) -> (rtn: Result<Self, InvalidJournalKind>)
        ensures
            match rtn {
                Ok(kind) => spec_kind_from_code(value) == Some(kind),
                Err(_) => spec_kind_from_code(value) is None,
            },
    {
        match value {
            0 => Ok(JournalKind::Local),
            1 => Ok(JournalKind::Remote),
            _ => Err(InvalidJournalKind),
        }
    }
}

/// reading back the stored number of a journal kind gives the kind, and
/// every number that reads as a kind is the stored number of that kind
pub proof fn lemma_kind_code_roundtrip(kind: JournalKind, value: i16)
    ensures
        spec_kind_from_code(spec_kind_code(kind)) == Some(kind),
        spec_kind_from_code(value) matches Some(k) ==> spec_kind_code(k) == value,
{
}

/// how a journal is looked up
pub enum RetrieveQuery<'a> {
    IdAndUser((&'a JournalId, &'a UserId)),
    Uid(&'a JournalUid),
}

/// the potential errors when creating an entry
#[derive(Debug)]
pub enum EntryCreateError {
    /// the given date entry already exists for this journal
    DateExists,
    /// the specified journal was not found
    JournalNotFound,
    /// the specified user was not found
    UserNotFound,
    /// the specified uid already exists
    UidExists,
    Db(PgError),
}

/// the potential errors when updating an entry
#[derive(Debug)]
pub enum EntryUpdateError {
    /// the given date entry already exists for this journal
    DateExists,
    /// the given entry was not found
    NotFound,
    Db(PgError),
}

impl EntryCreateError {
    /// what a violated constraint means for a new entry: a date the journal
    /// already has an entry for, a taken uid, a missing journal or user;
    /// `None` for any other constraint, which is the database's own error
    pub fn from_violation(kind: &ErrorKind) -> (rtn: Option<Self>)
        ensures
            match *kind {
                ErrorKind::Unique(c) => if c@ == "entries_journals_id_entry_date_key"@ {
                    rtn matches Some(EntryCreateError::DateExists)
                } else if c@ == "entries_uid_key"@ {
                    rtn matches Some(EntryCreateError::UidExists)
                } else {
                    rtn is None
                },
                ErrorKind::ForeignKey(c) => if c@ == "entries_journals_id_fkey"@ {
                    rtn matches Some(EntryCreateError::JournalNotFound)
                } else if c@ == "entries_users_id_fkey"@ {
                    rtn matches Some(EntryCreateError::UserNotFound)
                } else {
                    rtn is None
                },
            },
    {
        match kind {
            ErrorKind::Unique(c) => if str_eq(c, "entries_journals_id_entry_date_key") {
                Some(EntryCreateError::DateExists)
            } else if str_eq(c, "entries_uid_key") {
                Some(EntryCreateError::UidExists)
            } else {
                None
            },
            ErrorKind::ForeignKey(c) => if str_eq(c, "entries_journals_id_fkey") {
                Some(EntryCreateError::JournalNotFound)
            } else if str_eq(c, "entries_users_id_fkey") {
                Some(EntryCreateError::UserNotFound)
            } else {
                None
            },
        }
    }
}

impl EntryUpdateError {
    /// what a violated constraint means for an updated entry: a date the
    /// journal already has an entry for; `None` for any other constraint
    pub fn from_violation(kind: &ErrorKind) -> (rtn: Option<Self>)
        ensures
            match *kind {
                ErrorKind::Unique(c) => if c@ == "entries_journals_id_entry_date_key"@ {
                    rtn matches Some(EntryUpdateError::DateExists)
                } else {
                    rtn is None
                },
                ErrorKind::ForeignKey(_) => rtn is None,
            },
    {
        match kind {
            ErrorKind::Unique(c) => if str_eq(c, "entries_journals_id_entry_date_key") {
                Some(EntryUpdateError::DateExists)
            } else {
                None
            },
            ErrorKind::ForeignKey(_) => None,
        }
    }

    /// the outcome of an update by the number of rows it changed: one for
    /// the entry, none when it does not exist
    pub fn from_rows(rows: u64) -> (rtn: Result<(), Self>)
        requires
            rows <= 1,
        ensures
            rows == 1 ==> rtn is Ok,
            rows == 0 ==> rtn matches Err(EntryUpdateError::NotFound),
    {
        if rows == 1 {
            Ok(())
        } else {
            Err(EntryUpdateError::NotFound)
        }
    }
}

/// the state of the file of a file entry
#[derive(Debug, Clone, Copy, PartialEq, Eq, Structural)]
pub enum FileStatus {
    Requested,
    Received,
    Remote,
}

/// the given value is an invalid FileStatus
#[derive(Debug)]
pub struct InvalidFileStatus;

/// the number that stores a file status
pub open spec fn spec_file_status_code(status: FileStatus) -> i16 {
    match status {
        FileStatus::Requested => 0,
        FileStatus::Received => 1,
        FileStatus::Remote => 2,
    }
}

/// the file status that a stored number stands for
pub open spec fn spec_file_status_from_code(value: i16) -> Option<FileStatus> {
    if value == 0 {
        Some(FileStatus::Requested)
    } else if value == 1 {
        Some(FileStatus::Received)
    } else if value == 2 {
        Some(FileStatus::Remote)
    } else {
        None
    }
}

impl FileStatus {
    /// the number that stores the status
    pub fn to_code(&self) -> (rtn: i16)
        ensures
            rtn == spec_file_status_code(*self),
    {
        match self {
            FileStatus::Requested => 0,
            FileStatus::Received => 1,
            FileStatus::Remote => 2,
        }
    }

    /// the status that a stored number stands for
    pub fn try_from_code(value: i16) -> (rtn: Result<Self, InvalidFileStatus>)
        ensures
            match rtn {
                Ok(status) => spec_file_status_from_code(value) == Some(status),
                Err(_) => spec_file_status_from_code(value) is None,
            },
    {
        match value {
            0 => Ok(FileStatus::Requested),
            1 => Ok(FileStatus::Received),
            2 => Ok(FileStatus::Remote),
            _ => Err(InvalidFileStatus),
        }
    }
}

/// reading back the stored number of a file status gives the status, and
/// every number that reads as a status is the stored number of that status
pub proof fn lemma_file_status_code_roundtrip(status: FileStatus, value: i16)
    ensures
        spec_file_status_from_code(spec_file_status_code(status)) == Some(status),
        spec_file_status_from_code(value) matches Some(s) ==> spec_file_status_code(s) == value,
{
}

/// how a file entry is looked up
pub enum RetrieveFileEntryQuery<'a> {
    EntryAndId((&'a EntryId, &'a FileEntryId)),
    Uid(&'a FileEntryUid),
}

/// a file entry whose bytes the server waits for
#[derive(Debug)]
pub struct RequestedFile {
    pub id: FileEntryId,
    pub uid: FileEntryUid,
    pub entries_id: EntryId,
    pub name: Option<String>,
    pub created: Timestamp,
    pub updated: Option<Timestamp>,
}

/// a file entry whose bytes the server holds
#[derive(Debug)]
pub struct ReceivedFile {
    pub id: FileEntryId,
    pub uid: FileEntryUid,
    pub entries_id: EntryId,
    pub name: Option<String>,
    pub mime_type: String,
    pub mime_subtype: String,
    pub mime_param: Option<String>,
    pub size: i64,
    /// the blake3 hash of the bytes
    pub hash: [u8; 32],
    pub created: Timestamp,
    pub updated: Option<Timestamp>,
}

/// a file entry whose bytes are on a remote server
#[derive(Debug)]
pub struct RemoteFile {
    pub id: FileEntryId,
    pub uid: FileEntryUid,
    pub entries_id: EntryId,
    pub server_id: RemoteServerId,
    pub name: Option<String>,
    pub mime_type: String,
    pub mime_subtype: String,
    pub mime_param: Option<String>,
    pub size: i64,
    /// the blake3 hash of the bytes
    pub hash: [u8; 32],
    pub created: Timestamp,
    pub updated: Option<Timestamp>,
}

/// a file entry as the database holds it, by the state of its bytes
#[derive(Debug)]
pub enum FileEntry {
    Requested(RequestedFile),
    Received(ReceivedFile),
    Remote(RemoteFile),
}

impl FileEntry {
    /// the uid of the file entry
    pub fn uid(&self) -> (rtn: &FileEntryUid)
        ensures
            *rtn == match *self {
                FileEntry::Requested(f) => f.uid,
                FileEntry::Received(f) => f.uid,
                FileEntry::Remote(f) => f.uid,
            },
    {
        match self {
            FileEntry::Requested(req) => &req.uid,
            FileEntry::Received(rec) => &rec.uid,
            FileEntry::Remote(rmt) => &rmt.uid,
        }
    }

    /// the received file, or the entry itself back in another state
    pub fn into_received(self) -> (rtn: Result<ReceivedFile, Self>)
        ensures
            match self {
                FileEntry::Received(f) => rtn == Ok::<ReceivedFile, FileEntry>(f),
                _ => rtn == Err::<ReceivedFile, FileEntry>(self),
            },
    {
        match self {
            FileEntry::Received(rec) => Ok(rec),
            _ => Err(self),
        }
    }

    /// the requested file, or the entry itself back in another state
    pub fn into_requested(self) -> (rtn: Result<RequestedFile, Self>)
        ensures
            match self {
                FileEntry::Requested(f) => rtn == Ok::<RequestedFile, FileEntry>(f),
                _ => rtn == Err::<RequestedFile, FileEntry>(self),
            },
    {
        match self {
            FileEntry::Requested(req) => Ok(req),
            _ => Err(self),
        }
    }
}

/// what a requested file becomes once its bytes are stored: their media
/// type, size and hash, and when they came
pub struct PromoteOptions {
    pub mime_type: String,
    pub mime_subtype: String,
    pub mime_param: Option<String>,
    pub size: i64,
    pub hash: [u8; 32],
    pub created: Timestamp,
}

impl RequestedFile {
    /// the received file that the stored bytes make of this request: the
    /// same id, uid, entry and name, the given media type, size, hash and
    /// time, not yet updated
    pub fn into_received(self, options: PromoteOptions) -> (rtn: ReceivedFile)
        ensures
            rtn.id == self.id,
            rtn.uid == self.uid,
            rtn.entries_id == self.entries_id,
            rtn.name == self.name,
            rtn.mime_type == options.mime_type,
            rtn.mime_subtype == options.mime_subtype,
            rtn.mime_param == options.mime_param,
            rtn.size == options.size,
            rtn.hash == options.hash,
            rtn.created == options.created,
            rtn.updated is None,
    {
        ReceivedFile {
            id: self.id,
            uid: self.uid,
            entries_id: self.entries_id,
            name: self.name,
            mime_type: options.mime_type,
            mime_subtype: options.mime_subtype,
            mime_param: options.mime_param,
            size: options.size,
            hash: options.hash,
            created: options.created,
            updated: None,
        }
    }
}

/// the media type text of a stored file: `type/subtype`, then `;` and the
/// parameters when it has them
pub open spec fn spec_mime_text(ty: Seq<char>, subtype: Seq<char>, param: Option<Seq<char>>) -> Seq<char> {
    match param {
        Some(p) => ty + "/"@ + subtype + ";"@ + p,
        None => ty + "/"@ + subtype,
    }
}

impl ReceivedFile {
    /// the media type of the file as text, as it is parsed when the file is
    /// sent
    pub fn mime_text(&self) -> (rtn: String)
        ensures
            rtn@ == spec_mime_text(
                self.mime_type@,
                self.mime_subtype@,
                match self.mime_param {
                    Some(p) => Some(p@),
                    None => None,
                },
            ),
    {
        let mut rtn = String::new();
        push_str(&mut rtn, self.mime_type.as_str());
        push_str(&mut rtn, "/");
        push_str(&mut rtn, self.mime_subtype.as_str());
        match &self.mime_param {
            Some(param) => {
                push_str(&mut rtn, ";");
                push_str(&mut rtn, param.as_str());
            },
            None => {},
        }
        rtn
    }
}

/// a custom field of a journal; the options of the float kinds (`F`,
/// `FR`) are carried unread
#[derive(Debug)]
pub struct CustomField<F, FR> {
    pub id: CustomFieldId,
    pub uid: CustomFieldUid,
    pub journals_id: JournalId,
    pub name: String,
    pub order: i32,
    pub config: Type<F, FR>,
    pub description: Option<String>,
    pub created: Timestamp,
    pub updated: Option<Timestamp>,
}

/// the options of a custom field to make
#[derive(Debug)]
pub struct CreateCustomFieldOptions<F, FR> {
    pub journals_id: JournalId,
    pub name: String,
    pub order: i32,
    pub config: Type<F, FR>,
    pub description: Option<String>,
}

impl<F, FR> CreateCustomFieldOptions<F, FR> {
    /// the field that the options make once stored with the given id, uid
    /// and time: not yet updated
    pub fn into_field(self, id: CustomFieldId, uid: CustomFieldUid, created: Timestamp) -> (rtn: CustomField<F, FR>)
        ensures
            rtn.id == id,
            rtn.uid == uid,
            rtn.journals_id == self.journals_id,
            rtn.name == self.name,
            rtn.order == self.order,
            rtn.config == self.config,
            rtn.description == self.description,
            rtn.created == created,
            rtn.updated is None,
    {
        CustomField {
            id,
            uid,
            journals_id: self.journals_id,
            name: self.name,
            order: self.order,
            config: self.config,
            description: self.description,
            created,
            updated: None,
        }
    }
}

impl<F, FR> CustomField<F, FR> {
    /// the options to make a field of the given journal with the given name
    /// and kind: first in order, without a description
    pub fn create_options(journals_id: JournalId, name: String, config: Type<F, FR>) -> (rtn: CreateCustomFieldOptions<F, FR>)
        ensures
            rtn.journals_id == journals_id,
            rtn.name == name,
            rtn.order == 0,
            rtn.config == config,
            rtn.description is None,
    {
        CreateCustomFieldOptions { journals_id, name, order: 0, config, description: None }
    }
}

/// the potential errors when creating a custom field
#[derive(Debug)]
pub enum CreateCustomFieldError {
    /// the given custom field uid already exists
    UidExists,
    /// the given name already exists for this journal
    NameExists,
    /// the specified journal does not exist
    JournalNotFound,
    Db(PgError),
}

impl CreateCustomFieldError {
    /// what a violated constraint means for a new custom field: a name the
    /// journal already has, a taken uid, a missing journal; `None` for any
    /// other constraint, which is the database's own error
    pub fn from_violation(kind: &ErrorKind) -> (rtn: Option<Self>)
        ensures
            match *kind {
                ErrorKind::Unique(c) => if c@ == "custom_fields_journals_id_name_key"@ {
                    rtn matches Some(CreateCustomFieldError::NameExists)
                } else if c@ == "custom_fields_uid_key"@ {
                    rtn matches Some(CreateCustomFieldError::UidExists)
                } else {
                    rtn is None
                },
                ErrorKind::ForeignKey(c) => if c@ == "custom_fields_journals_id_fkey"@ {
                    rtn matches Some(CreateCustomFieldError::JournalNotFound)
                } else {
                    rtn is None
                },
            },
    {
        match kind {
            ErrorKind::Unique(c) => if str_eq(c, "custom_fields_journals_id_name_key") {
                Some(CreateCustomFieldError::NameExists)
            } else if str_eq(c, "custom_fields_uid_key") {
                Some(CreateCustomFieldError::UidExists)
            } else {
                None
            },
            ErrorKind::ForeignKey(c) => if str_eq(c, "custom_fields_journals_id_fkey") {
                Some(CreateCustomFieldError::JournalNotFound)
            } else {
                None
            },
        }
    }
}

/// the directory of a journal's stored data
#[derive(Debug)]
pub struct JournalDir {
    root: String,
}

/// the directory of a journal under the storage root
pub open spec fn spec_journal_dir(root: Seq<char>, journals_id: JournalId) -> Seq<char> {
    spec_join_path(root, "journals/"@ + spec_decimal(journals_id.value() as nat))
}

/// the stored file of a file entry under a journal's directory
pub open spec fn spec_journal_file(dir: Seq<char>, file_entries_id: FileEntryId) -> Seq<char> {
    spec_join_path(dir, "files/"@ + spec_decimal(file_entries_id.value() as nat) + ".file"@)
}

impl JournalDir {
    /// the path of the journal's directory
    pub closed spec fn spec_root(&self) -> Seq<char> {
        self.root@
    }

    /// the directory `journals/{journals_id}` under the given storage root
    pub fn new(root: &str, journals_id: JournalId) -> (rtn: Self)
        requires
            journals_id.value() >= 0,
        ensures
            rtn.spec_root() == spec_journal_dir(root@, journals_id),
    {
        let mut path = String::new();
        push_str(&mut path, "journals/");
        push_decimal(&mut path, *journals_id.inner() as u64);
        JournalDir { root: join_path(root, path.as_str()) }
    }

    /// the path of the directory
    pub fn root(&self) -> (rtn: &str)
        ensures
            rtn@ == self.spec_root(),
    {
        self.root.as_str()
    }

    /// the stored file `files/{file_entries_id}.file` of a file entry in the
    /// journal's directory
    pub fn file_path(&self, file_entries_id: &FileEntryId) -> (rtn: String)
        requires
            file_entries_id.value() >= 0,
        ensures
            rtn@ == spec_journal_file(self.spec_root(), *file_entries_id),
    {
        let mut name = String::new();
        push_str(&mut name, "files/");
        push_decimal(&mut name, *file_entries_id.inner() as u64);
        push_str(&mut name, ".file");
        join_path(self.root.as_str(), name.as_str())
    }
}

/// a tag of an entry: a key, maybe a value, when it was made and last
/// changed
#[derive(Debug)]
pub struct EntryTag {
    pub key: String,
    pub value: Option<String>,
    pub created: Timestamp,
    pub updated: Option<Timestamp>,
}

/// a tag as plain values: key, value, creation and last change
pub open spec fn spec_entry_tag(t: EntryTag) -> (Seq<char>, Option<Seq<char>>, Timestamp, Option<
    Timestamp,
>) {
    (
        t.key@,
        match t.value {
            Some(v) => Some(v@),
            None => None,
        },
        t.created,
        t.updated,
    )
}

} // verus!
