//! Transactional changes to files: the paths that an update, a removal or a
//! creation works with, and the decisions taken on what the file system
//! reports. The file system calls themselves are made by the caller.

use vstd::prelude::*;
use std::io::Error as IoError;
use crate::path::{add_extension, spec_add_extension};
use crate::text::to_owned_string;

verus! {

/// an error of the file system, carried through the library unread
#[verifier::external_type_specification]
#[verifier::external_body]
pub struct ExIoError(std::io::Error);

/// whether a file system error is of the kind `AlreadyExists`
pub uninterp spec fn spec_io_already_exists(err: IoError) -> bool;

/// Calls `std::io::Error::kind` and compares it with `AlreadyExists`. The
/// kind is read from the error value alone; the answer is named
/// `spec_io_already_exists`.
#[verifier::external_body]
fn is_already_exists(err: &IoError) -> (rtn: bool)
    ensures
        rtn == spec_io_already_exists(*err),
{
    err.kind() == std::io::ErrorKind::AlreadyExists
}

/// what the file system says of a path
#[derive(Debug, Clone, Copy, PartialEq, Eq, Structural)]
pub enum FileState {
    /// nothing is there
    Missing,
    /// a file is there
    File,
    /// something other than a file is there
    Other,
}

/// the errors when preparing to update a file
#[derive(Debug)]
pub enum FileUpdaterError {
    /// the provided file has no file_name value
    NoFileName,
    /// the provided file was not found in the file system
    CurrNotFound,
    /// a previous update failed to be cleaned up and the previous file exists
    PrevExists,
    /// a previous update failed to be cleaned up and the temp file exists
    TempExists,
    /// the provided file path is not a file
    CurrNotFile,
    /// the previous file path is not a file
    PrevNotFile,
    Io(IoError),
}

impl FileUpdaterError {
    /// the error of opening the temp file: `TempExists` when it is already
    /// there, else the error itself
    pub fn from_open_error(err: IoError) -> (rtn: Self)
        ensures
            rtn is TempExists <==> spec_io_already_exists(err),
            !spec_io_already_exists(err) ==> (rtn matches FileUpdaterError::Io(e) && e == err),
    {
        if is_already_exists(&err) {
            FileUpdaterError::TempExists
        } else {
            FileUpdaterError::Io(err)
        }
    }
}

/// the three files of an update: the current file, the temp file that
/// becomes its new version, and the previous version kept until cleaned
#[derive(Debug)]
pub struct FileUpdaterPaths {
    pub curr: String,
    pub temp: String,
    pub prev: String,
}

/// the result of checking the current and previous files before an update
pub open spec fn spec_check_update(curr: FileState, prev: FileState) -> Option<
    FileUpdaterError,
> {
    match curr {
        FileState::Missing => Some(FileUpdaterError::CurrNotFound),
        FileState::Other => Some(FileUpdaterError::CurrNotFile),
        FileState::File => match prev {
            FileState::Missing => None,
            FileState::File => Some(FileUpdaterError::PrevExists),
            FileState::Other => Some(FileUpdaterError::PrevNotFile),
        },
    }
}

impl FileUpdaterPaths {
    /// the paths of an update of `path`: the same path with `.temp` and
    /// `.prev` added; `NoFileName` when the path has no file name
    pub fn new(path: &str) -> (rtn: Result<Self, FileUpdaterError>)
        ensures
            match rtn {
                Ok(paths) => paths.curr@ == path@ && spec_add_extension(path@, "prev"@) == Some(
                    paths.prev@,
                ) && spec_add_extension(path@, "temp"@) == Some(paths.temp@),
                Err(e) => e is NoFileName && spec_add_extension(path@, "prev"@) is None,
            },
    {
        let prev = match add_extension(path, "prev") {
            Some(p) => p,
            None => return Err(FileUpdaterError::NoFileName),
        };
        let temp = match add_extension(path, "temp") {
            Some(t) => t,
            None => return Err(FileUpdaterError::NoFileName),
        };
        Ok(FileUpdaterPaths { curr: to_owned_string(path), temp, prev })
    }

    /// checks what the file system says of the current and previous files:
    /// the current one must be a file and the previous one must be missing
    pub fn check(curr: FileState, prev: FileState) -> (rtn: Result<(), FileUpdaterError>)
        ensures
            match spec_check_update(curr, prev) {
                None => rtn is Ok,
                Some(e) => rtn matches Err(r) && r == e,
            },
    {
        match curr {
            FileState::Missing => Err(FileUpdaterError::CurrNotFound),
            FileState::Other => Err(FileUpdaterError::CurrNotFile),
            FileState::File => match prev {
                FileState::Missing => Ok(()),
                FileState::File => Err(FileUpdaterError::PrevExists),
                FileState::Other => Err(FileUpdaterError::PrevNotFile),
            },
        }
    }

    /// the first step of an update moved the current file to the previous
    /// one: on failure nothing has changed and the update ends
    pub fn after_prev_move(self, moved: Result<(), IoError>) -> (rtn: Result<Self, UpdateError>)
        ensures
            match moved {
                Ok(()) => rtn matches Ok(p) && p == self,
                Err(err) => rtn matches Err(UpdateError::PrevMove { temp, err: e }) && temp
                    == self.temp && e == err,
            },
    {
        match moved {
            Ok(()) => Ok(self),
            Err(err) => Err(UpdateError::PrevMove { temp: self.temp, err }),
        }
    }

    /// the second step moved the temp file to the current one: on success
    /// the update is done, on failure the previous file has to be moved back
    pub fn after_temp_move(self, moved: Result<(), IoError>) -> (rtn: Result<
        UpdatedFile,
        (Self, IoError),
    >)
        ensures
            match moved {
                Ok(()) => rtn matches Ok(u) && u.spec_curr() == self.curr@ && u.spec_prev() == self.prev@,
                Err(err) => rtn matches Err((p, e)) && p == self && e == err,
            },
    {
        match moved {
            Ok(()) => Ok(UpdatedFile { curr: self.curr, prev: self.prev }),
            Err(err) => Err((self, err)),
        }
    }

    /// the recovery step moved the previous file back: the error of the
    /// update says whether that worked too
    pub fn after_recovery(self, err: IoError, recovered: Result<(), IoError>) -> (rtn: UpdateError)
        ensures
            match recovered {
                Ok(()) => rtn == (UpdateError::TempMove { temp: self.temp, err }),
                Err(rcvr) => rtn == (UpdateError::TempMoveRecovery {
                    prev: self.prev,
                    temp: self.temp,
                    err,
                    rcvr,
                }),
            },
    {
        match recovered {
            Ok(()) => UpdateError::TempMove { temp: self.temp, err },
            Err(rcvr) => UpdateError::TempMoveRecovery { prev: self.prev, temp: self.temp, err, rcvr },
        }
    }
}

/// the potential errors that can arise when updating a file
#[derive(Debug)]
pub enum UpdateError {
    /// failed to move the current file to previous
    PrevMove { temp: String, err: IoError },
    /// failed to move the temp file to current
    TempMove { temp: String, err: IoError },
    /// failed recovery after temp move error
    TempMoveRecovery { prev: String, temp: String, err: IoError, rcvr: IoError },
}

/// the resulting files after a file has been updated
#[derive(Debug)]
pub struct UpdatedFile {
    curr: String,
    prev: String,
}

impl UpdatedFile {
    /// the updated file
    pub closed spec fn spec_curr(&self) -> Seq<char> {
        self.curr@
    }

    /// the previous version of the file
    pub closed spec fn spec_prev(&self) -> Seq<char> {
        self.prev@
    }

    /// the updated file
    pub fn curr(&self) -> (rtn: &str)
        ensures
            rtn@ == self.spec_curr(),
    {
        self.curr.as_str()
    }

    /// the previous version of the file, which a rollback moves back
    pub fn prev(&self) -> (rtn: &str)
        ensures
            rtn@ == self.spec_prev(),
    {
        self.prev.as_str()
    }

    /// a rollback moved the previous file back to the current one: when
    /// that failed nothing has changed, and the updated file comes back
    /// with the error
    pub fn after_rollback(self, moved: Result<(), IoError>) -> (rtn: Result<(), (Self, IoError)>)
        ensures
            match moved {
                Ok(()) => rtn is Ok,
                Err(err) => rtn matches Err((u, e)) && u == self && e == err,
            },
    {
        match moved {
            Ok(()) => Ok(()),
            Err(err) => Err((self, err)),
        }
    }
}

/// the contents of the files of a file system, by path
pub type FileContents = Map<Seq<char>, Seq<u8>>;

/// the files after a move of one path to another that worked: the
/// contents move, and replace what the target held
pub open spec fn spec_moved(files: FileContents, from: Seq<char>, to: Seq<char>) -> FileContents {
    files.remove(from).insert(to, files[from])
}

/// the files after an update of `curr` through `temp` and `prev`, given
/// which of its moves worked: first the current file to the previous one
/// (`after_prev_move`), then the temp file to the current one
/// (`after_temp_move`), or, when that failed, the previous file back to
/// the current one (`after_recovery`)
pub open spec fn spec_update_files(
    files: FileContents,
    curr: Seq<char>,
    temp: Seq<char>,
    prev: Seq<char>,
    prev_moved: bool,
    temp_moved: bool,
    recovered: bool,
) -> FileContents {
    if !prev_moved {
        files
    } else {
        let moved = spec_moved(files, curr, prev);
        if temp_moved {
            spec_moved(moved, temp, curr)
        } else if recovered {
            spec_moved(moved, prev, curr)
        } else {
            moved
        }
    }
}

/// An update lands the new contents or leaves the old ones: with the
/// current file and the written temp file there and no previous file, an
/// update whose moves both worked leaves the new contents at the current
/// path, the old ones at the previous path and no temp file; one whose
/// first move failed (`PrevMove`), or whose second move failed and was
/// undone (`TempMove`), leaves every file as it was; only when the undoing
/// failed too (`TempMoveRecovery`) are the old contents left at the
/// previous path, beside the temp file, with no current file.
pub proof fn lemma_update_contents(
    files: FileContents,
    curr: Seq<char>,
    temp: Seq<char>,
    prev: Seq<char>,
    prev_moved: bool,
    temp_moved: bool,
    recovered: bool,
)
    requires
        curr != temp && curr != prev && temp != prev,
        files.dom().contains(curr),
        files.dom().contains(temp),
        !files.dom().contains(prev),
    ensures
        ({
            let after = spec_update_files(files, curr, temp, prev, prev_moved, temp_moved, recovered);
            &&& prev_moved && temp_moved ==> after == files.remove(temp).insert(curr, files[temp]).insert(
                prev,
                files[curr],
            )
            &&& !prev_moved ==> after == files
            &&& prev_moved && !temp_moved && recovered ==> after == files
            &&& prev_moved && !temp_moved && !recovered ==> after == files.remove(curr).insert(
                prev,
                files[curr],
            )
        }),
{
    let moved = spec_moved(files, curr, prev);
    assert(spec_moved(moved, temp, curr) =~= files.remove(temp).insert(curr, files[temp]).insert(
        prev,
        files[curr],
    ));
    assert(spec_moved(moved, prev, curr) =~= files);
    assert(moved =~= files.remove(curr).insert(prev, files[curr]));
}

/// A rollback after an update gives the old contents back: from the files
/// an update left when both its moves worked, a rollback that worked
/// (`after_rollback`) leaves the files as they were before the update, but
/// for the temp file, which the update used up; one that failed leaves
/// them as the update left them.
pub proof fn lemma_rollback_contents(files: FileContents, curr: Seq<char>, temp: Seq<char>, prev: Seq<char>)
    requires
        curr != temp && curr != prev && temp != prev,
        files.dom().contains(curr),
        files.dom().contains(temp),
        !files.dom().contains(prev),
    ensures
        spec_moved(spec_update_files(files, curr, temp, prev, true, true, false), prev, curr) == files.remove(
            temp,
        ),
{
    let updated = spec_update_files(files, curr, temp, prev, true, true, false);
    assert(spec_moved(updated, prev, curr) =~= files.remove(temp));
}

/// the potential errors that arise when removing a file
#[derive(Debug)]
pub enum RemovedFileError {
    /// the provided file has no file_name value
    NoFileName,
    /// the provided file was not found in the file system
    CurrNotFound,
    /// a previous mark failed to be cleaned up and the marked file exists
    MarkExists,
    Io(IoError),
}

/// a file that has been marked for deletion: moved aside to its mark, from
/// where it can still be recovered
#[derive(Debug)]
pub struct RemovedFile {
    curr: String,
    mark: String,
}

impl RemovedFile {
    /// the file's own path
    pub closed spec fn spec_curr(&self) -> Seq<char> {
        self.curr@
    }

    /// where the file was moved to
    pub closed spec fn spec_mark(&self) -> Seq<char> {
        self.mark@
    }

    /// the mark of a file: its path with `.mark` added; `NoFileName` when
    /// the path has no file name
    pub fn plan(curr: String) -> (rtn: Result<Self, RemovedFileError>)
        ensures
            match rtn {
                Ok(r) => r.spec_curr() == curr@ && spec_add_extension(curr@, "mark"@) == Some(
                    r.spec_mark(),
                ),
                Err(e) => e is NoFileName && spec_add_extension(curr@, "mark"@) is None,
            },
    {
        match add_extension(curr.as_str(), "mark") {
            Some(mark) => Ok(RemovedFile { curr, mark }),
            None => Err(RemovedFileError::NoFileName),
        }
    }

    /// checks what the file system says before the file is moved: it must
    /// be there and its mark must not
    pub fn check(curr_exists: bool, mark_exists: bool) -> (rtn: Result<(), RemovedFileError>)
        ensures
            !curr_exists ==> rtn matches Err(RemovedFileError::CurrNotFound),
            curr_exists && mark_exists ==> rtn matches Err(RemovedFileError::MarkExists),
            curr_exists && !mark_exists ==> rtn is Ok,
    {
        if !curr_exists {
            Err(RemovedFileError::CurrNotFound)
        } else if mark_exists {
            Err(RemovedFileError::MarkExists)
        } else {
            Ok(())
        }
    }

    /// the file's own path, where a rollback moves it back
    pub fn curr(&self) -> (rtn: &str)
        ensures
            rtn@ == self.spec_curr(),
    {
        self.curr.as_str()
    }

    /// where the file was moved to, which a clean removes
    pub fn mark(&self) -> (rtn: &str)
        ensures
            rtn@ == self.spec_mark(),
    {
        self.mark.as_str()
    }
}

/// a list of files marked for deletion
#[derive(Debug)]
pub struct RemovedFiles {
    processed: Vec<RemovedFile>,
}

impl View for RemovedFiles {
    type V = Seq<(Seq<char>, Seq<char>)>;

    /// the marked files, each as its path and its mark, in marking order
    closed spec fn view(&self) -> Self::V {
        self.processed@.map_values(|r: RemovedFile| (r.spec_curr(), r.spec_mark()))
    }
}

impl RemovedFiles {
    /// an empty list
    pub fn new() -> (rtn: Self)
        ensures
            rtn@ == Seq::<(Seq<char>, Seq<char>)>::empty(),
    {
        RemovedFiles { processed: Vec::new() }
    }

    /// whether no file has been marked
    pub fn is_empty(&self) -> (rtn: bool)
        ensures
            rtn == (self@.len() == 0),
    {
        self.processed.len() == 0
    }

    /// how many files have been marked
    pub fn len(&self) -> (rtn: usize)
        ensures
            rtn == self@.len(),
    {
        self.processed.len()
    }

    /// adds a file that has been marked
    pub fn push(&mut self, marked: RemovedFile)
        ensures
            final(self)@ == old(self)@.push((marked.spec_curr(), marked.spec_mark())),
    {
        self.processed.push(marked);
        assert(self@ =~= old(self)@.push((marked.spec_curr(), marked.spec_mark())));
    }

    /// the marked files, in marking order, for a clean or a rollback
    pub fn into_files(self) -> (rtn: Vec<RemovedFile>)
        ensures
            rtn@.map_values(|r: RemovedFile| (r.spec_curr(), r.spec_mark())) == self@,
    {
        self.processed
    }
}

/// the list after a series of marks: a mark that worked (`Some`) is pushed
/// with its path and mark, one that failed (`None`) leaves the list as it
/// was
pub open spec fn spec_after_marks(
    start: Seq<(Seq<char>, Seq<char>)>,
    marks: Seq<Option<(Seq<char>, Seq<char>)>>,
) -> Seq<(Seq<char>, Seq<char>)>
    decreases marks.len(),
{
    if marks.len() == 0 {
        start
    } else {
        let before = spec_after_marks(start, marks.drop_last());
        match marks.last() {
            Some(m) => before.push(m),
            None => before,
        }
    }
}

/// A list of marked files is empty exactly when no mark worked: from a new
/// list, after a series of marks in which each that worked was pushed, the
/// list is empty (`is_empty`) if and only if every mark failed, and its
/// length (`len`) is the number of marks that worked.
pub proof fn lemma_marked_empty_iff_none_worked(marks: Seq<Option<(Seq<char>, Seq<char>)>>)
    ensures
        spec_after_marks(Seq::empty(), marks).len() == 0 <==> forall|i: int|
            0 <= i < marks.len() ==> #[trigger] marks[i] is None,
        spec_after_marks(Seq::empty(), marks).len() == marks.filter(
            |m: Option<(Seq<char>, Seq<char>)>| m is Some,
        ).len(),
    decreases marks.len(),
{
    if marks.len() > 0 {
        let prev = marks.drop_last();
        lemma_marked_empty_iff_none_worked(prev);
        let pred = |m: Option<(Seq<char>, Seq<char>)>| m is Some;
        assert(marks == prev.push(marks.last()));
        prev.lemma_filter_push(marks.last(), pred);
        if forall|i: int| 0 <= i < prev.len() ==> #[trigger] prev[i] is None {
            assert forall|i: int| 0 <= i < marks.len() - 1 implies #[trigger] marks[i] is None by {
                assert(marks[i] == prev[i]);
            }
        } else {
            let i = choose|i: int| 0 <= i < prev.len() && !(#[trigger] prev[i] is None);
            assert(marks[i] == prev[i]);
        }
        assert(marks[marks.len() - 1] == marks.last());
    }
}

/// the potential errors when creating a file
#[derive(Debug)]
pub enum FileCreaterError {
    /// the provided file already exists
    AlreadyExists,
    Io(IoError),
}

impl FileCreaterError {
    /// the error of creating the file: `AlreadyExists` when it is already
    /// there, else the error itself
    pub fn from_open_error(err: IoError) -> (rtn: Self)
        ensures
            rtn is AlreadyExists <==> spec_io_already_exists(err),
            !spec_io_already_exists(err) ==> (rtn matches FileCreaterError::Io(e) && e == err),
    {
        if is_already_exists(&err) {
            FileCreaterError::AlreadyExists
        } else {
            FileCreaterError::Io(err)
        }
    }
}

/// a single file that has been created, which a rollback removes
#[derive(Debug)]
pub struct CreatedFile(String);

impl CreatedFile {
    /// the created file
    pub closed spec fn spec_path(&self) -> Seq<char> {
        self.0@
    }

    /// the file created at the path
    pub fn new(path: String) -> (rtn: Self)
        ensures
            rtn.spec_path() == path@,
    {
        CreatedFile(path)
    }

    /// the created file
    pub fn path(&self) -> (rtn: &str)
        ensures
            rtn@ == self.spec_path(),
    {
        self.0.as_str()
    }
}

} // verus!
