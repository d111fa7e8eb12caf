use std::io::{Error, ErrorKind};
use tj2::fs::{
    CreatedFile, FileCreaterError, FileState, FileUpdaterError, FileUpdaterPaths, RemovedFile,
    RemovedFileError, RemovedFiles, UpdateError,
};

#[test]
fn updater_paths_add_extensions() {
    let paths = FileUpdaterPaths::new("/data/entry.file").unwrap();
    assert_eq!(paths.curr, "/data/entry.file");
    assert_eq!(paths.prev, "/data/entry.file.prev");
    assert_eq!(paths.temp, "/data/entry.file.temp");
    let paths = FileUpdaterPaths::new("relative").unwrap();
    assert_eq!(paths.prev, "relative.prev");
}

#[test]
fn updater_paths_need_a_file_name() {
    assert!(matches!(FileUpdaterPaths::new("/"), Err(FileUpdaterError::NoFileName)));
    assert!(matches!(FileUpdaterPaths::new("/data/.."), Err(FileUpdaterError::NoFileName)));
}

#[test]
fn updater_checks() {
    assert!(FileUpdaterPaths::check(FileState::File, FileState::Missing).is_ok());
    assert!(matches!(
        FileUpdaterPaths::check(FileState::Missing, FileState::Missing),
        Err(FileUpdaterError::CurrNotFound)
    ));
    assert!(matches!(
        FileUpdaterPaths::check(FileState::Other, FileState::Missing),
        Err(FileUpdaterError::CurrNotFile)
    ));
    assert!(matches!(
        FileUpdaterPaths::check(FileState::File, FileState::File),
        Err(FileUpdaterError::PrevExists)
    ));
    assert!(matches!(
        FileUpdaterPaths::check(FileState::File, FileState::Other),
        Err(FileUpdaterError::PrevNotFile)
    ));
}

#[test]
fn updater_open_errors() {
    let e = FileUpdaterError::from_open_error(Error::from(ErrorKind::AlreadyExists));
    assert!(matches!(e, FileUpdaterError::TempExists));
    let e = FileUpdaterError::from_open_error(Error::from(ErrorKind::PermissionDenied));
    assert!(matches!(e, FileUpdaterError::Io(_)));
}

#[test]
fn update_steps() {
    let paths = FileUpdaterPaths::new("/d/f").unwrap();
    let err = paths.after_prev_move(Err(Error::from(ErrorKind::NotFound))).unwrap_err();
    assert!(matches!(err, UpdateError::PrevMove { ref temp, .. } if temp == "/d/f.temp"));

    let paths = FileUpdaterPaths::new("/d/f").unwrap();
    let paths = paths.after_prev_move(Ok(())).unwrap();
    let updated = paths.after_temp_move(Ok(())).unwrap();
    assert_eq!(updated.curr(), "/d/f");
    assert_eq!(updated.prev(), "/d/f.prev");

    let paths = FileUpdaterPaths::new("/d/f").unwrap();
    let (paths, err) = paths.after_temp_move(Err(Error::from(ErrorKind::Other))).unwrap_err();
    let failed = paths.after_recovery(err, Ok(()));
    assert!(matches!(failed, UpdateError::TempMove { .. }));

    let paths = FileUpdaterPaths::new("/d/f").unwrap();
    let failed = paths.after_recovery(Error::from(ErrorKind::Other), Err(Error::from(ErrorKind::Other)));
    assert!(matches!(failed, UpdateError::TempMoveRecovery { ref prev, .. } if prev == "/d/f.prev"));
}

#[test]
fn removed_file_marks() {
    let marked = RemovedFile::plan(String::from("/j/files/3.file")).unwrap();
    assert_eq!(marked.curr(), "/j/files/3.file");
    assert_eq!(marked.mark(), "/j/files/3.file.mark");
    assert!(matches!(RemovedFile::plan(String::from("/")), Err(RemovedFileError::NoFileName)));
}

#[test]
fn removed_file_checks() {
    assert!(RemovedFile::check(true, false).is_ok());
    assert!(matches!(RemovedFile::check(false, false), Err(RemovedFileError::CurrNotFound)));
    assert!(matches!(RemovedFile::check(false, true), Err(RemovedFileError::CurrNotFound)));
    assert!(matches!(RemovedFile::check(true, true), Err(RemovedFileError::MarkExists)));
}

#[test]
fn removed_files_collects() {
    let mut files = RemovedFiles::new();
    assert!(files.is_empty());
    files.push(RemovedFile::plan(String::from("/a")).unwrap());
    files.push(RemovedFile::plan(String::from("/b")).unwrap());
    assert!(!files.is_empty());
    assert_eq!(files.len(), 2);
    let list = files.into_files();
    assert_eq!(list[0].mark(), "/a.mark");
    assert_eq!(list[1].mark(), "/b.mark");
}

#[test]
fn created_file_and_its_errors() {
    let created = CreatedFile::new(String::from("/x"));
    assert_eq!(created.path(), "/x");
    let e = FileCreaterError::from_open_error(Error::from(ErrorKind::AlreadyExists));
    assert!(matches!(e, FileCreaterError::AlreadyExists));
    let e = FileCreaterError::from_open_error(Error::from(ErrorKind::NotFound));
    assert!(matches!(e, FileCreaterError::Io(_)));
}
