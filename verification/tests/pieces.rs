// Errors, outcomes, the repository, the ignore file, copies, reports.

use dvs::add::AddedFile;
use dvs::audit::{create_audit_log, write_entry, Action, HashType, LogEntry};
use dvs::copy::{copy, copy_file_to_storage_directory, copy_step, set_file_permissions, set_group, CopyStage, CopyStep};
use dvs::error::{
    BatchError, BatchErrorType, FileError, FileErrorType, InitError, InitErrorType,
};
use dvs::exchange::{Reply, Request};
use dvs::file::{
    check_if_dir, check_meta_files_exist, get_absolute_path, get_file_size,
    get_relative_path_to_wd, get_user_helper, get_user_name, load, save, try_to_get_abs_path,
    try_to_get_rel_path, Metadata, PathProbe,
};
use dvs::get::RetrievedFile;
use dvs::ignore::{
    add_gitignore_entry, add_gitignore_entry_helper, ensure_project_exceptions, entry_present,
    make_entry_block, IgnoreProgress, ProjectProgress,
};
use dvs::info::{file_info, info, octal_string, FileFacts};
use dvs::outcome::{Outcome, Status};
use dvs::repo::{
    absolutize_result, check_file_in_git_repo, dir_in_git_repo, get_nearest_repo_dir,
    get_relative_path, is_git_repo, repo_markers,
};
use dvs::report::{added_row, retrieved_row, split_rows, status_row};
use dvs::status::FileStatus;

fn s(text: &str) -> String {
    String::from(text)
}

fn probe(path: &str, there: bool, sidecar_there: bool) -> PathProbe {
    let missing = Err(s("No such file or directory (os error 2)"));
    PathProbe {
        canonical: if there { Ok(s(path)) } else { missing.clone() },
        absolute: Ok(s(path)),
        sidecar_canonical: if sidecar_there { Ok(format!("{}.dvs", path)) } else { missing },
        sidecar_absolute: Ok(format!("{}.dvs", path)),
        is_dir: false,
    }
}

#[test]
fn file_error_kinds_have_their_texts() {
    let all = [
        (FileErrorType::RelativePathNotFound, "relative path not found"),
        (FileErrorType::FileNotInGitRepo, "file not in git repository"),
        (FileErrorType::AbsolutePathNotFound, "absolute path not found"),
        (FileErrorType::PathIsDirectory, "path is a directory"),
        (FileErrorType::HashNotFound, "file hash not found"),
        (FileErrorType::SizeNotFound, "file size not found"),
        (FileErrorType::OwnerNotFound, "file owner not found"),
        (FileErrorType::GroupNotSet, "linux primary group not set"),
        (FileErrorType::PermissionsNotSet, "linux file permissions not set"),
        (FileErrorType::MetadataNotSaved, "metadata file not saved"),
        (FileErrorType::MetadataNotLoaded, "metadata file not loaded"),
        (FileErrorType::GitIgnoreNotAdded, "gitignore entry not saved"),
        (FileErrorType::ProjectGitIgnoreNotAdded, "project gitignore entry not saved"),
        (FileErrorType::FileNotCopied, "file not copied"),
        (FileErrorType::MetadataNotFound, "metadata file not found"),
        (FileErrorType::FileNotAdded, "file not added"),
    ];
    for (kind, text) in all {
        assert_eq!(kind.file_error_to_string(), text);
    }
}

#[test]
fn batch_error_kinds_have_their_texts() {
    let all = [
        (BatchErrorType::AnyFilesDNE, "at least one inputted file not found"),
        (BatchErrorType::GitRepoNotFound, "git repository not found"),
        (BatchErrorType::ConfigNotFound, "configuration file not found (dvs.yaml)"),
        (BatchErrorType::GroupNotFound, "linux primary group not found"),
        (BatchErrorType::StorageDirNotFound, "storage directory not found"),
        (BatchErrorType::PermissionsInvalid, "linux file permissions invalid"),
        (BatchErrorType::AnyMetaFilesDNE, "metadata file not found for at least one file"),
    ];
    for (kind, text) in all {
        assert_eq!(kind.batch_error_to_string(), text);
    }
}

#[test]
fn init_error_kinds_have_their_texts() {
    let all = [
        (InitErrorType::ProjAlreadyInited, "project already initialized"),
        (InitErrorType::GitRepoNotFound, "git repository not found"),
        (InitErrorType::StorageDirNotADir, "storage directory input is not a directory"),
        (InitErrorType::StorageDirAbsPathNotFound, "storage directory absolute path not found"),
        (InitErrorType::ConfigNotCreated, "configuration file not created (dvs.yaml)"),
        (InitErrorType::GroupNotFound, "linux primary group not found"),
        (InitErrorType::StorageDirNotCreated, "storage directory not created"),
        (InitErrorType::PermissionsInvalid, "linux file permissions invalid"),
        (InitErrorType::DirEmptyNotChecked, "could not check if storage directory is empty"),
        (InitErrorType::StorageDirPermsNotSet, "storage directory permissions not set"),
    ];
    for (kind, text) in all {
        assert_eq!(kind.init_error_to_string(), text);
    }
}

#[test]
fn errors_print_their_detail() {
    let with = FileError {
        relative_path: None,
        absolute_path: None,
        error: FileErrorType::HashNotFound,
        error_message: Some(s("boom")),
        input: s("x"),
    };
    let mut without = with.clone();
    without.error_message = None;
    assert_eq!(with.message(), "boom");
    assert_eq!(without.message(), "NA");
    let batch = BatchError { error: BatchErrorType::ConfigNotFound, error_message: s("no file") };
    assert_eq!(batch.message(), "no file");
    let init = InitError { error: InitErrorType::GroupNotFound, error_message: s("ghosts") };
    assert_eq!(init.message(), "linux primary group not found: ghosts");
}

#[test]
fn outcomes_have_their_texts() {
    assert_eq!(Outcome::Copied.outcome_to_string(), "copied");
    assert_eq!(Outcome::Present.outcome_to_string(), "present");
    assert_eq!(Outcome::Error.outcome_to_string(), "error");
    assert_eq!(Status::Absent.outcome_to_string(), "absent");
    assert_eq!(Status::Unsynced.outcome_to_string(), "unsynced");
    assert_eq!(Status::Current.outcome_to_string(), "current");
    assert_eq!(Status::Error.outcome_to_string(), "error");
}

#[test]
fn relative_path_comes_from_pathdiff() {
    let root = s("/repo");
    assert_eq!(get_relative_path(&root, &Ok(s("/repo/data/a.bin"))), Ok(s("data/a.bin")));
    assert_eq!(get_relative_path(&root, &Ok(s("/other/a.bin"))), Ok(s("../other/a.bin")));
    assert_eq!(get_relative_path(&root, &Ok(s("/repo"))), Ok(s("")));
    assert_eq!(get_relative_path(&s("/repo/data"), &Ok(s("/repo/a.bin"))), Ok(s("../a.bin")));
    assert_eq!(
        get_relative_path(&root, &Ok(s("relative/a.bin"))),
        Err(s("relative path not found"))
    );
    assert_eq!(get_relative_path(&root, &Err(s("no cwd"))), Err(s("no cwd")));
}

#[test]
fn absolutized_path_must_be_text() {
    assert_eq!(absolutize_result(&s("a"), Ok(Some(s("/cwd/a")))), Ok(s("/cwd/a")));
    assert_eq!(
        absolutize_result(&s("a"), Ok(None)),
        Err(s("could not get absolute path for a"))
    );
    assert_eq!(absolutize_result(&s("a"), Err(s("no cwd"))), Err(s("no cwd")));
}

#[test]
fn nearest_repository_is_the_first_ancestor_with_a_marker() {
    let dir = s("sub");
    let canonical = Ok(s("/home/me/repo/data/sub"));
    let found = get_nearest_repo_dir(&dir, &canonical, &vec![false, false, true, false, true, false]);
    assert_eq!(found.unwrap(), "/home/me/repo");
    let here = get_nearest_repo_dir(&dir, &canonical, &vec![true]);
    assert_eq!(here.unwrap(), "/home/me/repo/data/sub");
    let at_root = get_nearest_repo_dir(&dir, &canonical, &vec![false, false, false, false, false, true]);
    assert_eq!(at_root.unwrap(), "/");
}

#[test]
fn no_repository_is_a_batch_error() {
    let text = "could not find git repo root; make sure you're in an active git repository: sub";
    let canonical = Ok(s("/home/me"));
    let none = get_nearest_repo_dir(&s("sub"), &canonical, &vec![false, false, false]).unwrap_err();
    assert_eq!(none.error, BatchErrorType::GitRepoNotFound);
    assert_eq!(none.error_message, text);
    let short = get_nearest_repo_dir(&s("sub"), &canonical, &Vec::new()).unwrap_err();
    assert_eq!(short.error_message, text);
    let beyond = get_nearest_repo_dir(&s("sub"), &canonical, &vec![false, false, false, true]);
    assert_eq!(beyond.unwrap_err().error_message, text);
    let unresolved = get_nearest_repo_dir(&s("sub"), &Err(s("gone")), &vec![true]).unwrap_err();
    assert_eq!(unresolved.error_message, text);
}

#[test]
fn repository_markers_follow_the_ancestors() {
    assert_eq!(is_git_repo(&s("/repo")), "/repo/.git");
    assert_eq!(
        repo_markers(&s("/home/me/repo")),
        vec![s("/home/me/repo/.git"), s("/home/me/.git"), s("/home/.git"), s("/.git")]
    );
}

#[test]
fn file_in_repository_is_checked_on_its_resolved_path() {
    let root = s("/repo");
    let ok = check_file_in_git_repo(&s("a.bin"), &Ok(s("/repo/a.bin")), &Ok(s("/repo/a.bin")), &root);
    assert_eq!(ok, Ok(()));
    let outside =
        check_file_in_git_repo(&s("../x"), &Ok(s("/x")), &Ok(s("/x")), &root).unwrap_err();
    assert_eq!(outside.error, FileErrorType::FileNotInGitRepo);
    assert_eq!(outside.error_message, Some(s("prefix not found")));
    assert_eq!(outside.relative_path, Some(s("../x")));
    assert_eq!(outside.absolute_path, Some(s("/x")));
    assert_eq!(outside.input, "../x");
    let gone = check_file_in_git_repo(&s("g"), &Err(s("gone")), &Ok(s("/repo/g")), &root).unwrap_err();
    assert_eq!(gone.error_message, Some(s("gone")));
    assert_eq!(gone.absolute_path, None);
    assert_eq!(gone.relative_path, Some(s("g")));
    let no_root = check_file_in_git_repo(&s("g"), &Ok(s("/g")), &Ok(s("/g")), &s("")).unwrap_err();
    assert_eq!(no_root.error_message, None);
}

#[test]
fn directory_in_repository() {
    assert!(dir_in_git_repo(&Ok(s("/repo/store")), &s("/repo")));
    assert!(!dir_in_git_repo(&Ok(s("/data/store")), &s("/repo")));
    assert!(!dir_in_git_repo(&Err(s("gone")), &s("/repo")));
}

#[test]
fn place_of_a_file_is_guessed_from_what_is_known() {
    let root = s("/repo");
    let both = probe("/repo/a.bin", true, true);
    assert_eq!(try_to_get_abs_path(&both), Some(s("/repo/a.bin")));
    assert_eq!(try_to_get_rel_path(&both, &root), Some(s("a.bin")));
    let mut linked = probe("/repo/a.bin", true, true);
    linked.sidecar_canonical = Ok(s("/real/a.bin.dvs"));
    assert_eq!(try_to_get_abs_path(&linked), Some(s("/real/a.bin")));
    let mut only_absolute = probe("/repo/a.bin", false, false);
    assert_eq!(try_to_get_abs_path(&only_absolute), Some(s("/repo/a.bin")));
    only_absolute.absolute = Err(s("no cwd"));
    assert_eq!(try_to_get_abs_path(&only_absolute), Some(s("/repo/a.bin")));
    only_absolute.sidecar_absolute = Err(s("no cwd"));
    assert_eq!(try_to_get_abs_path(&only_absolute), None);
    assert_eq!(try_to_get_rel_path(&only_absolute, &root), None);
}

#[test]
fn lookups_of_a_file_map_their_failures() {
    let root = s("/repo");
    let input = s("a.bin");
    let there = probe("/repo/a.bin", true, false);
    let gone = probe("/repo/a.bin", false, false);
    assert_eq!(get_absolute_path(&input, &there, &root), Ok(s("/repo/a.bin")));
    let e = get_absolute_path(&input, &gone, &root).unwrap_err();
    assert_eq!(e.error, FileErrorType::AbsolutePathNotFound);
    assert_eq!(e.error_message, Some(s("No such file or directory (os error 2)")));
    assert_eq!(e.absolute_path, Some(s("/repo/a.bin")));
    assert_eq!(e.relative_path, Some(s("a.bin")));
    assert_eq!(get_relative_path_to_wd(&input, &there, &root), Ok(s("a.bin")));
    let mut lost = probe("a.bin", true, false);
    lost.sidecar_absolute = Ok(s("a.bin.dvs"));
    let e = get_relative_path_to_wd(&input, &lost, &root).unwrap_err();
    assert_eq!(e.error, FileErrorType::RelativePathNotFound);
    assert_eq!(e.relative_path, None);
    assert_eq!(e.absolute_path, Some(s("a.bin")));
    assert_eq!(check_if_dir(&input, &there, &root), Ok(()));
    let mut dir = probe("/repo/data", true, false);
    dir.is_dir = true;
    assert_eq!(check_if_dir(&s("data"), &dir, &root).unwrap_err().error, FileErrorType::PathIsDirectory);
    assert_eq!(get_file_size(&input, &there, &root, Ok(12)), Ok(12));
    let e = get_file_size(&input, &there, &root, Err(s("gone"))).unwrap_err();
    assert_eq!((e.error, e.error_message), (FileErrorType::SizeNotFound, Some(s("gone"))));
    assert_eq!(get_user_helper(Ok(Some(s("alice")))), Ok(s("alice")));
    assert_eq!(get_user_helper(Ok(None)), Err(s("owner not found")));
    assert_eq!(get_user_helper(Err(s("no passwd"))), Err(s("no passwd")));
    assert_eq!(get_user_name(&input, &there, &root, Ok(Some(s("bob")))), Ok(s("bob")));
    let e = get_user_name(&input, &there, &root, Ok(None)).unwrap_err();
    assert_eq!((e.error, e.error_message), (FileErrorType::OwnerNotFound, Some(s("owner not found"))));
    let record = Metadata {
        blake3_checksum: s("ab"),
        file_size_bytes: 1,
        time_stamp: s("t"),
        message: s("m"),
        saved_by: s("u"),
    };
    assert_eq!(load(&input, &there, &root, Ok(record.clone())), Ok(record));
    let e = load(&input, &there, &root, Err(s("bad json"))).unwrap_err();
    assert_eq!((e.error, e.error_message), (FileErrorType::MetadataNotLoaded, Some(s("bad json"))));
    assert_eq!(save(&input, &there, &root, Ok(())), Ok(()));
    let e = save(&input, &there, &root, Err(s("disk full"))).unwrap_err();
    assert_eq!((e.error, e.error_message), (FileErrorType::MetadataNotSaved, Some(s("disk full"))));
}

#[test]
fn every_queued_path_needs_its_sidecar() {
    let paths = vec![s("a"), s("b"), s("c")];
    assert_eq!(check_meta_files_exist(&paths, &vec![true, true, true]), Ok(()));
    let e = check_meta_files_exist(&paths, &vec![true, false, false]).unwrap_err();
    assert_eq!(e.error, BatchErrorType::AnyMetaFilesDNE);
    assert_eq!(e.error_message, "missing for b");
    let short = check_meta_files_exist(&paths, &vec![true, true]).unwrap_err();
    assert_eq!(short.error_message, "missing for c");
    assert_eq!(check_meta_files_exist(&Vec::new(), &Vec::new()), Ok(()));
}

#[test]
fn ignore_entry_is_appended_where_it_is_missing() {
    let progress = add_gitignore_entry_helper(s("/repo/.gitignore"), s("a.bin"));
    let (work, request) = match progress {
        IgnoreProgress::Pending(work, request) => (work, request),
        IgnoreProgress::Done(reply) => panic!("done with {:?}", reply),
    };
    assert_eq!(request, Request::ReadIgnore { path: s("/repo/.gitignore") });
    let (work, request) = match work.step(Reply::Text(s("*.tmp\n/a.bin\n"))) {
        IgnoreProgress::Pending(work, request) => (work, request),
        IgnoreProgress::Done(reply) => panic!("done with {:?}", reply),
    };
    assert_eq!(
        request,
        Request::AppendIgnore {
            path: s("/repo/.gitignore"),
            text: s("\n\n# dvs entry\n/a.bin\n!/a.bin.dvs\n"),
        }
    );
    match work.step(Reply::Done) {
        IgnoreProgress::Done(reply) => assert_eq!(reply, Reply::Done),
        IgnoreProgress::Pending(_, request) => panic!("asks {:?}", request),
    }
}

#[test]
fn ignore_entry_is_left_where_it_is_there() {
    let text = s("x\n\n# dvs entry\n/a.bin\n!/a.bin.dvs\n");
    assert!(entry_present(&text, &s("a.bin")));
    assert!(!entry_present(&s("/a.bin\n"), &s("a.bin")));
    // the second rule holds the first as a part of it
    assert!(entry_present(&s("!/a.bin.dvs\n"), &s("a.bin")));
    assert!(!entry_present(&s("!/b.bin.dvs\n/a.bi"), &s("a.bin")));
    assert!(!entry_present(&s(""), &s("a.bin")));
    assert_eq!(make_entry_block(&s("d/a.bin")), "\n\n# dvs entry\n/d/a.bin\n!/d/a.bin.dvs\n");
    let progress = add_gitignore_entry_helper(s("/repo/.gitignore"), s("a.bin"));
    match progress {
        IgnoreProgress::Pending(work, _) => match work.step(Reply::Text(text)) {
            IgnoreProgress::Done(reply) => assert_eq!(reply, Reply::Done),
            IgnoreProgress::Pending(_, request) => panic!("asks {:?}", request),
        },
        IgnoreProgress::Done(reply) => panic!("done with {:?}", reply),
    }
}

#[test]
fn ignore_failures_are_handed_back() {
    let progress = add_gitignore_entry_helper(s("/repo/.gitignore"), s("a.bin"));
    match progress {
        IgnoreProgress::Pending(work, _) => match work.step(Reply::Failed(s("denied"))) {
            IgnoreProgress::Done(reply) => assert_eq!(reply, Reply::Failed(s("denied"))),
            IgnoreProgress::Pending(_, request) => panic!("asks {:?}", request),
        },
        IgnoreProgress::Done(reply) => panic!("done with {:?}", reply),
    }
}

#[test]
fn ignore_request_names_the_file_beside_the_tracked_file() {
    let request = add_gitignore_entry(&s("data/a.bin"), &s("/repo/data/a.bin"), &Ok(s("/repo/data/a.bin")));
    assert_eq!(
        request,
        Ok(Request::Ignore { path: s("/repo/data/.gitignore"), entry: s("a.bin") })
    );
    let no_parent = add_gitignore_entry(&s("a.bin"), &s("/"), &Ok(s("/")));
    assert_eq!(
        no_parent,
        Err(s("could not create entry for /.gitignore: could not get parent of /: "))
    );
    let bare = add_gitignore_entry(&s(""), &s("/repo/a"), &Err(s("no cwd")));
    assert_eq!(bare, Err(s("could not create entry for .gitignore: no cwd")));
}

#[test]
fn copy_goes_through_its_three_requests() {
    let from = s("a.bin");
    let to = s("/store/ab/cd");
    let group = Some(s("staff"));
    assert_eq!(
        copy_file_to_storage_directory(&from, &to),
        CopyStep::Ask(CopyStage::Copying, Request::Copy { from: from.clone(), to: to.clone() })
    );
    assert_eq!(
        copy_step(CopyStage::Copying, &Reply::Done, &to, &0o664, &group),
        CopyStep::Ask(CopyStage::SettingMode, Request::SetPermissions { path: to.clone(), mode: 0o664 })
    );
    assert_eq!(
        copy_step(CopyStage::SettingMode, &Reply::Done, &to, &0o664, &group),
        CopyStep::Ask(CopyStage::SettingGroup, Request::SetGroup { path: to.clone(), group: s("staff") })
    );
    assert_eq!(copy_step(CopyStage::SettingGroup, &Reply::Done, &to, &0o664, &group), CopyStep::Done);
    assert_eq!(copy_step(CopyStage::SettingMode, &Reply::Done, &to, &0o664, &None), CopyStep::Done);
    assert_eq!(set_file_permissions(&0o600, &to), CopyStep::Ask(CopyStage::SettingMode, Request::SetPermissions { path: to.clone(), mode: 0o600 }));
    assert_eq!(set_group(&None, &to), CopyStep::Done);
}

#[test]
fn copy_refuses_dot_paths() {
    let text = Some(s("copy failed: \"..\" and \".\" paths not parsable"));
    assert_eq!(copy(&s("."), &s("/x")), CopyStep::Failed(FileErrorType::FileNotCopied, text.clone()));
    assert_eq!(copy(&s(".."), &s("/x")), CopyStep::Failed(FileErrorType::FileNotCopied, text));
    assert_eq!(
        copy(&s("..."), &s("/x")),
        CopyStep::Ask(CopyStage::Copying, Request::Copy { from: s("..."), to: s("/x") })
    );
}

#[test]
fn copy_failures_have_their_kinds() {
    let to = s("/store/ab/cd");
    let group = Some(s("staff"));
    let denied = Reply::Failed(s("denied"));
    assert_eq!(
        copy_step(CopyStage::Copying, &denied, &to, &0o664, &group),
        CopyStep::Failed(FileErrorType::FileNotCopied, Some(s("denied")))
    );
    assert_eq!(
        copy_step(CopyStage::SettingMode, &denied, &to, &0o664, &group),
        CopyStep::Failed(FileErrorType::PermissionsNotSet, Some(s("436 denied")))
    );
    assert_eq!(
        copy_step(CopyStage::SettingGroup, &denied, &to, &0o664, &group),
        CopyStep::Failed(FileErrorType::GroupNotSet, Some(s("staff denied")))
    );
    assert_eq!(
        copy_step(CopyStage::Copying, &Reply::Flag(true), &to, &0o664, &group),
        CopyStep::Failed(FileErrorType::FileNotCopied, None)
    );
}

#[test]
fn info_formats_the_mode_as_octal() {
    assert_eq!(octal_string(0o100664), "100664");
    assert_eq!(octal_string(0), "0");
    assert_eq!(octal_string(8), "10");
    assert_eq!(octal_string(u32::MAX), "37777777777");
    let facts = Ok(FileFacts {
        user_id: 1000,
        user_name: Ok(Some(s("alice"))),
        group_id: 50,
        group_name: Ok(None),
        modification_time: Ok(1700000000),
        creation_time: Ok(1600000000),
        mode: 0o100644,
    });
    let report = file_info(&s("a.bin"), &facts).unwrap();
    assert_eq!(report.path, "a.bin");
    assert_eq!(report.user_id, 1000);
    assert_eq!(report.user_name, "alice");
    assert_eq!(report.group_id, 50);
    assert_eq!(report.group_name, "");
    assert_eq!(report.modification_time, 1700000000);
    assert_eq!(report.creation_time, 1600000000);
    assert_eq!(report.permissions, "100644");
}

#[test]
fn info_reports_the_first_thing_not_known() {
    let facts = |user: Result<Option<String>, String>, created: Result<u64, String>| {
        Ok(FileFacts {
            user_id: 1,
            user_name: user,
            group_id: 2,
            group_name: Err(s("no group")),
            modification_time: Err(s("no mtime")),
            creation_time: created,
            mode: 0,
        })
    };
    assert_eq!(file_info(&s("a"), &Err(s("gone"))), Err(s("gone")));
    assert_eq!(file_info(&s("a"), &facts(Ok(None), Ok(1))), Err(s("owner not found")));
    assert_eq!(file_info(&s("a"), &facts(Err(s("no user")), Ok(1))), Err(s("no user")));
    assert_eq!(file_info(&s("a"), &facts(Ok(Some(s("u"))), Ok(1))), Err(s("no group")));
    let reports = info(&vec![s("a"), s("b")], &vec![Err(s("gone"))]);
    assert_eq!(reports, vec![Err(s("gone")), Err(s(""))]);
}

#[test]
fn audit_log_has_seven_columns() {
    assert_eq!(
        create_audit_log(),
        vec![s("timestamp"), s("action"), s("path"), s("hash"), s("hash_type"), s("uid"), s("username")]
    );
    let entry = write_entry(
        "/store/audit.log",
        "",
        HashType::NA,
        Action::Init,
        Some((1000, s("alice"))),
        s("2024-05-01T10:00:00Z"),
    )
    .unwrap();
    assert_eq!(
        entry,
        LogEntry {
            timestamp: s("2024-05-01T10:00:00Z"),
            action: Action::Init,
            path: s("/store/audit.log"),
            hash: s(""),
            hash_type: HashType::NA,
            uid: 1000,
            username: s("alice"),
        }
    );
    assert_eq!(
        entry.record(),
        vec![s("2024-05-01T10:00:00Z"), s("Init"), s("/store/audit.log"), s(""), s("NA"), s("1000"), s("alice")]
    );
    assert_eq!(Action::Add.name(), "Add");
    assert_eq!(Action::Remove.name(), "Remove");
    assert_eq!(HashType::Blake3.name(), "Blake3");
    assert_eq!(
        write_entry("p", "h", HashType::Blake3, Action::Add, None, s("t")),
        Err(s("Could not get user info"))
    );
}

#[test]
fn report_has_a_row_for_every_result() {
    let added: Result<AddedFile, FileError> = Ok(AddedFile {
        relative_path: s("a.bin"),
        outcome: Outcome::Copied,
        file_size_bytes: 3,
        blake3_checksum: s("abc"),
        absolute_path: s("/repo/a.bin"),
    });
    let row = added_row(&added);
    assert_eq!(row.relative_path, Some(s("a.bin")));
    assert_eq!(row.outcome, "copied");
    assert_eq!(row.size, Some(3));
    assert_eq!(row.blake3_checksum, Some(s("abc")));
    assert_eq!(row.absolute_path, Some(s("/repo/a.bin")));
    assert_eq!((row.input, row.error, row.error_message), (None, None, None));

    let failed: Result<RetrievedFile, FileError> = Err(FileError {
        relative_path: Some(s("b.bin")),
        absolute_path: None,
        error: FileErrorType::FileNotCopied,
        error_message: Some(s("denied")),
        input: s("b.bin"),
    });
    let row = retrieved_row(&failed);
    assert_eq!(row.outcome, "error");
    assert_eq!(row.input, Some(s("b.bin")));
    assert_eq!(row.error, Some(s("file not copied")));
    assert_eq!(row.error_message, Some(s("denied")));
    assert_eq!(row.relative_path, Some(s("b.bin")));
    assert_eq!((row.size, row.blake3_checksum, row.absolute_path), (None, None, None));

    let state: Result<FileStatus, FileError> = Ok(FileStatus {
        relative_path: Some(s("c.bin")),
        status: Status::Unsynced,
        size: 9,
        add_time: s("t"),
        saved_by: s("u"),
        message: s("m"),
        absolute_path: None,
        blake3_checksum: s("h"),
    });
    let row = status_row(&state);
    assert_eq!(row.outcome, "unsynced");
    assert_eq!(row.add_time, Some(s("t")));
    assert_eq!(row.saved_by, Some(s("u")));
    assert_eq!(row.message, Some(s("m")));
    assert_eq!(row.size, Some(9));
    assert_eq!(row.absolute_path, None);
}

#[test]
fn report_is_parted_in_order() {
    let ok = |name: &str| -> Result<AddedFile, FileError> {
        Ok(AddedFile {
            relative_path: s(name),
            outcome: Outcome::Present,
            file_size_bytes: 0,
            blake3_checksum: s("h"),
            absolute_path: s(name),
        })
    };
    let bad = |name: &str| -> Result<AddedFile, FileError> {
        Err(FileError {
            relative_path: None,
            absolute_path: None,
            error: FileErrorType::PathIsDirectory,
            error_message: None,
            input: s(name),
        })
    };
    let rows = vec![
        added_row(&ok("a")),
        added_row(&bad("b")),
        added_row(&ok("c")),
        added_row(&bad("d")),
        added_row(&bad("e")),
    ];
    let (successes, failures) = split_rows(&rows);
    let names: Vec<Option<String>> = successes.iter().map(|r| r.relative_path.clone()).collect();
    assert_eq!(names, vec![Some(s("a")), Some(s("c"))]);
    let inputs: Vec<Option<String>> = failures.iter().map(|r| r.input.clone()).collect();
    assert_eq!(inputs, vec![Some(s("b")), Some(s("d")), Some(s("e"))]);
    let (none, nothing) = split_rows(&Vec::new());
    assert!(none.is_empty() && nothing.is_empty());
}

#[test]
fn project_exceptions_are_appended_once() {
    let (work, request) = match ensure_project_exceptions(&s("/repo")) {
        ProjectProgress::Pending(work, request) => (work, request),
        ProjectProgress::Done(result) => panic!("done with {:?}", result),
    };
    assert_eq!(request, Request::ReadProjectIgnore { path: s("/repo/.gitignore") });
    let (work, request) = match work.step(Reply::Text(s("*\n"))) {
        ProjectProgress::Pending(work, request) => (work, request),
        ProjectProgress::Done(result) => panic!("done with {:?}", result),
    };
    assert_eq!(
        request,
        Request::AppendIgnore {
            path: s("/repo/.gitignore"),
            text: s("\n\n# dvs exceptions\n!.gitignore\n!*.dvs\n"),
        }
    );
    assert_eq!(work.step(Reply::Done), ProjectProgress::Done(Ok(())));
    let again = match ensure_project_exceptions(&s("/repo")) {
        ProjectProgress::Pending(work, _) => {
            work.step(Reply::Text(s("*\n\n\n# dvs exceptions\n!.gitignore\n!*.dvs\n")))
        }
        ProjectProgress::Done(result) => panic!("done with {:?}", result),
    };
    assert_eq!(again, ProjectProgress::Done(Ok(())));
}

#[test]
fn project_exceptions_need_the_ignore_file() {
    let failed = match ensure_project_exceptions(&s("/repo")) {
        ProjectProgress::Pending(work, _) => {
            work.step(Reply::Failed(s("No such file or directory (os error 2)")))
        }
        ProjectProgress::Done(result) => panic!("done with {:?}", result),
    };
    match failed {
        ProjectProgress::Done(Err(e)) => {
            assert_eq!(e.error, FileErrorType::ProjectGitIgnoreNotAdded);
            assert_eq!(e.error.file_error_to_string(), "project gitignore entry not saved");
            assert_eq!(
                e.error_message,
                Some(s(
                    "could not create entry for /repo/.gitignore: No such file or directory (os error 2)"
                ))
            );
            assert_eq!(e.input, "/repo");
        }
        other => panic!("expected an error, got {:?}", other),
    }
}
