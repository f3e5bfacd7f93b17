// Initialising a project.

use dvs::config::Config;
use dvs::error::InitErrorType;
use dvs::exchange::{Reply, Request};
use dvs::init::{
    dvs_init, Init, InitEvent, InitProgress, InitRun, DEFAULT_FILE_PERMISSIONS,
    STORAGE_DIR_PERMISSIONS,
};

fn s(text: &str) -> String {
    String::from(text)
}

fn ask(progress: InitProgress) -> (InitRun, Request) {
    match progress {
        InitProgress::Pending(run, request) => (run, request),
        InitProgress::Done(result, _) => panic!("done with {:?}", result),
    }
}

fn begin(permissions: Option<i32>, group: Option<&str>) -> InitRun {
    let (run, request) = ask(dvs_init(&s("store"), permissions, group.map(s), &s(".")));
    assert_eq!(request, Request::FindRepo { dir: s(".") });
    run
}

fn to_config(permissions: Option<i32>) -> InitRun {
    let run = begin(permissions, None);
    let (run, request) = ask(run.step(Reply::Text(s("/repo"))));
    assert_eq!(request, Request::Absolutize { path: s("store") });
    let (run, request) = ask(run.step(Reply::Text(s("/data/store"))));
    assert_eq!(request, Request::ReadConfig { path: s("/repo/dvs.yaml") });
    run
}

#[test]
fn init_creates_the_store_and_writes_the_configuration() {
    let run = begin(Some(640), Some("staff"));
    let (run, request) = ask(run.step(Reply::Text(s("/repo"))));
    assert_eq!(request, Request::LookupGroup { name: s("staff") });
    let (run, request) = ask(run.step(Reply::Done));
    assert_eq!(request, Request::Absolutize { path: s("store") });
    let (run, request) = ask(run.step(Reply::Text(s("/data/store"))));
    assert_eq!(request, Request::ReadConfig { path: s("/repo/dvs.yaml") });
    let (run, request) = ask(run.step(Reply::Failed(s("No such file or directory"))));
    assert_eq!(request, Request::Exists { path: s("/data/store") });
    let (run, request) = ask(run.step(Reply::Flag(false)));
    assert_eq!(request, Request::MakeDirectory { path: s("/data/store") });
    let (run, request) = ask(run.step(Reply::Done));
    assert_eq!(request, Request::SetPermissions { path: s("/data/store"), mode: 0o770 });
    assert_eq!(STORAGE_DIR_PERMISSIONS, 0o770);
    let (run, request) = ask(run.step(Reply::Done));
    assert_eq!(
        request,
        Request::StartLog {
            path: s("/data/store/audit.log"),
            mode: 0o640,
            log_group: Some(s("staff")),
        }
    );
    let (run, request) = ask(run.step(Reply::Failed(s("whatever"))));
    assert_eq!(request, Request::Resolve { path: s("/data/store") });
    let (run, request) = ask(run.step(Reply::Text(s("/data/store"))));
    assert_eq!(
        request,
        Request::WriteConfig {
            path: s("/repo/dvs.yaml"),
            config: Config { storage_dir: s("/data/store"), permissions: 640, group: s("staff") },
        }
    );
    match run.step(Reply::Done) {
        InitProgress::Done(result, events) => {
            assert_eq!(
                result.unwrap(),
                Init { storage_directory: s("/data/store"), group: s("staff"), permissions: 0o640 }
            );
            assert_eq!(events, vec![InitEvent::Creating, InitEvent::Initialized]);
        }
        InitProgress::Pending(_, request) => panic!("asks {:?}", request),
    }
}

#[test]
fn init_uses_the_default_permissions() {
    let run = to_config(None);
    assert_eq!(run.mode, DEFAULT_FILE_PERMISSIONS);
    assert_eq!(DEFAULT_FILE_PERMISSIONS, 0o664);
    let (run, _) = ask(run.step(Reply::Failed(s("none"))));
    let (run, _) = ask(run.step(Reply::Flag(false)));
    let (run, _) = ask(run.step(Reply::Done));
    let (run, _) = ask(run.step(Reply::Done));
    let (run, _) = ask(run.step(Reply::Done));
    let (_, request) = ask(run.step(Reply::Failed(s("not resolved"))));
    assert_eq!(
        request,
        Request::WriteConfig {
            path: s("/repo/dvs.yaml"),
            config: Config { storage_dir: s("/data/store"), permissions: 664, group: s("") },
        }
    );
}

#[test]
fn init_of_an_existing_store_looks_into_it() {
    let run = to_config(Some(664));
    let (run, _) = ask(run.step(Reply::Done));
    let (run, request) = ask(run.step(Reply::Flag(true)));
    assert_eq!(request, Request::IsDirectory { path: s("/data/store") });
    let (run, request) = ask(run.step(Reply::Flag(true)));
    assert_eq!(request, Request::IsEmpty { path: s("/data/store") });
    let (run, request) = ask(run.step(Reply::Flag(false)));
    assert_eq!(request, Request::Resolve { path: s("/data/store") });
    let (run, _) = ask(run.step(Reply::Text(s("/data/store"))));
    match run.step(Reply::Done) {
        InitProgress::Done(result, events) => {
            assert!(result.is_ok());
            assert_eq!(
                events,
                vec![InitEvent::AlreadyExists, InitEvent::NotEmpty, InitEvent::Initialized]
            );
        }
        InitProgress::Pending(_, request) => panic!("asks {:?}", request),
    }
}

#[test]
fn init_warns_of_a_store_in_the_repository() {
    let run = begin(None, None);
    let (run, _) = ask(run.step(Reply::Text(s("/repo"))));
    let (run, _) = ask(run.step(Reply::Text(s("/repo/store.d"))));
    let (run, _) = ask(run.step(Reply::Failed(s("none"))));
    let (run, _) = ask(run.step(Reply::Flag(true)));
    let (run, _) = ask(run.step(Reply::Flag(true)));
    let (run, _) = ask(run.step(Reply::Flag(true)));
    let (run, _) = ask(run.step(Reply::Text(s("/repo/store.d"))));
    match run.step(Reply::Done) {
        InitProgress::Done(_, events) => assert_eq!(
            events,
            vec![
                InitEvent::LooksLikeFile,
                InitEvent::AlreadyExists,
                InitEvent::InsideRepository,
                InitEvent::Initialized
            ]
        ),
        InitProgress::Pending(_, request) => panic!("asks {:?}", request),
    }
}

fn expect_error(progress: InitProgress, kind: InitErrorType, text: &str) {
    match progress {
        InitProgress::Done(Err(e), _) => {
            assert_eq!(e.error, kind);
            assert_eq!(e.error_message, text);
        }
        other => panic!("expected an error, got {:?}", other),
    }
}

#[test]
fn init_outside_a_repository_fails() {
    let run = begin(None, None);
    expect_error(
        run.step(Reply::Failed(s("could not find git repo root"))),
        InitErrorType::GitRepoNotFound,
        "make sure you're in an active git repository. could not find git repo root",
    );
}

#[test]
fn init_with_unknown_group_fails() {
    let run = begin(None, Some("ghosts"));
    let (run, _) = ask(run.step(Reply::Text(s("/repo"))));
    expect_error(
        run.step(Reply::Failed(s("group not found"))),
        InitErrorType::GroupNotFound,
        "could not find group ghosts. group not found",
    );
}

#[test]
fn init_with_bad_permissions_fails() {
    let run = begin(Some(689), None);
    expect_error(
        run.step(Reply::Text(s("/repo"))),
        InitErrorType::PermissionsInvalid,
        "linux permissions: 689 not valid. invalid digit found in string",
    );
    let run = begin(Some(-1), None);
    expect_error(
        run.step(Reply::Text(s("/repo"))),
        InitErrorType::PermissionsInvalid,
        "linux permissions: -1 not valid. invalid digit found in string",
    );
}

#[test]
fn init_without_absolute_path_fails() {
    let run = begin(None, None);
    let (run, _) = ask(run.step(Reply::Text(s("/repo"))));
    expect_error(
        run.step(Reply::Failed(s("no working directory"))),
        InitErrorType::StorageDirAbsPathNotFound,
        "no working directory",
    );
}

#[test]
fn init_again_with_the_same_settings_changes_nothing() {
    let run = to_config(Some(664));
    let existing = Config { storage_dir: s("/data/store"), permissions: 664, group: s("") };
    match run.step(Reply::Settings(existing)) {
        InitProgress::Done(result, events) => {
            assert_eq!(
                result.unwrap(),
                Init { storage_directory: s("/data/store"), group: s(""), permissions: 0o664 }
            );
            assert!(events.is_empty());
        }
        InitProgress::Pending(_, request) => panic!("asks {:?}", request),
    }
}

#[test]
fn init_again_with_other_settings_fails() {
    let text = "dvs configuration settings already set in project; change manually by updating dvs.yaml in project root: /repo/dvs.yaml";
    let other_dir = Config { storage_dir: s("/other"), permissions: 664, group: s("") };
    expect_error(to_config(Some(664)).step(Reply::Settings(other_dir)), InitErrorType::ProjAlreadyInited, text);
    let other_mode = Config { storage_dir: s("/data/store"), permissions: 660, group: s("") };
    expect_error(to_config(Some(664)).step(Reply::Settings(other_mode)), InitErrorType::ProjAlreadyInited, text);
    let other_group = Config { storage_dir: s("/data/store"), permissions: 664, group: s("staff") };
    expect_error(to_config(None).step(Reply::Settings(other_group)), InitErrorType::ProjAlreadyInited, text);
}

#[test]
fn init_fails_where_the_store_cannot_be_made() {
    let run = to_config(None);
    let (run, _) = ask(run.step(Reply::Done));
    let (run, _) = ask(run.step(Reply::Flag(false)));
    expect_error(
        run.step(Reply::Failed(s("Permission denied"))),
        InitErrorType::StorageDirNotCreated,
        "store not created. Permission denied",
    );
    let run = to_config(None);
    let (run, _) = ask(run.step(Reply::Done));
    let (run, _) = ask(run.step(Reply::Flag(false)));
    let (run, _) = ask(run.step(Reply::Done));
    expect_error(
        run.step(Reply::Failed(s("Operation not permitted"))),
        InitErrorType::StorageDirPermsNotSet,
        "Operation not permitted",
    );
}

#[test]
fn init_fails_where_the_store_is_a_file() {
    let run = to_config(None);
    let (run, _) = ask(run.step(Reply::Done));
    let (run, _) = ask(run.step(Reply::Flag(true)));
    expect_error(run.step(Reply::Flag(false)), InitErrorType::StorageDirNotADir, "file path inputted");
}

#[test]
fn init_fails_where_the_store_cannot_be_listed() {
    let run = to_config(None);
    let (run, _) = ask(run.step(Reply::Done));
    let (run, _) = ask(run.step(Reply::Flag(true)));
    let (run, _) = ask(run.step(Reply::Flag(true)));
    expect_error(
        run.step(Reply::Failed(s("Permission denied"))),
        InitErrorType::DirEmptyNotChecked,
        "Permission denied",
    );
}

#[test]
fn init_fails_where_the_configuration_cannot_be_written() {
    let run = to_config(None);
    let (run, _) = ask(run.step(Reply::Done));
    let (run, _) = ask(run.step(Reply::Flag(true)));
    let (run, _) = ask(run.step(Reply::Flag(true)));
    let (run, _) = ask(run.step(Reply::Flag(true)));
    let (run, _) = ask(run.step(Reply::Done));
    expect_error(
        run.step(Reply::Failed(s("Read-only file system"))),
        InitErrorType::ConfigNotCreated,
        "Read-only file system",
    );
}
