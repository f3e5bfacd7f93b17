// The configuration and the settings of a batch.

use dvs::config::{config_path, get_group, get_mode_u32, get_storage_dir, read, settle, Config};
use dvs::error::BatchErrorType;

fn s(text: &str) -> String {
    String::from(text)
}

fn config(permissions: i32, group: &str) -> Config {
    Config { storage_dir: s("/store"), permissions, group: s(group) }
}

#[test]
fn permissions_are_read_as_octal() {
    assert_eq!(get_mode_u32(&664).unwrap(), 0o664);
    assert_eq!(get_mode_u32(&777).unwrap(), 0o777);
    assert_eq!(get_mode_u32(&0).unwrap(), 0);
    assert_eq!(get_mode_u32(&7).unwrap(), 7);
    assert_eq!(get_mode_u32(&10).unwrap(), 8);
    assert_eq!(get_mode_u32(&1777).unwrap(), 0o1777);
    assert_eq!(get_mode_u32(&1777777777).unwrap(), 0o1777777777);
}

#[test]
fn permissions_agree_with_std() {
    for p in [0, 1, 8, 9, 17, 18, 644, 664, 680, 700, 888, 1234567, 2147483647, -1, -664] {
        let expected = u32::from_str_radix(&p.to_string(), 8).ok();
        assert_eq!(get_mode_u32(&p).ok(), expected);
    }
}

#[test]
fn permissions_with_a_high_digit_are_refused() {
    let e = get_mode_u32(&888).unwrap_err();
    assert_eq!(e.error, BatchErrorType::PermissionsInvalid);
    assert_eq!(e.error_message, "change permissions: 888 in dvs.yaml, invalid digit found in string");
    assert_eq!(get_mode_u32(&669).unwrap_err().error, BatchErrorType::PermissionsInvalid);
    assert_eq!(get_mode_u32(&8).unwrap_err().error, BatchErrorType::PermissionsInvalid);
}

#[test]
fn negative_permissions_are_refused() {
    let e = get_mode_u32(&-664).unwrap_err();
    assert_eq!(e.error, BatchErrorType::PermissionsInvalid);
    assert_eq!(e.error_message, "change permissions: -664 in dvs.yaml, invalid digit found in string");
    assert_eq!(
        get_mode_u32(&i32::MIN).unwrap_err().error_message,
        "change permissions: -2147483648 in dvs.yaml, invalid digit found in string"
    );
}

#[test]
fn empty_group_means_none() {
    assert_eq!(get_group(&s(""), None).unwrap(), None);
    assert_eq!(get_group(&s(""), Some(s("not looked at"))).unwrap(), None);
}

#[test]
fn known_group_is_kept() {
    assert_eq!(get_group(&s("staff"), None).unwrap(), Some(s("staff")));
}

#[test]
fn unknown_group_is_refused() {
    let e = get_group(&s("nobody-here"), Some(s("group not found"))).unwrap_err();
    assert_eq!(e.error, BatchErrorType::GroupNotFound);
    assert_eq!(e.error_message, "change group: nobody-here in dvs.yaml, group not found");
}

#[test]
fn storage_dir_must_resolve() {
    assert_eq!(get_storage_dir(&s("store"), Ok(s("/abs/store"))).unwrap(), "/abs/store");
    let e = get_storage_dir(&s("store"), Err(s("No such file or directory (os error 2)"))).unwrap_err();
    assert_eq!(e.error, BatchErrorType::StorageDirNotFound);
    assert_eq!(
        e.error_message,
        "change storage_dir: store in dvs.yaml, No such file or directory (os error 2)"
    );
}

#[test]
fn unreadable_configuration_is_config_not_found() {
    let e = read(Err(s("No such file or directory (os error 2)"))).unwrap_err();
    assert_eq!(e.error, BatchErrorType::ConfigNotFound);
    assert_eq!(
        e.error_message,
        "could not load configuration file, i.e. no dvs.yaml in directory; be sure to initiate dvs: No such file or directory (os error 2)"
    );
    assert_eq!(read(Ok(config(664, ""))).unwrap(), config(664, ""));
}

#[test]
fn configuration_lies_at_the_root() {
    assert_eq!(config_path(&s("/repo")), "/repo/dvs.yaml");
}

#[test]
fn settings_are_made_from_a_good_configuration() {
    let made = settle(&s("/repo"), &config(640, "staff"), None, Ok(s("/store"))).unwrap();
    assert_eq!(made.git_dir, "/repo");
    assert_eq!(made.storage_dir, "/store");
    assert_eq!(made.permissions, 0o640);
    assert_eq!(made.group, Some(s("staff")));
}

#[test]
fn settings_report_the_group_before_the_store_and_the_store_before_the_permissions() {
    let all_bad = settle(&s("/repo"), &config(999, "ghosts"), Some(s("no group")), Err(s("gone")));
    assert_eq!(all_bad.unwrap_err().error, BatchErrorType::GroupNotFound);
    let two_bad = settle(&s("/repo"), &config(999, ""), None, Err(s("gone")));
    assert_eq!(two_bad.unwrap_err().error, BatchErrorType::StorageDirNotFound);
    let one_bad = settle(&s("/repo"), &config(999, ""), None, Ok(s("/store")));
    assert_eq!(one_bad.unwrap_err().error, BatchErrorType::PermissionsInvalid);
}
