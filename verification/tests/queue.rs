// The queue of a batch.

use dvs::error::BatchErrorType;
use dvs::parse::{
    check_metafiles_for_explicit_paths, get_all_meta_files, is_explicit_path,
    parse_files_from_globs_add, parse_files_from_globs_get, parse_files_from_globs_status,
    wants_whole_repository, GlobItem, GlobToken,
};

fn s(text: &str) -> String {
    String::from(text)
}

fn found(path: &str, has_sidecar: bool) -> GlobItem {
    GlobItem::Found { path: s(path), has_sidecar }
}

fn token(entry: &str, on_disk: bool, has_sidecar: bool, expansion: Option<Vec<GlobItem>>) -> GlobToken {
    GlobToken { entry: s(entry), on_disk, has_sidecar, expansion }
}

fn file(entry: &str, has_sidecar: bool) -> GlobToken {
    token(entry, true, has_sidecar, Some(vec![found(entry, has_sidecar)]))
}

fn absent(entry: &str, has_sidecar: bool) -> GlobToken {
    token(entry, false, has_sidecar, Some(vec![]))
}

#[test]
fn add_queues_every_match() {
    let tokens = vec![token(
        "*.bin",
        false,
        false,
        Some(vec![found("a.bin", false), found("b.bin", true)]),
    )];
    assert_eq!(parse_files_from_globs_add(&tokens), vec![s("a.bin"), s("b.bin")]);
}

#[test]
fn add_queues_a_match_under_its_tracked_path() {
    let tokens = vec![token(
        "a*",
        false,
        false,
        Some(vec![found("a.bin", true), found("a.bin.dvs", false), found("a.txt.dvs", false)]),
    )];
    assert_eq!(parse_files_from_globs_add(&tokens), vec![s("a.bin"), s("a.txt")]);
}

#[test]
fn add_leaves_out_the_ignore_file() {
    let tokens = vec![token(
        "data/*",
        false,
        false,
        Some(vec![found("data/.gitignore", false), found("data/a.bin", false)]),
    )];
    assert_eq!(parse_files_from_globs_add(&tokens), vec![s("data/a.bin")]);
    let only = vec![token(".git*", false, false, Some(vec![found(".gitignore", false)]))];
    assert!(parse_files_from_globs_add(&only).is_empty());
}

#[test]
fn token_without_match_is_queued_as_it_is() {
    let tokens = vec![absent("not-yet.bin", false), absent("later.dvs", false)];
    assert_eq!(parse_files_from_globs_add(&tokens), vec![s("not-yet.bin"), s("later.dvs")]);
}

#[test]
fn refused_pattern_is_queued_as_it_is() {
    let tokens = vec![token("a[.bin", false, false, None)];
    assert_eq!(parse_files_from_globs_add(&tokens), vec![s("a[.bin")]);
}

#[test]
fn unreadable_place_queues_the_token() {
    let tokens = vec![token(
        "data/*",
        false,
        false,
        Some(vec![found("data/a.bin", false), GlobItem::Unreadable, GlobItem::Unreadable]),
    )];
    assert_eq!(parse_files_from_globs_add(&tokens), vec![s("data/a.bin"), s("data/*")]);
}

#[test]
fn no_path_is_queued_twice() {
    let tokens = vec![
        file("a.bin", false),
        token("*.bin", false, false, Some(vec![found("a.bin", false), found("b.bin", false)])),
        file("a.bin", false),
        absent("c.bin", false),
        absent("c.bin", false),
    ];
    assert_eq!(parse_files_from_globs_add(&tokens), vec![s("a.bin"), s("b.bin"), s("c.bin")]);
}

#[test]
fn empty_input_gives_an_empty_queue() {
    assert!(parse_files_from_globs_add(&Vec::new()).is_empty());
    assert!(parse_files_from_globs_get(&Vec::new()).unwrap().is_empty());
}

#[test]
fn explicit_path_is_told_from_a_pattern() {
    assert!(is_explicit_path(&file("a.bin", false)));
    assert!(is_explicit_path(&token("data", true, false, Some(vec![found("data", false)]))));
    assert!(is_explicit_path(&absent("gone.bin", false)));
    assert!(is_explicit_path(&token("a[", false, false, None)));
    assert!(!is_explicit_path(&token("*.bin", false, false, Some(vec![found("a.bin", false)]))));
    assert!(!is_explicit_path(&token("*.txt", false, false, Some(vec![]))));
    assert!(!is_explicit_path(&token("a?.bin", false, false, Some(vec![]))));
    assert!(!is_explicit_path(&token("a[12].bin", false, false, Some(vec![]))));
    assert!(!is_explicit_path(&token("a{1}.bin", false, false, Some(vec![]))));
    assert!(!is_explicit_path(&token("x", false, false, Some(vec![GlobItem::Unreadable]))));
    assert!(is_explicit_path(&token("*.bin", true, false, Some(vec![found("*.bin", false)]))));
}

#[test]
fn explicit_path_without_sidecar_fails_the_batch() {
    let tokens = vec![file("a.bin", true), absent("b.bin", false), file("c.bin", false)];
    let e = check_metafiles_for_explicit_paths(&tokens).unwrap_err();
    assert_eq!(e.error, BatchErrorType::AnyMetaFilesDNE);
    assert_eq!(e.error_message, "missing for b.bin");
    let same = parse_files_from_globs_get(&tokens).unwrap_err();
    assert_eq!(same.error_message, "missing for b.bin");
}

#[test]
fn pattern_without_tracked_match_fails_nothing() {
    let tokens = vec![
        token("*.bin", false, false, Some(vec![found("a.bin", false), found("b.bin", true)])),
        token("*.txt", false, false, Some(vec![])),
    ];
    assert!(check_metafiles_for_explicit_paths(&tokens).is_ok());
    assert_eq!(parse_files_from_globs_get(&tokens).unwrap(), vec![s("b.bin"), s("*.txt")]);
}

#[test]
fn get_queues_deleted_files_that_are_tracked() {
    let tokens = vec![absent("gone.bin", true), file("here.bin", true)];
    assert_eq!(parse_files_from_globs_get(&tokens).unwrap(), vec![s("gone.bin"), s("here.bin")]);
}

#[test]
fn get_takes_a_sidecar_for_its_file() {
    let tokens = vec![token(
        "*.dvs",
        false,
        false,
        Some(vec![found("a.bin.dvs", true), found("b.bin.dvs", true)]),
    )];
    assert_eq!(parse_files_from_globs_get(&tokens).unwrap(), vec![s("a.bin"), s("b.bin")]);
}

#[test]
fn status_queues_explicit_paths_at_once() {
    let tokens = vec![
        file("a.bin.dvs", true),
        absent("gone.bin", false),
        token("*.bin", false, false, Some(vec![found("a.bin", true), found("u.bin", false)])),
    ];
    assert_eq!(
        parse_files_from_globs_status(&tokens, &Vec::new()),
        vec![s("a.bin"), s("gone.bin")]
    );
}

#[test]
fn status_of_nothing_is_the_whole_repository() {
    let walked = vec![
        s("/repo/a.bin"),
        s("/repo/a.bin.dvs"),
        s("/repo/data/b.csv.dvs"),
        s("/repo/.dvs"),
        s("/repo/dvs.yaml"),
        s("/repo/data/.gitignore"),
    ];
    let everything = vec![s("/repo/a.bin"), s("/repo/data/b.csv")];
    assert!(wants_whole_repository(&Vec::new()));
    assert!(wants_whole_repository(&vec![absent("", false)]));
    assert!(!wants_whole_repository(&vec![absent("a", false)]));
    assert!(!wants_whole_repository(&vec![absent("", false), absent("", false)]));
    assert_eq!(parse_files_from_globs_status(&Vec::new(), &walked), everything);
    assert_eq!(parse_files_from_globs_status(&vec![absent("", false)], &walked), everything);
    assert_eq!(get_all_meta_files(&walked), everything);
    assert_eq!(
        parse_files_from_globs_status(&vec![file("x.bin", true)], &walked),
        vec![s("x.bin")]
    );
}

#[test]
fn match_in_a_directory_whose_name_holds_the_sidecar_ending_keeps_its_path() {
    let tokens = vec![token(
        "a.dvsx/*",
        false,
        false,
        Some(vec![found("a.dvsx/f.bin", false), found("a.dvsx/g.bin.dvs", true)]),
    )];
    assert_eq!(
        parse_files_from_globs_add(&tokens),
        vec![s("a.dvsx/f.bin"), s("a.dvsx/g.bin")]
    );
}
