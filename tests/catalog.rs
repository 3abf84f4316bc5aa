use local_library::catalog::{
    uninstall_outcome, AppMetadata, CatalogError, EntryKind, LibraryEntry, LibraryRoot,
    LocalConnector, UninstallStep, existing_roots, library_root_candidates,
};
use local_library::paths::join;

fn meta(name: &str) -> AppMetadata {
    AppMetadata { name: Some(name.to_string()), ..AppMetadata::default() }
}

fn dir(name: &str, descriptor: Option<AppMetadata>) -> LibraryEntry {
    LibraryEntry { name: name.to_string(), kind: EntryKind::Directory, descriptor }
}

fn root(path: &str, entries: Vec<LibraryEntry>) -> LibraryRoot {
    LibraryRoot { path: path.to_string(), entries }
}

fn two_roots_with_game1() -> Vec<LibraryRoot> {
    vec![
        root("/home/u/.local/share/playtron/apps/local", vec![dir("game1", Some(meta("First")))]),
        root("/run/media/usb/playtron/apps/local", vec![dir("game1", Some(meta("Second")))]),
    ]
}

#[test]
fn find_app_prefers_first_scanned_root() {
    let roots = two_roots_with_game1();
    let c = LocalConnector;
    let first = c.find_app(&roots, "game1");
    assert_eq!(first.as_deref(), Some("/home/u/.local/share/playtron/apps/local/game1"));
    for _ in 0..3 {
        assert_eq!(c.find_app(&roots, "game1"), first);
    }
}

#[test]
fn find_app_matches_exactly() {
    let roots = two_roots_with_game1();
    let c = LocalConnector;
    assert_eq!(c.find_app(&roots, "Game1"), None);
    assert_eq!(c.find_app(&roots, "game"), None);
    assert_eq!(c.find_app(&roots, ""), None);
}

#[test]
fn find_app_skips_files() {
    let roots = vec![
        root("/a", vec![LibraryEntry { name: "g".to_string(), kind: EntryKind::File, descriptor: None }]),
        root("/b/", vec![LibraryEntry { name: "g".to_string(), kind: EntryKind::Symlink, descriptor: None }]),
    ];
    assert_eq!(LocalConnector.find_app(&roots, "g").as_deref(), Some("/b/g"));
}

#[test]
fn list_apps_lists_directories_and_symlinks_in_scan_order() {
    let roots = vec![
        root("/a", vec![
            dir("x", None),
            LibraryEntry { name: "notes.txt".to_string(), kind: EntryKind::File, descriptor: None },
            LibraryEntry { name: "y".to_string(), kind: EntryKind::Symlink, descriptor: None },
        ]),
        root("/b", vec![dir("x", None), dir("z", None)]),
    ];
    assert_eq!(LocalConnector.list_apps(&roots), vec!["x", "y", "x", "z"]);
    assert!(LocalConnector.list_apps(&vec![]).is_empty());
}

#[test]
fn list_installed_apps_skips_unreadable_descriptors() {
    let good = AppMetadata {
        os: Some("linux".to_string()),
        version: Some("2.5".to_string()),
        download_size: Some(300),
        disk_size: Some(900),
        ..AppMetadata::default()
    };
    let roots = vec![root("/lib", vec![
        dir("broken", None),
        dir("good", Some(good)),
        dir("plain", Some(AppMetadata::default())),
        LibraryEntry { name: "file".to_string(), kind: EntryKind::File, descriptor: Some(meta("f")) },
    ])];
    let apps = LocalConnector.list_installed_apps(&roots);
    assert_eq!(apps.len(), 2);
    assert_eq!(apps[0].app_id, "good");
    assert_eq!(apps[0].installed_path, "/lib/good");
    assert_eq!(apps[0].os, "linux");
    assert_eq!(apps[0].version, "1.0");
    assert_eq!(apps[0].latest_version, "1.0");
    assert_eq!(apps[0].downloaded_bytes, 1);
    assert_eq!(apps[0].total_download_size, 1);
    assert_eq!(apps[0].disk_size, 1);
    assert!(!apps[0].update_pending);
    assert_eq!(apps[1].app_id, "plain");
    assert_eq!(apps[1].os, "windows");
    assert_eq!(apps[1].version, "1.0");
    assert_eq!(apps[1].disk_size, 1);
    assert_eq!(apps[1].language, "");
    assert!(apps[1].disabled_dlc.is_empty());
}

#[test]
fn list_installed_apps_uses_first_match_descriptor() {
    let roots = vec![
        root("/a", vec![dir("g", None)]),
        root("/b", vec![dir("g", Some(meta("g")))]),
    ];
    assert!(LocalConnector.list_installed_apps(&roots).is_empty());
}

#[test]
fn load_metadata_reports_not_found_and_unreadable() {
    let roots = vec![root("/a", vec![dir("bad", None), dir("ok", Some(meta("Ok")))])];
    let c = LocalConnector;
    match c.load_metadata(&roots, "missing") {
        Err(CatalogError::MetadataNotFound { app_id }) => assert_eq!(app_id, "missing"),
        other => panic!("unexpected {:?}", other),
    }
    match c.load_metadata(&roots, "bad") {
        Err(CatalogError::MetadataUnreadable { app_id }) => assert_eq!(app_id, "bad"),
        other => panic!("unexpected {:?}", other),
    }
    assert_eq!(c.load_metadata(&roots, "ok").unwrap().name.as_deref(), Some("Ok"));
}

#[test]
fn uninstall_of_absent_app_does_nothing_and_succeeds() {
    let roots = two_roots_with_game1();
    let step = LocalConnector.uninstall(&roots, "nothing-here");
    assert!(matches!(step, UninstallStep::AlreadyAbsent));
    assert!(uninstall_outcome("nothing-here", None).is_ok());
}

#[test]
fn uninstall_removes_first_found_tree() {
    let roots = two_roots_with_game1();
    match LocalConnector.uninstall(&roots, "game1") {
        UninstallStep::RemoveTree { path } => {
            assert_eq!(path, "/home/u/.local/share/playtron/apps/local/game1")
        }
        other => panic!("unexpected {:?}", other),
    }
    assert!(uninstall_outcome("game1", Some(Ok(()))).is_ok());
}

#[test]
fn failed_removal_reports_uninstall_failed() {
    match uninstall_outcome("game1", Some(Err("permission denied".to_string()))) {
        Err(CatalogError::UninstallFailed { app_id, cause }) => {
            assert_eq!(app_id, "game1");
            assert_eq!(cause, "permission denied");
        }
        other => panic!("unexpected {:?}", other),
    }
}

#[test]
fn root_candidates_put_user_root_first() {
    let mounts = vec!["/run/media/usb".to_string(), "/media/sd/".to_string()];
    let c = library_root_candidates(Some("/home/u/.local/share".to_string()), &mounts).unwrap();
    assert_eq!(c, vec![
        "/home/u/.local/share/playtron/apps/local",
        "/run/media/usb/playtron/apps/local",
        "/media/sd/playtron/apps/local",
    ]);
    assert!(matches!(library_root_candidates(None, &mounts), Err(CatalogError::NoDataDir)));
}

#[test]
fn join_inserts_one_separator() {
    assert_eq!(join("/a", "b"), "/a/b");
    assert_eq!(join("/a/", "b"), "/a/b");
    assert_eq!(join("", "b"), "b");
}

#[test]
fn only_existing_roots_are_kept_in_order() {
    let c = vec!["/home".to_string(), "/media/a".to_string(), "/media/b".to_string()];
    assert_eq!(existing_roots(&c, &vec![true, false, true]), vec!["/home", "/media/b"]);
    assert_eq!(existing_roots(&c, &vec![false, true, false]), vec!["/media/a"]);
    assert!(existing_roots(&c, &vec![false, false, false]).is_empty());
}
