use local_library::catalog::{AppMetadata, EntryKind, LibraryEntry, LibraryRoot, UninstallStep};
use local_library::install::InstallError;
use local_library::keys::KeyIdentity;
use local_library::service::LocalService;
use local_library::types::{InstallOption, LaunchType, PlaytronAppType};

/// A context with a small key, which is quick to make in a test build.
fn service() -> LocalService {
    LocalService::with_key(KeyIdentity::generate_with_size(512).expect("key generation"))
}

fn roots() -> Vec<LibraryRoot> {
    let described = AppMetadata {
        name: Some("Space Game".to_string()),
        executable: Some("bin/space".to_string()),
        image: Some("https://img.example/space.png".to_string()),
        runtime: Some(false),
        download_size: Some(1000),
        disk_size: Some(2000),
        version: Some("3.1".to_string()),
        file_name: Some("space.zip".to_string()),
        ..AppMetadata::default()
    };
    vec![LibraryRoot {
        path: "/lib".to_string(),
        entries: vec![
            LibraryEntry { name: "space".to_string(), kind: EntryKind::Directory, descriptor: Some(described) },
            LibraryEntry { name: "bare".to_string(), kind: EntryKind::Directory, descriptor: Some(AppMetadata::default()) },
            LibraryEntry { name: "broken".to_string(), kind: EntryKind::Directory, descriptor: None },
        ],
    }]
}

#[test]
fn service_describes_catalog_entries() {
    let service = service();
    let pem = service.get_public_key();
    assert!(pem.starts_with("-----BEGIN RSA PUBLIC KEY-----\n"));
    assert!(pem.trim_end().ends_with("-----END RSA PUBLIC KEY-----"));
    assert_eq!(service.get_public_key(), pem);
    let roots = roots();

    let items = service.get_provider_items(&roots);
    let names: Vec<(&str, &str)> = items.iter().map(|i| (i.id.as_str(), i.name.as_str())).collect();
    assert_eq!(names, vec![("space", "Space Game"), ("bare", "bare")]);
    assert!(items.iter().all(|i| i.provider == "local"));

    let doc = service.get_item_metadata(&roots, "space").unwrap();
    assert_eq!(doc.name, "Space Game");
    assert_eq!(doc.slug, "space");
    assert_eq!(doc.app_type, PlaytronAppType::Game);
    assert!(!doc.use_container_runtime);
    assert_eq!(doc.images.len(), 1);
    assert_eq!(doc.images[0].url, "https://img.example/space.png");
    assert_eq!(doc.images[0].image_type, "landscape");
    assert_eq!(doc.providers[0].store_id, "space");
    let bare = service.get_item_metadata(&roots, "bare").unwrap();
    assert!(bare.use_container_runtime);
    assert!(bare.images.is_empty());
    assert!(service.get_item_metadata(&roots, "broken").is_err());

    let options = service.get_launch_options(&roots, "space").unwrap();
    assert_eq!(options.len(), 1);
    assert_eq!(options[0].executable, "bin/space");
    assert_eq!(options[0].description, "Launch");
    assert!(matches!(options[0].launch_type, LaunchType::Game));
    assert!(service.get_launch_options(&roots, "bare").unwrap().is_empty());
    assert!(service.get_launch_options(&roots, "nope").is_err());

    assert_eq!(service.get_installed_apps(&roots).len(), 2);
    assert!(matches!(service.uninstall(&roots, "nope"), UninstallStep::AlreadyAbsent));
    assert_eq!(service.get_post_install_steps("space"), "[]");
}

#[test]
fn service_accepts_one_install_per_app() {
    let mut service = service();
    let roots = roots();
    let (plan, session) = service.install(&roots, "space", "/games", &InstallOption::default()).unwrap();
    assert_eq!(plan.path, "/games/space");
    assert_eq!(plan.record.total_download_size, 1000);
    assert_eq!(plan.record.downloaded_bytes, 0);
    assert_eq!(session.total_size, 1000);
    assert!(matches!(
        service.install(&roots, "space", "/games", &InstallOption::default()),
        Err(InstallError::AlreadyInProgress { .. })
    ));
    assert!(matches!(
        service.install(&roots, "missing", "/games", &InstallOption::default()),
        Err(InstallError::NotFound { .. })
    ));
    assert!(matches!(
        service.install(&roots, "bare", "/games", &InstallOption::default()),
        Err(InstallError::InvalidMetadata { .. })
    ));
    service.finish_install("space");
    assert!(service.install(&roots, "space", "/games", &InstallOption::default()).is_ok());

    let (r, events) = service.login("alice", Err("wrong password".to_string()));
    assert!(r.is_err());
    assert_eq!(events.len(), 1);
    assert!(service.get_account().is_none());
}
