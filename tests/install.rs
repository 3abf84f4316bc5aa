use local_library::catalog::{AppMetadata, EntryKind, LibraryEntry, LibraryRoot, LocalConnector};
use local_library::install::{
    percent_hundredths, plan_install, InstallAction, InstallError, InstallEvent, InstallRegistry,
    InstallSession, SessionStage,
};
use local_library::types::{DownloadStage, InstallOption};

fn full_meta(download_size: u64) -> AppMetadata {
    AppMetadata {
        download_size: Some(download_size),
        disk_size: Some(4000),
        version: Some("1.2".to_string()),
        file_name: Some("game.zip".to_string()),
        ..AppMetadata::default()
    }
}

fn session(total: u64) -> InstallSession {
    let plan = plan_install("game1", "/mnt/games", &full_meta(total), &InstallOption::default()).unwrap();
    InstallSession::new(&plan)
}

#[test]
fn plan_install_lays_out_destination_and_pending_record() {
    let options = InstallOption { os: Some("linux".to_string()), language: Some("de".to_string()), verify: None };
    let plan = plan_install("game1", "/mnt/games", &full_meta(1000), &options).unwrap();
    assert_eq!(plan.path, "/mnt/games/game1");
    assert_eq!(plan.archive_path, "/mnt/games/game1/game.zip");
    assert_eq!(plan.archive_file_name, "game.zip");
    assert_eq!(plan.total_size, 1000);
    assert_eq!(plan.os, "linux");
    assert_eq!(plan.record.downloaded_bytes, 0);
    assert_eq!(plan.record.total_download_size, 1000);
    assert_eq!(plan.record.disk_size, 4000);
    assert_eq!(plan.record.version, "1.2");
    assert_eq!(plan.record.language, "de");
    assert_eq!(plan.record.installed_path, "/mnt/games/game1");
}

#[test]
fn plan_install_defaults_platform() {
    let plan = plan_install("g", "/d", &full_meta(1), &InstallOption::default()).unwrap();
    assert_eq!(plan.os, "windows");
    assert_eq!(plan.record.os, "windows");
    assert_eq!(plan.record.language, "");
}

#[test]
fn plan_install_rejects_missing_required_fields() {
    let mut m = full_meta(10);
    m.version = None;
    match plan_install("g", "/d", &m, &InstallOption::default()) {
        Err(InstallError::InvalidMetadata { app_id, field }) => {
            assert_eq!(app_id, "g");
            assert_eq!(field, "version");
        }
        other => panic!("unexpected {:?}", other),
    }
    match plan_install("g", "/d", &AppMetadata::default(), &InstallOption::default()) {
        Err(InstallError::InvalidMetadata { field, .. }) => assert_eq!(field, "download_size"),
        other => panic!("unexpected {:?}", other),
    }
    let mut m = full_meta(10);
    m.file_name = None;
    match plan_install("g", "/d", &m, &InstallOption::default()) {
        Err(InstallError::InvalidMetadata { field, .. }) => assert_eq!(field, "file_name"),
        other => panic!("unexpected {:?}", other),
    }
}

#[test]
fn four_chunks_report_quarters_then_one_completion() {
    let mut s = session(1000);
    let mut seen = Vec::new();
    for _ in 0..4 {
        match s.step(InstallEvent::ChunkReceived { len: 250 }) {
            InstallAction::Progress { app_id, stage, downloaded, total } => {
                assert_eq!(app_id, "game1");
                assert_eq!(stage, DownloadStage::Downloading);
                assert_eq!(total, 1000);
                let percent = percent_hundredths(downloaded, total) as f64 / 100.0;
                seen.push((downloaded, percent));
            }
            other => panic!("unexpected {:?}", other),
        }
    }
    assert_eq!(seen, vec![(250, 25.0), (500, 50.0), (750, 75.0), (1000, 100.0)]);
    match s.step(InstallEvent::TransferFinished) {
        InstallAction::Extract { archive_path, destination } => {
            assert_eq!(archive_path, "/mnt/games/game1/game.zip");
            assert_eq!(destination, "/mnt/games/game1");
        }
        other => panic!("unexpected {:?}", other),
    }
    let mut completed = 0;
    match s.step(InstallEvent::ExtractionFinished) {
        InstallAction::Completed { app_id } => {
            assert_eq!(app_id, "game1");
            completed += 1;
        }
        other => panic!("unexpected {:?}", other),
    }
    for e in [InstallEvent::ExtractionFinished, InstallEvent::ChunkReceived { len: 1 }, InstallEvent::TransferFinished] {
        if let InstallAction::Completed { .. } = s.step(e) {
            completed += 1;
        }
    }
    assert_eq!(completed, 1);
    assert!(s.is_finished());
    assert_eq!(s.stage, SessionStage::Completed);
}

#[test]
fn progress_is_clamped_and_never_goes_back() {
    let mut s = session(100);
    let mut last = 0;
    for len in [30, 0, 50, 70, u64::MAX] {
        match s.step(InstallEvent::ChunkReceived { len }) {
            InstallAction::Progress { downloaded, total, .. } => {
                assert!(downloaded <= total);
                assert!(downloaded >= last);
                last = downloaded;
            }
            other => panic!("unexpected {:?}", other),
        }
    }
    assert_eq!(last, 100);
}

#[test]
fn transfer_failure_ends_the_session() {
    let mut s = session(100);
    s.step(InstallEvent::ChunkReceived { len: 10 });
    match s.step(InstallEvent::TransferFailed { reason: "connection reset".to_string() }) {
        InstallAction::Failed { app_id, reason } => {
            assert_eq!(app_id, "game1");
            assert_eq!(reason, "connection reset");
        }
        other => panic!("unexpected {:?}", other),
    }
    assert!(matches!(s.step(InstallEvent::ChunkReceived { len: 10 }), InstallAction::Nothing));
    assert_eq!(s.downloaded, 10);
}

#[test]
fn empty_failure_reason_gets_a_diagnostic() {
    let mut s = session(100);
    match s.step(InstallEvent::TransferFailed { reason: String::new() }) {
        InstallAction::Failed { reason, .. } => assert_eq!(reason, "transfer failed"),
        other => panic!("unexpected {:?}", other),
    }
    let mut s = session(100);
    s.step(InstallEvent::TransferFinished);
    match s.step(InstallEvent::ExtractionFailed { reason: String::new() }) {
        InstallAction::Failed { reason, .. } => assert_eq!(reason, "extraction failed"),
        other => panic!("unexpected {:?}", other),
    }
}

#[test]
fn extraction_failure_is_reported() {
    let mut s = session(5);
    s.step(InstallEvent::TransferFinished);
    match s.step(InstallEvent::ExtractionFailed { reason: "bad archive".to_string() }) {
        InstallAction::Failed { reason, .. } => assert_eq!(reason, "bad archive"),
        other => panic!("unexpected {:?}", other),
    }
    assert_eq!(s.stage, SessionStage::Failed);
}

#[test]
fn percent_is_in_hundredths() {
    assert_eq!(percent_hundredths(1, 3), 3333);
    assert_eq!(percent_hundredths(0, 1000), 0);
    assert_eq!(percent_hundredths(1000, 1000), 10000);
    assert_eq!(percent_hundredths(0, 0), 10000);
    assert_eq!(percent_hundredths(u64::MAX, u64::MAX), 10000);
}

#[test]
fn second_install_of_same_app_is_rejected() {
    let mut r = InstallRegistry::new();
    assert!(r.begin("g").is_ok());
    assert!(r.is_active("g"));
    match r.begin("g") {
        Err(InstallError::AlreadyInProgress { app_id }) => assert_eq!(app_id, "g"),
        other => panic!("unexpected {:?}", other),
    }
    assert!(r.begin("h").is_ok());
    r.finish("g");
    assert!(!r.is_active("g"));
    assert!(r.is_active("h"));
    assert!(r.begin("g").is_ok());
}

#[test]
fn completed_install_is_found_and_listed() {
    let mut s = session(10);
    s.step(InstallEvent::ChunkReceived { len: 10 });
    s.step(InstallEvent::TransferFinished);
    assert!(matches!(s.step(InstallEvent::ExtractionFinished), InstallAction::Completed { .. }));
    let roots = vec![LibraryRoot {
        path: "/mnt/games".to_string(),
        entries: vec![LibraryEntry {
            name: "game1".to_string(),
            kind: EntryKind::Directory,
            descriptor: Some(full_meta(10)),
        }],
    }];
    let c = LocalConnector;
    assert_eq!(c.find_app(&roots, "game1"), Some(s.path.clone()));
    assert!(c.list_installed_apps(&roots).iter().any(|a| a.app_id == "game1"));
}
