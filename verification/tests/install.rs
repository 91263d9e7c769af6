use terracotta::download::DownloadStatus;
use terracotta::error::TerracottaError;
use terracotta::install::{InstallAction, InstallEvent, Installer};

fn start(requested: Option<&str>, platform: &str) -> InstallEvent {
    InstallEvent::Start {
        busy: false,
        requested: requested.map(|s| s.to_string()),
        platform: platform.to_string(),
    }
}

#[test]
fn install_with_requested_version() {
    let mut status = DownloadStatus::new();
    let mut job = Installer::new();
    match job.step(&mut status, start(Some("0.4.1"), "linux-x86_64")) {
        InstallAction::Fetch(asset) => {
            assert_eq!(asset.archive_name, "terracotta-0.4.1.tar.gz");
            assert_eq!(
                asset.source_url,
                "https://github.com/burningtnt/Terracotta/releases/download/v0.4.1/terracotta-0.4.1-linux-x86_64-pkg.tar.gz"
            );
        }
        _ => panic!("expected a fetch"),
    }
    assert_eq!(status.progress, Some(0));
    assert_eq!(status.stage.as_deref(), Some("downloading"));
    assert!(matches!(
        job.step(&mut status, InstallEvent::Progress { current: 30, total: 120 }),
        InstallAction::KeepFetching
    ));
    assert_eq!(status.progress, Some(25));
    assert!(matches!(job.step(&mut status, InstallEvent::Fetched), InstallAction::Unpack));
    assert_eq!(status.progress, Some(100));
    assert_eq!(status.stage.as_deref(), Some("extracting"));
    match job.step(&mut status, InstallEvent::Unpacked { binary_found: true }) {
        InstallAction::Install { version } => assert_eq!(version, "0.4.1"),
        _ => panic!("expected an install"),
    }
    assert_eq!(status.stage.as_deref(), Some("installing"));
    assert!(matches!(job.step(&mut status, InstallEvent::Installed), InstallAction::Finish));
    assert_eq!(status.progress, None);
    assert_eq!(status.stage, None);
    assert!(job.is_done());
}

#[test]
fn install_latest_when_no_version_given() {
    let mut status = DownloadStatus::new();
    let mut job = Installer::new();
    assert!(matches!(
        job.step(&mut status, start(Some("  "), "macos-arm64")),
        InstallAction::FetchLatestVersion
    ));
    assert_eq!(status.progress, Some(0));
    match job.step(&mut status, InstallEvent::LatestVersion("0.5.0".to_string())) {
        InstallAction::Fetch(asset) => {
            assert_eq!(asset.artifact, "terracotta-0.5.0-macos-arm64-pkg.tar.gz")
        }
        _ => panic!("expected a fetch"),
    }
}

#[test]
fn install_refused_while_running() {
    let mut status = DownloadStatus::new();
    status.set(Some(7), Some("downloading"));
    let mut job = Installer::new();
    let event = InstallEvent::Start {
        busy: true,
        requested: None,
        platform: "linux-x86_64".to_string(),
    };
    match job.step(&mut status, event) {
        InstallAction::Fail(e) => assert!(matches!(e, TerracottaError::AlreadyRunning)),
        _ => panic!("expected a failure"),
    }
    assert_eq!(status.progress, Some(7));
    job.abandon(&mut status);
    assert_eq!(status.progress, Some(7));
}

#[test]
fn install_refused_on_unsupported_platform() {
    let mut status = DownloadStatus::new();
    let mut job = Installer::new();
    match job.step(&mut status, start(Some("1"), "unsupported")) {
        InstallAction::Fail(e) => assert_eq!(e.message(), "Unsupported platform"),
        _ => panic!("expected a failure"),
    }
    assert_eq!(status.progress, None);
    assert_eq!(status.stage, None);
}

#[test]
fn install_fails_without_binary() {
    let mut status = DownloadStatus::new();
    let mut job = Installer::new();
    let _ = job.step(&mut status, start(Some("1"), "linux-arm64"));
    let _ = job.step(&mut status, InstallEvent::Fetched);
    match job.step(&mut status, InstallEvent::Unpacked { binary_found: false }) {
        InstallAction::Fail(e) => {
            assert_eq!(e.message(), "Terracotta binary not found in archive")
        }
        _ => panic!("expected a failure"),
    }
    assert_eq!(status.stage, None);
}

#[test]
fn abandoned_install_clears_status() {
    let mut status = DownloadStatus::new();
    let mut job = Installer::new();
    let _ = job.step(&mut status, start(Some("1"), "linux-arm64"));
    assert!(job.accepts(&InstallEvent::Fetched));
    assert!(!job.accepts(&InstallEvent::Installed));
    job.abandon(&mut status);
    assert_eq!(status.progress, None);
    assert_eq!(status.stage, None);
    assert!(job.is_done());
}

#[test]
fn state_after_requested_install() {
    let mut status = DownloadStatus::new();
    let mut job = Installer::new();
    let _ = job.step(&mut status, start(Some("0.4.1"), "linux-x86_64"));
    let _ = job.step(&mut status, InstallEvent::Fetched);
    let written = match job.step(&mut status, InstallEvent::Unpacked { binary_found: true }) {
        InstallAction::Install { version } => version,
        _ => panic!("expected an install"),
    };
    assert!(matches!(job.step(&mut status, InstallEvent::Installed), InstallAction::Finish));
    let installed = terracotta::platform::non_blank(Some(written));
    let state = terracotta::state::build_state(
        true,
        installed,
        Some("0.4.1".to_string()),
        false,
        None,
        status,
    );
    assert_eq!(state.installed_version.as_deref(), Some("0.4.1"));
    assert!(!state.update_available);
    assert_eq!(state.download_progress, None);
    assert_eq!(state.download_stage, None);
}
