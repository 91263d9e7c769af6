use terracotta::download::{download_progress, DownloadStage, DownloadStatus};
use terracotta::error::TerracottaError;
use terracotta::runtime::{ChildPoll, Runtime};
use terracotta::startup::{StartAction, StartEvent, Startup};
use terracotta::state::{build_state, TerracottaApiProfile, TerracottaApiState, TerracottaState};

#[test]
fn progress_percentages() {
    assert_eq!(download_progress(50, 200), Some(25));
    assert_eq!(download_progress(199, 200), Some(99));
    assert_eq!(download_progress(300, 200), Some(100));
    assert_eq!(download_progress(-5, 200), Some(0));
    assert_eq!(download_progress(5, 0), None);
    assert_eq!(download_progress(5, -1), None);
}

#[test]
fn download_status_updates() {
    let mut status = DownloadStatus::default();
    assert_eq!(status.progress, None);
    status.set(Some(0), Some(DownloadStage::Downloading.label()));
    assert_eq!(status.progress, Some(0));
    assert_eq!(status.stage.as_deref(), Some("downloading"));
    status.set(Some(100), Some(DownloadStage::Extracting.label()));
    assert_eq!(status.stage.as_deref(), Some("extracting"));
    assert_eq!(DownloadStage::Installing.label(), "installing");
    status.clear();
    assert_eq!(status.progress, None);
    assert_eq!(status.stage, None);
}

#[test]
fn state_without_helper_answer() {
    let mut download = DownloadStatus::new();
    download.set(Some(40), Some("downloading"));
    let s = build_state(
        true,
        Some("0.4.0".to_string()),
        Some("0.4.1".to_string()),
        false,
        None,
        download,
    );
    assert!(s.installed);
    assert!(s.update_available);
    assert!(!s.running);
    assert_eq!(s.status, "idle");
    assert_eq!(s.room_code, None);
    assert!(s.players.is_empty());
    assert_eq!(s.download_progress, Some(40));
    assert_eq!(s.download_stage.as_deref(), Some("downloading"));
}

#[test]
fn state_update_availability() {
    let same = build_state(true, Some("1".into()), Some("1".into()), true, None, DownloadStatus::new());
    assert!(!same.update_available);
    assert_eq!(same.status, "running");
    let unknown = build_state(true, Some("1".into()), None, false, None, DownloadStatus::new());
    assert!(!unknown.update_available);
    let missing = build_state(false, None, Some("1".into()), false, None, DownloadStatus::new());
    assert!(missing.update_available);
}

#[test]
fn state_with_helper_answer() {
    let api = TerracottaApiState {
        state: "host-ok".to_string(),
        room: Some("U/ABCD-1234-EFGH-5678".to_string()),
        url: Some("127.0.0.1:25565".to_string()),
        profiles: vec![
            TerracottaApiProfile {
                machine_id: "m1".into(),
                name: "Steve".into(),
                kind: "HOST".into(),
            },
            TerracottaApiProfile {
                machine_id: "m2".into(),
                name: "Alex".into(),
                kind: "GUEST".into(),
            },
        ],
    };
    let s = build_state(true, None, None, true, Some(api), DownloadStatus::new());
    assert_eq!(s.status, "host-ok");
    assert_eq!(s.room_code.as_deref(), Some("U/ABCD-1234-EFGH-5678"));
    assert_eq!(s.server_address.as_deref(), Some("127.0.0.1:25565"));
    assert_eq!(s.players.len(), 2);
    assert_eq!(s.players[1].name, "Alex");
    assert_eq!(s.players[0].kind, "HOST");
    assert_eq!(s.players[0].machine_id, "m1");
}

#[test]
fn default_state() {
    let s = TerracottaState::default();
    assert!(!s.installed && !s.running && !s.update_available);
    assert_eq!(s.status, "");
}

#[test]
fn observing_the_child() {
    let mut rt: Runtime<u8> = Runtime::new();
    assert!(!rt.observe_child(None));
    rt.child = Some(1);
    assert!(rt.observe_child(Some(ChildPoll::Running)));
    assert_eq!(rt.child, Some(1));
    assert_eq!(rt.state_url(true), None);
    assert!(!rt.observe_child(Some(ChildPoll::Exited)));
    assert_eq!(rt.child, None);
    rt.port = Some(80);
    rt.child = Some(2);
    assert!(rt.observe_child(Some(ChildPoll::Failed)));
    assert_eq!(rt.child, None);
    assert_eq!(rt.state_url(true).as_deref(), Some("http://127.0.0.1:80/state"));
    assert_eq!(rt.state_url(false), None);
}

#[test]
fn download_refused_while_running() {
    let mut rt: Runtime<u8> = Runtime::new();
    assert!(rt.ensure_idle().is_ok());
    rt.child = Some(3);
    let err = rt.ensure_idle().unwrap_err();
    assert!(matches!(err, TerracottaError::AlreadyRunning));
    assert_eq!(err.message(), "Terracotta is running");
}

#[test]
fn start_not_installed() {
    let mut rt: Runtime<u8> = Runtime::new();
    let mut s = Startup::new();
    let a = s.step(&mut rt, StartEvent::Installed(false));
    assert!(matches!(a, StartAction::Fail(TerracottaError::NotInstalled)));
    assert!(s.is_done());
}

#[test]
fn start_reuses_answering_helper() {
    let mut rt: Runtime<u8> = Runtime::new();
    rt.port = Some(9000);
    let mut s = Startup::new();
    match s.step(&mut rt, StartEvent::Installed(true)) {
        StartAction::Probe { url, timeout_secs } => {
            assert_eq!(url, "http://127.0.0.1:9000/state");
            assert_eq!(timeout_secs, 2);
        }
        _ => panic!("expected a probe"),
    }
    assert!(matches!(s.step(&mut rt, StartEvent::Probed(true)), StartAction::Succeed));
    assert_eq!(rt.port, Some(9000));
}

#[test]
fn start_spawns_after_failed_probe() {
    let mut rt: Runtime<u8> = Runtime::new();
    rt.port = Some(9000);
    rt.child = Some(5);
    let mut s = Startup::new();
    let _ = s.step(&mut rt, StartEvent::Installed(true));
    assert!(matches!(s.step(&mut rt, StartEvent::Probed(false)), StartAction::PollChild));
    assert_eq!(rt.port, None);
    assert_eq!(rt.child, None);
    assert!(matches!(s.step(&mut rt, StartEvent::ChildPolled(None)), StartAction::Spawn));
    assert!(matches!(s.step(&mut rt, StartEvent::Spawned(Ok(8))), StartAction::ReadPortFile));
    assert_eq!(rt.child, Some(8));
    assert!(matches!(s.step(&mut rt, StartEvent::PortFileRead(None)), StartAction::PollChild));
    assert!(matches!(
        s.step(&mut rt, StartEvent::ChildPolled(Some(ChildPoll::Running))),
        StartAction::Sleep { millis: 300 }
    ));
    assert!(matches!(s.step(&mut rt, StartEvent::Slept), StartAction::ReadPortFile));
    assert!(matches!(s.step(&mut rt, StartEvent::PortFileRead(Some(70000))), StartAction::Ready));
    assert_eq!(rt.port, Some(4464));
    assert_eq!(rt.child, Some(8));
    assert!(s.is_done());
}

#[test]
fn start_keeps_running_child() {
    let mut rt: Runtime<u8> = Runtime::new();
    rt.child = Some(4);
    let mut s = Startup::new();
    assert!(matches!(s.step(&mut rt, StartEvent::Installed(true)), StartAction::PollChild));
    assert!(matches!(
        s.step(&mut rt, StartEvent::ChildPolled(Some(ChildPoll::Running))),
        StartAction::Succeed
    ));
    assert_eq!(rt.child, Some(4));
}

#[test]
fn start_spawn_failure() {
    let mut rt: Runtime<u8> = Runtime::new();
    let mut s = Startup::new();
    let _ = s.step(&mut rt, StartEvent::Installed(true));
    let _ = s.step(&mut rt, StartEvent::ChildPolled(None));
    match s.step(&mut rt, StartEvent::Spawned(Err("permission denied".to_string()))) {
        StartAction::Fail(e) => assert_eq!(e.message(), "permission denied"),
        _ => panic!("expected a failure"),
    }
}

#[test]
fn start_aborts_when_child_exits() {
    let mut rt: Runtime<u8> = Runtime::new();
    let mut s = Startup::new();
    let _ = s.step(&mut rt, StartEvent::Installed(true));
    let _ = s.step(&mut rt, StartEvent::ChildPolled(None));
    let _ = s.step(&mut rt, StartEvent::Spawned(Ok(6)));
    let _ = s.step(&mut rt, StartEvent::PortFileRead(None));
    match s.step(&mut rt, StartEvent::ChildPolled(Some(ChildPoll::Exited))) {
        StartAction::Abort(child) => assert_eq!(child, Some(6)),
        _ => panic!("expected an abort"),
    }
    assert_eq!(rt.child, None);
    assert_eq!(rt.port, None);
    assert!(s.is_done());
}

#[test]
fn start_times_out_after_one_hundred_reads() {
    let mut rt: Runtime<u8> = Runtime::new();
    let mut s = Startup::new();
    let _ = s.step(&mut rt, StartEvent::Installed(true));
    let _ = s.step(&mut rt, StartEvent::ChildPolled(None));
    let mut action = s.step(&mut rt, StartEvent::Spawned(Ok(9)));
    let mut reads = 0;
    loop {
        let event = match action {
            StartAction::ReadPortFile => {
                reads += 1;
                StartEvent::PortFileRead(None)
            }
            StartAction::PollChild => StartEvent::ChildPolled(Some(ChildPoll::Running)),
            StartAction::Sleep { .. } => StartEvent::Slept,
            StartAction::Abort(child) => {
                assert_eq!(child, Some(9));
                break;
            }
            _ => panic!("unexpected action"),
        };
        assert!(s.accepts(&event));
        action = s.step(&mut rt, event);
    }
    assert_eq!(reads, 100);
    assert_eq!(rt.child, None);
    assert_eq!(TerracottaError::StartupTimedOut.message(), "Terracotta startup timed out");
}

fn announced(text: Option<&str>) -> Option<u64> {
    match StartEvent::<u8>::port_file_read(text.map(|t| t.to_string())) {
        StartEvent::PortFileRead(port) => port,
        _ => panic!("expected a port file read"),
    }
}

#[test]
fn port_file_contents() {
    assert_eq!(announced(Some("{\"port\": 25565}")), Some(25565));
    assert_eq!(announced(Some("{\"pid\": 1, \"port\": 70000}")), Some(70000));
    assert_eq!(announced(Some("{\"port\": -1}")), None);
    assert_eq!(announced(Some("{\"port\": \"8080\"}")), None);
    assert_eq!(announced(Some("{\"port\": 80.5}")), None);
    assert_eq!(announced(Some("[8080]")), None);
    assert_eq!(announced(Some("{\"port\": 80")), None);
    assert_eq!(announced(Some("")), None);
    assert_eq!(announced(None), None);
}

#[test]
fn start_records_port_from_file_text() {
    let mut rt: Runtime<u8> = Runtime::new();
    let mut s = Startup::new();
    let _ = s.step(&mut rt, StartEvent::Installed(true));
    let _ = s.step(&mut rt, StartEvent::ChildPolled(None));
    let _ = s.step(&mut rt, StartEvent::Spawned(Ok(3)));
    let event = StartEvent::port_file_read(Some("{\"port\": 40123}".to_string()));
    assert!(s.accepts(&event));
    assert!(matches!(s.step(&mut rt, event), StartAction::Ready));
    assert_eq!(rt.port, Some(40123));
}
