//! The session orchestrator driven through whole command scenarios.

use voice_input::audio::AudioData;
use voice_input::audio::RecordMode;
use voice_input::ipc::IpcCmd;
use voice_input::media::MediaControlService;
use voice_input::media::MockMediaController;
use voice_input::session::CommandContext;
use voice_input::session::Orchestrator;
use voice_input::session::SessionParams;
use voice_input::session::SessionState;

fn idle_orchestrator(playing: bool) -> Orchestrator<MockMediaController> {
    let media = MediaControlService::with_controller(MockMediaController::new(playing));
    Orchestrator::new(media, RecordMode::Memory, 16000)
}

fn params() -> SessionParams {
    SessionParams { paste: false, prompt: None, direct_input: false }
}

#[test]
fn scenario_concurrent_start_is_rejected() {
    let mut orch = idle_orchestrator(false);
    let first = orch.handle_start(params(), true, false, 0);
    assert!(first.ok);
    let second = orch.handle_start(params(), true, false, 5);
    assert!(!second.ok);
    assert_eq!(second.msg, "already recording");
    assert_eq!(orch.state(), SessionState::Recording);
}

#[test]
fn scenario_toggle_cycles_through_the_states() {
    let mut orch = idle_orchestrator(false);
    assert_eq!(orch.state(), SessionState::Idle);

    let (r1, job1) = orch.handle_toggle(params(), true, false, 0);
    assert!(r1.ok);
    assert!(job1.is_none());
    assert_eq!(orch.state(), SessionState::Recording);

    let (r2, job2) = orch.handle_toggle(params(), true, false, 1000);
    assert!(r2.ok);
    assert!(job2.is_some());
    assert_eq!(orch.state(), SessionState::Processing);

    orch.finish_processing(false).unwrap();
    assert_eq!(orch.state(), SessionState::Idle);
}

#[test]
fn stop_while_idle_is_rejected_and_pause_flag_unchanged() {
    let mut orch = idle_orchestrator(true);
    assert!(!orch.media_paused());
    let (r, job) = orch.handle_stop();
    assert!(!r.ok);
    assert_eq!(r.msg, "not recording");
    assert!(job.is_none());
    assert!(!orch.media_paused());
    assert_eq!(orch.state(), SessionState::Idle);
}

#[test]
fn start_while_recording_leaves_the_buffer_untouched() {
    let mut orch = idle_orchestrator(false);
    assert!(orch.handle_start(params(), true, false, 0).ok);
    assert!(orch.append_audio(&vec![100, 200, 300]));

    let rejected = orch.handle_start(params(), true, false, 50);
    assert!(!rejected.ok);

    let (r, job) = orch.handle_stop();
    assert!(r.ok);
    let bytes = match job.expect("finalize leaves a job").audio {
        AudioData::Memory(b) => b,
        AudioData::File(_) => panic!("memory mode"),
    };
    // 44 header bytes, then exactly the three buffered frames.
    assert_eq!(bytes.len(), 44 + 6);
    assert_eq!(&bytes[44..], &[100, 0, 200, 0, 44, 1]);
}

#[test]
fn status_during_processing_reports_processing() {
    let mut orch = idle_orchestrator(false);
    assert!(orch.handle_start(params(), true, false, 0).ok);
    let (r, _job) = orch.handle_stop();
    assert!(r.ok);
    let status = orch.handle_status(10_000);
    assert!(status.ok);
    assert_eq!(status.msg, "Processing");
    orch.finish_processing(false).unwrap();
    assert_eq!(orch.handle_status(20_000).msg, "Idle");
}

#[test]
fn status_while_recording_reports_elapsed_seconds() {
    let mut orch = idle_orchestrator(false);
    assert!(orch.handle_start(params(), true, false, 2_000).ok);
    let status = orch.handle_status(67_500);
    assert!(status.ok);
    assert_eq!(status.msg, "Recording (65s)");
}

#[test]
fn stale_marker_refuses_start() {
    let mut orch = idle_orchestrator(false);
    let r = orch.handle_start(params(), true, true, 0);
    assert!(!r.ok);
    assert_eq!(r.msg, "another recording may be active");
    assert_eq!(orch.state(), SessionState::Idle);
}

#[test]
fn start_without_a_device_stays_idle() {
    let mut orch = idle_orchestrator(false);
    let r = orch.handle_start(params(), false, false, 0);
    assert!(!r.ok);
    assert_eq!(r.msg, "no input device available");
    assert_eq!(orch.state(), SessionState::Idle);
}

#[test]
fn recording_pauses_and_finishing_resumes_the_player() {
    let mut orch = idle_orchestrator(true);
    assert!(orch.handle_start(params(), true, false, 0).ok);
    assert!(orch.media_paused());

    let (r, _job) = orch.handle_stop();
    assert!(r.ok);
    assert!(orch.media_paused());

    orch.finish_processing(false).unwrap();
    assert!(!orch.media_paused());
    assert_eq!(orch.state(), SessionState::Idle);
}

#[test]
fn health_fails_only_after_a_fatal_error() {
    let mut orch = idle_orchestrator(false);
    assert!(orch.handle_health().ok);
    assert!(orch.handle_start(params(), true, false, 0).ok);
    assert!(orch.handle_health().ok);
    let (r, _job) = orch.handle_stop();
    assert!(r.ok);
    orch.finish_processing(true).unwrap();
    let health = orch.handle_health();
    assert!(!health.ok);
    assert_eq!(health.msg, "session error");
    assert_eq!(orch.state(), SessionState::Error);
}

#[test]
fn toggle_during_processing_is_rejected_not_queued() {
    let mut orch = idle_orchestrator(false);
    assert!(orch.handle_start(params(), true, false, 0).ok);
    let (r, _job) = orch.handle_stop();
    assert!(r.ok);
    let (rejected, job) = orch.handle_toggle(params(), true, false, 100);
    assert!(!rejected.ok);
    assert_eq!(rejected.msg, "already processing");
    assert!(job.is_none());
    assert_eq!(orch.state(), SessionState::Processing);
}

#[test]
fn dispatcher_routes_commands() {
    let mut orch = idle_orchestrator(false);
    let ctx = |now: u64| CommandContext { device_ok: true, stale_marker: false, now_ms: now, devices: None };

    let (r, job) = orch.handle_command(
        IpcCmd::Start { paste: false, prompt: None, direct_input: true },
        ctx(0),
    );
    assert!(r.ok);
    assert!(job.is_none());
    assert_eq!(orch.state(), SessionState::Recording);

    let (r, job) = orch.handle_command(IpcCmd::Stop, ctx(1_000));
    assert!(r.ok);
    let job = job.expect("stop leaves a job");
    assert!(job.params.direct_input);

    let (r, _job) = orch.handle_command(IpcCmd::Status, ctx(2_000));
    assert_eq!(r.msg, "Processing");

    let (r, _job) = orch.handle_command(IpcCmd::Health, ctx(3_000));
    assert!(r.ok);

    let (r, _job) = orch.handle_command(
        IpcCmd::ListDevices,
        CommandContext {
            device_ok: true,
            stale_marker: false,
            now_ms: 4_000,
            devices: Some(vec!["Mic".to_string()]),
        },
    );
    assert!(r.ok);
    assert_eq!(r.msg, "Mic");
}

#[test]
fn list_devices_joins_names_and_reports_host_failure() {
    let orch = idle_orchestrator(false);
    let r = orch.handle_list_devices(&Some(vec![
        "Built-in Microphone".to_string(),
        "USB Audio".to_string(),
    ]));
    assert!(r.ok);
    assert_eq!(r.msg, "Built-in Microphone\nUSB Audio");

    let r = orch.handle_list_devices(&None);
    assert!(!r.ok);
    assert_eq!(r.msg, "no input host available");
}
