//! The media control service driven through its test double.

use voice_input::media::MediaControlService;
use voice_input::media::MediaError;
use voice_input::media::MockMediaController;

#[test]
fn test_pause_if_playing_when_playing() {
    let controller = MockMediaController::new(true);
    let mut service = MediaControlService::with_controller(controller);

    let was_playing = service.pause_if_playing().unwrap();
    assert!(was_playing);
    assert!(service.is_paused_by_recording().unwrap());
}

#[test]
fn test_pause_if_playing_when_not_playing() {
    let controller = MockMediaController::new(false);
    let mut service = MediaControlService::with_controller(controller);

    let was_playing = service.pause_if_playing().unwrap();
    assert!(!was_playing);
    assert!(!service.is_paused_by_recording().unwrap());
}

#[test]
fn test_resume_if_paused() {
    let controller = MockMediaController::new(true);
    let mut service = MediaControlService::with_controller(controller);

    service.pause_if_playing().unwrap();
    assert!(!service.player().playing);

    service.resume_if_paused().unwrap();
    assert!(service.player().playing);
    assert!(!service.is_paused_by_recording().unwrap());
}

#[test]
fn test_resume_if_paused_when_not_paused() {
    let controller = MockMediaController::new(false);
    let mut service = MediaControlService::with_controller(controller);

    service.resume_if_paused().unwrap();
    assert!(!service.player().playing);
}

#[test]
fn second_resume_is_a_no_op() {
    let controller = MockMediaController::new(true);
    let mut service = MediaControlService::with_controller(controller);

    service.pause_if_playing().unwrap();
    service.resume_if_paused().unwrap();
    assert!(service.player().playing);
    assert!(!service.is_paused_by_recording().unwrap());

    service.resume_if_paused().unwrap();
    assert!(service.player().playing);
    assert!(!service.is_paused_by_recording().unwrap());
}

#[test]
fn reset_clears_the_flag_without_resuming() {
    let controller = MockMediaController::new(true);
    let mut service = MediaControlService::with_controller(controller);

    service.pause_if_playing().unwrap();
    service.reset().unwrap();
    assert!(!service.is_paused_by_recording().unwrap());
    assert!(!service.player().playing);
}

#[test]
fn new_service_has_nothing_playing_or_paused() {
    let service = MediaControlService::new();
    assert!(!service.is_paused_by_recording().unwrap());
    assert!(!service.player().playing);
}

#[test]
fn media_error_message_names_the_failure() {
    let e = MediaError::ControlFailed("player gone".to_string());
    assert_eq!(e.message(), "media control failed: player gone");
}
