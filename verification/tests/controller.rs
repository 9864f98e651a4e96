use stream_rotator::controller::BackendCommand;
use stream_rotator::controller::BackendEvent;
use stream_rotator::controller::BackendState;
use stream_rotator::controller::RotationController;

fn sources(urls: &[&str]) -> Vec<String> {
    urls.iter().map(|u| u.to_string()).collect()
}

#[test]
fn initialize_targets_first_source() {
    let (controller, commands) = RotationController::initialize(sources(&["u1", "u2"]));
    assert_eq!(controller.current_index(), 0);
    assert_eq!(controller.current_source().as_str(), "u1");
    assert_eq!(controller.source_count(), 2);
    assert!(controller.active());
    assert!(!controller.shutdown_requested());
    assert_eq!(
        commands,
        vec![
            BackendCommand::SetTarget("u1".to_string()),
            BackendCommand::SetState(BackendState::Playing),
        ]
    );
}

#[test]
fn single_source_disables_rotation() {
    let (controller, _) = RotationController::initialize(sources(&["solo"]));
    assert!(!controller.rotation_enabled());
    assert_eq!(controller.current_index(), 0);
}

#[test]
fn two_sources_enable_rotation() {
    let (controller, _) = RotationController::initialize(sources(&["a", "b"]));
    assert!(controller.rotation_enabled());
}

#[test]
fn tick_switches_to_second_source_and_back() {
    let (mut controller, _) = RotationController::initialize(sources(&["A", "B"]));
    let commands = controller.on_timer_tick();
    assert_eq!(controller.current_index(), 1);
    assert_eq!(
        commands,
        vec![
            BackendCommand::SetState(BackendState::Ready),
            BackendCommand::SetTarget("B".to_string()),
            BackendCommand::SetState(BackendState::Playing),
        ]
    );
    let commands = controller.on_timer_tick();
    assert_eq!(controller.current_index(), 0);
    assert_eq!(
        commands,
        vec![
            BackendCommand::SetState(BackendState::Ready),
            BackendCommand::SetTarget("A".to_string()),
            BackendCommand::SetState(BackendState::Playing),
        ]
    );
}

#[test]
fn rotation_visits_indices_cyclically() {
    let (mut controller, _) = RotationController::initialize(sources(&["x", "y", "z"]));
    let mut seen = Vec::new();
    for _ in 0..7 {
        controller.on_timer_tick();
        seen.push(controller.current_index());
    }
    assert_eq!(seen, vec![1, 2, 0, 1, 2, 0, 1]);
}

#[test]
fn end_of_stream_requests_shutdown_once() {
    let (mut controller, _) = RotationController::initialize(sources(&["a", "b"]));
    let first = controller.on_backend_event(BackendEvent::EndOfStream);
    assert!(first.quit);
    assert!(first.detail.is_none());
    assert!(controller.shutdown_requested());
    assert!(controller.clean());
    let second = controller.on_backend_event(BackendEvent::EndOfStream);
    assert!(!second.quit);
    assert!(second.detail.is_none());
    assert!(controller.shutdown_requested());
    assert!(controller.clean());
}

#[test]
fn error_event_surfaces_detail_and_marks_failure() {
    let (mut controller, _) = RotationController::initialize(sources(&["a"]));
    let outcome = controller.on_backend_event(BackendEvent::Error("decode failed".to_string()));
    assert!(outcome.quit);
    assert_eq!(outcome.detail.as_deref(), Some("decode failed"));
    assert!(controller.shutdown_requested());
    assert!(!controller.clean());
}

#[test]
fn event_after_shutdown_is_a_no_op() {
    let (mut controller, _) = RotationController::initialize(sources(&["a"]));
    controller.on_backend_event(BackendEvent::EndOfStream);
    let late = controller.on_backend_event(BackendEvent::Error("too late".to_string()));
    assert!(!late.quit);
    assert!(late.detail.is_none());
    assert!(controller.clean());
}

#[test]
fn other_events_are_ignored() {
    let (mut controller, _) = RotationController::initialize(sources(&["a", "b"]));
    let outcome = controller.on_backend_event(BackendEvent::Other);
    assert!(!outcome.quit);
    assert!(outcome.detail.is_none());
    assert!(!controller.shutdown_requested());
    assert!(controller.active());
}

#[test]
fn teardown_releases_backend() {
    let (mut controller, _) = RotationController::initialize(sources(&["a"]));
    let commands = controller.teardown();
    assert_eq!(commands, vec![BackendCommand::SetState(BackendState::Null)]);
    assert!(!controller.active());
}

#[test]
fn teardown_twice_is_idempotent() {
    let (mut controller, _) = RotationController::initialize(sources(&["a", "b"]));
    let first = controller.teardown();
    let second = controller.teardown();
    assert_eq!(first, second);
    assert!(!controller.active());
    assert_eq!(controller.current_index(), 0);
}

#[test]
fn teardown_after_error_still_releases() {
    let (mut controller, _) = RotationController::initialize(sources(&["a"]));
    controller.on_backend_event(BackendEvent::Error("gone".to_string()));
    let commands = controller.teardown();
    assert_eq!(commands, vec![BackendCommand::SetState(BackendState::Null)]);
    assert!(!controller.clean());
}
