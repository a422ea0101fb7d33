use scap::capturer::{
    create_capturer, launch_begin, launch_next, LaunchError, LaunchOutcome, LaunchTask,
    LinuxCapturer,
};
use scap::control::{
    state_changed_callback, CapturerState, EngineControl, Notice, StreamState,
};
use scap::negotiation::Options;
use scap::worker::{pipewire_capturer_begin, pipewire_capturer_next, CaptureTask};

const OPTIONS: Options = Options { fps: 25, show_cursor: true };

fn control(state: CapturerState, should_exit: bool) -> EngineControl {
    EngineControl { state, should_exit }
}

fn next(
    task: CaptureTask<u8>,
    outcome: Result<(), u8>,
    control: &EngineControl,
) -> CaptureTask<u8> {
    pipewire_capturer_next(task, outcome, control)
}

#[test]
fn a_stream_error_asks_for_exit_and_is_reported() {
    let mut c = control(CapturerState::Capturing, false);
    let notice = state_changed_callback(&mut c, StreamState::Error("gone".to_string()));
    assert_eq!(notice, Some(Notice::StreamError("gone".to_string())));
    assert_eq!(c, control(CapturerState::Capturing, true));
    // Reported again each time.
    let notice = state_changed_callback(&mut c, StreamState::Error(String::new()));
    assert_eq!(notice, Some(Notice::StreamError(String::new())));
}

#[test]
fn other_stream_states_change_nothing() {
    for should_exit in [false, true] {
        for state in [
            StreamState::Unconnected,
            StreamState::Connecting,
            StreamState::Paused,
            StreamState::Streaming,
        ] {
            let mut c = control(CapturerState::Idle, should_exit);
            assert_eq!(state_changed_callback(&mut c, state), None);
            assert_eq!(c, control(CapturerState::Idle, should_exit));
        }
    }
}

#[test]
fn raising_the_exit_flag_tells_whether_it_was_up() {
    let mut c = EngineControl::new();
    assert_eq!(c, EngineControl::default());
    assert!(!c.raise_exit());
    assert!(c.raise_exit());
    assert_eq!(c, control(CapturerState::Idle, true));
}

#[test]
fn a_worker_runs_from_set_up_to_stop() {
    let mut c = control(CapturerState::Idle, true);
    let task: CaptureTask<u8> = pipewire_capturer_begin(&mut c);
    assert_eq!(c, EngineControl::new());
    assert!(matches!(task, CaptureTask::SetUp));
    let task = next(task, Ok(()), &c);
    assert!(matches!(task, CaptureTask::AnnounceReady));
    let task = next(task, Ok(()), &c);
    assert!(matches!(task, CaptureTask::Sleep { millis: 10 }));
    let task = next(task, Ok(()), &c);
    assert!(matches!(task, CaptureTask::Sleep { millis: 10 }));

    let mut capturer = LinuxCapturer::new("thread", "bus");
    capturer.start_capture(&mut c);
    assert_eq!(c, control(CapturerState::Capturing, false));
    let task = next(task, Ok(()), &c);
    assert!(matches!(task, CaptureTask::Iterate { millis: 100 }));
    let task = next(task, Ok(()), &c);
    assert!(matches!(task, CaptureTask::Iterate { millis: 100 }));

    assert_eq!(capturer.stop_capture(&mut c), Some("thread"));
    assert_eq!(c, control(CapturerState::Stopping, false));
    let task = next(task, Ok(()), &c);
    assert!(matches!(task, CaptureTask::Return(Ok(()))));
    assert!(matches!(next(task, Err(1), &c), CaptureTask::Return(Ok(()))));
    assert_eq!(capturer.finish_stop::<u8>(&mut c, Some(Ok(()))), None);
    assert_eq!(c, EngineControl::new());
}

#[test]
fn a_failed_set_up_is_reported_and_returned() {
    let c = EngineControl::new();
    let task = next(CaptureTask::SetUp, Err(3), &c);
    assert!(matches!(task, CaptureTask::AnnounceFailure(3)));
    assert!(matches!(next(task, Ok(()), &c), CaptureTask::Return(Err(3))));
    // A report that fails takes the place of what it reports.
    let task = next(CaptureTask::AnnounceReady, Err(4), &c);
    assert!(matches!(task, CaptureTask::AnnounceFailure(4)));
    assert!(matches!(next(task, Err(5), &c), CaptureTask::Return(Err(5))));
}

#[test]
fn a_worker_that_was_never_started_can_be_stopped() {
    let mut c = EngineControl::new();
    let mut capturer = LinuxCapturer::new(1u8, ());
    assert_eq!(capturer.stop_capture(&mut c), Some(1));
    let task = next(CaptureTask::Sleep { millis: 10 }, Ok(()), &c);
    assert!(matches!(task, CaptureTask::Return(Ok(()))));
}

#[test]
fn stopping_twice_joins_once() {
    let mut c = EngineControl::new();
    let mut capturer = create_capturer(1u8, ());
    capturer.start_capture(&mut c);
    c.raise_exit();
    assert_eq!(capturer.stop_capture(&mut c), Some(1));
    assert_eq!(capturer.finish_stop(&mut c, Some(Err("broken"))), Some("broken"));
    assert_eq!(c, EngineControl::new());
    assert_eq!(capturer.stop_capture(&mut c), None);
    assert_eq!(c.state, CapturerState::Stopping);
    assert_eq!(capturer.finish_stop::<u8>(&mut c, None), None);
    assert_eq!(c, EngineControl::new());
}

#[test]
fn an_error_while_connecting_survives_the_start() {
    let mut c = control(CapturerState::Idle, false);
    let task: CaptureTask<u8> = pipewire_capturer_begin(&mut c);
    state_changed_callback(&mut c, StreamState::Connecting);
    state_changed_callback(&mut c, StreamState::Error("refused".to_string()));
    let task = next(next(task, Ok(()), &c), Ok(()), &c);
    assert!(matches!(task, CaptureTask::Sleep { .. }));
    let capturer = LinuxCapturer::new((), ());
    capturer.start_capture(&mut c);
    assert!(matches!(next(task, Ok(()), &c), CaptureTask::Return(Ok(()))));
}

#[test]
fn a_stale_state_does_not_let_a_new_worker_past_its_gate() {
    for stale in [CapturerState::Capturing, CapturerState::Stopping] {
        let mut c = control(stale, true);
        assert_eq!(launch_begin(&mut c), LaunchTask::Connect);
        assert_eq!(c, control(CapturerState::Idle, true));
        let task: CaptureTask<u8> = pipewire_capturer_begin(&mut c);
        let task = next(next(task, Ok(()), &c), Ok(()), &c);
        assert!(matches!(task, CaptureTask::Sleep { .. }));
    }
}

#[test]
fn a_main_loop_ends_when_the_state_leaves_capturing() {
    let idle = control(CapturerState::Idle, false);
    let task = next(CaptureTask::Iterate { millis: 100 }, Ok(()), &idle);
    assert!(matches!(task, CaptureTask::Return(Ok(()))));
    let exiting = control(CapturerState::Capturing, true);
    let task = next(CaptureTask::Iterate { millis: 100 }, Ok(()), &exiting);
    assert!(matches!(task, CaptureTask::Return(Ok(()))));
}

#[test]
fn a_launch_goes_step_by_step() {
    let mut c = EngineControl::new();
    let task = launch_begin(&mut c);
    let task = launch_next(task, &OPTIONS, LaunchOutcome::Done);
    assert_eq!(task, LaunchTask::SelectCursor { show_cursor: true });
    let task = launch_next(task, &OPTIONS, LaunchOutcome::Done);
    assert_eq!(task, LaunchTask::CreateStream);
    let task = launch_next(task, &OPTIONS, LaunchOutcome::Stream { node_id: 77 });
    assert_eq!(task, LaunchTask::Spawn { options: OPTIONS, stream_id: 77 });
    let task = launch_next(task, &OPTIONS, LaunchOutcome::Done);
    assert_eq!(task, LaunchTask::AwaitReady);
    let task = launch_next(task, &OPTIONS, LaunchOutcome::Word { ready: true });
    assert_eq!(task, LaunchTask::Finish(Ok(())));
}

#[test]
fn each_launch_step_has_its_own_failure() {
    let cases = [
        (LaunchTask::Connect, LaunchError::NoConnection, "Failed to create dbus connection"),
        (
            LaunchTask::SelectCursor { show_cursor: false },
            LaunchError::UnsupportedCursor,
            "Unsupported cursor mode",
        ),
        (LaunchTask::CreateStream, LaunchError::NoStream, "Failed to get screencast stream"),
        (LaunchTask::AwaitReady, LaunchError::NoAnswer, "Failed to receive"),
    ];
    for (task, error, message) in cases {
        let end = launch_next(task, &OPTIONS, LaunchOutcome::Failed);
        assert_eq!(end, LaunchTask::Finish(Err(error)));
        assert_eq!(launch_next(end, &OPTIONS, LaunchOutcome::Done), end);
        assert_eq!(error.message(), message);
    }
    let end = launch_next(LaunchTask::AwaitReady, &OPTIONS, LaunchOutcome::Word { ready: false });
    assert_eq!(end, LaunchTask::Finish(Err(LaunchError::SetupFailed)));
    assert_eq!(LaunchError::SetupFailed.message(), "Failed to setup capturer");
}
