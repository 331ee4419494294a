use simulang_log_viewer::ipc::{FromChild, FromParent};
use simulang_log_viewer::window::{user_close_line, PauseChange, PauseNote, ReaderEffect, WindowError, WindowState};

fn spawned() -> WindowState {
    let mut s = WindowState::new();
    assert_eq!(s.attach_child(true), Ok(()));
    s
}

#[test]
fn fresh_window() {
    let s = WindowState::new();
    assert!(!s.is_paused());
    assert!(!s.must_wait());
    assert!(!s.spawned && !s.child_attached && !s.closed && !s.close_requested);
    assert_eq!(s.check_spawn(), Ok(()));
}

#[test]
fn spawn_twice_is_refused() {
    let mut s = spawned();
    let before = s;
    assert_eq!(s.check_spawn(), Err(WindowError::AlreadySpawned));
    assert_eq!(s.attach_child(false), Err(WindowError::AlreadySpawned));
    assert_eq!(s, before);
    assert!(s.stdin_open);
}

#[test]
fn spawn_after_close_is_refused() {
    let mut s = spawned();
    assert_eq!(s.begin_close(), Ok(()));
    assert!(s.take_child());
    s.finish_close();
    assert_eq!(s.check_spawn(), Err(WindowError::AlreadySpawned));
    assert_eq!(s.attach_child(true), Err(WindowError::AlreadySpawned));
    assert!(!s.child_attached);
}

#[test]
fn spawn_after_viewer_exit_is_refused() {
    let mut s = spawned();
    s.on_viewer_exit();
    assert_eq!(s.check_spawn(), Err(WindowError::AlreadySpawned));
}

#[test]
fn send_before_spawn_fails() {
    let s = WindowState::new();
    assert_eq!(s.check_send(), Err(WindowError::NotSpawned));
    assert!(!s.accepts_lossy_send());
}

#[test]
fn send_without_stdin_fails() {
    let mut s = WindowState::new();
    s.attach_child(false).unwrap();
    assert_eq!(s.check_send(), Err(WindowError::StdinUnavailable));
    assert!(!s.accepts_lossy_send());
}

#[test]
fn send_to_a_running_viewer() {
    let s = spawned();
    assert_eq!(s.check_send(), Ok(()));
    assert!(s.accepts_lossy_send());
}

#[test]
fn closed_window_drops_messages() {
    let mut s = spawned();
    assert!(s.on_viewer_exit());
    assert!(!s.accepts_lossy_send());
    assert_eq!(s.check_send(), Err(WindowError::Closed));
}

#[test]
fn pause_transitions_are_announced_once() {
    let mut s = spawned();
    assert_eq!(
        s.on_pause_state(true),
        Some(PauseNote { change: PauseChange::Paused, forward_to_viewer: true })
    );
    assert!(s.is_paused());
    assert!(s.must_wait());
    assert_eq!(s.on_pause_state(true), None);
    assert!(s.is_paused());
    assert_eq!(
        s.on_pause_state(false),
        Some(PauseNote { change: PauseChange::Resumed, forward_to_viewer: true })
    );
    assert!(!s.must_wait());
}

#[test]
fn initial_resume_report_is_quiet() {
    let mut s = spawned();
    assert_eq!(s.on_pause_state(false), None);
}

#[test]
fn pause_note_is_not_forwarded_without_a_viewer() {
    let mut s = WindowState::new();
    assert_eq!(
        s.on_pause_state(true),
        Some(PauseNote { change: PauseChange::Paused, forward_to_viewer: false })
    );
}

#[test]
fn viewer_exit_releases_waiters() {
    let mut s = spawned();
    s.on_pause_state(true);
    assert!(s.must_wait());
    assert!(s.on_viewer_exit());
    assert!(!s.must_wait());
    assert!(!s.is_paused());
    assert!(s.closed);
}

#[test]
fn closed_window_never_waits() {
    let mut s = spawned();
    s.on_viewer_exit();
    s.on_pause_state(true);
    assert!(s.is_paused());
    assert!(!s.must_wait());
}

#[test]
fn programmatic_close_is_not_announced() {
    let mut s = spawned();
    s.on_pause_state(true);
    assert_eq!(s.begin_close(), Ok(()));
    assert!(s.close_requested);
    assert!(s.take_child());
    assert!(!s.child_attached);
    s.finish_close();
    assert!(s.closed && !s.is_paused() && !s.must_wait());
    assert!(!s.on_viewer_exit());
}

#[test]
fn close_request_alone_is_not_announced() {
    let mut s = spawned();
    assert_eq!(s.begin_close(), Ok(()));
    assert!(!s.on_viewer_exit());
}

#[test]
fn exit_after_close_is_not_announced_twice() {
    let mut s = spawned();
    assert!(s.on_viewer_exit());
    assert!(!s.on_viewer_exit());
}

#[test]
fn close_without_viewer_reports_and_closes() {
    let mut s = WindowState::new();
    assert_eq!(s.begin_close(), Err(WindowError::NotSpawned));
    assert!(!s.take_child());
    s.finish_close();
    assert!(s.closed && !s.must_wait());
}

#[test]
fn spawn_after_close_without_viewer_is_refused() {
    let mut s = WindowState::new();
    let _ = s.begin_close();
    s.take_child();
    s.finish_close();
    assert_eq!(s.check_spawn(), Err(WindowError::Closed));
    let before = s;
    assert_eq!(s.attach_child(true), Err(WindowError::Closed));
    assert_eq!(s, before);
}

#[test]
fn close_after_user_closed_reports_closed() {
    let mut s = spawned();
    assert!(s.on_viewer_exit());
    assert_eq!(s.begin_close(), Err(WindowError::Closed));
    assert!(s.take_child());
    s.finish_close();
    assert!(s.closed);
}

#[test]
fn undecodable_lines_change_nothing() {
    let mut s = spawned();
    let before = s;
    assert_eq!(s.on_viewer_message(None), ReaderEffect { note: None, wake_waiters: false });
    assert_eq!(s, before);
    assert_eq!(
        s.on_viewer_message(Some(FromChild::State { paused: true })),
        ReaderEffect {
            note: Some(PauseNote { change: PauseChange::Paused, forward_to_viewer: true }),
            wake_waiters: true
        }
    );
    let paused = s;
    assert_eq!(s.on_viewer_message(None), ReaderEffect { note: None, wake_waiters: false });
    assert_eq!(s, paused);
    assert_eq!(
        s.on_viewer_message(Some(FromChild::State { paused: true })),
        ReaderEffect { note: None, wake_waiters: true }
    );
}

#[test]
fn send_after_take_fails() {
    let mut s = spawned();
    s.take_child();
    assert_eq!(s.check_send(), Err(WindowError::NotSpawned));
}

#[test]
fn error_messages() {
    assert_eq!(WindowError::Closed.message(), "LogWindow has been closed");
    assert_eq!(WindowError::NotSpawned.message(), "LogWindow not spawned — call spawn() first");
    assert_eq!(WindowError::StdinUnavailable.message(), "viewer stdin not available");
    assert_eq!(
        WindowError::AlreadySpawned.message(),
        "LogWindow already spawned — construct a new instance to reopen"
    );
    assert_eq!(WindowError::StdoutNotPiped.message(), "viewer stdout was not piped");
    assert_eq!(
        WindowError::ViewerNotFound.message(),
        "could not locate the simulang-log-viewer binary next to the loaded .node file (cdylib path discovery failed)"
    );
}

#[test]
fn error_messages_with_details() {
    let d = String::from("broken pipe");
    assert_eq!(WindowError::Write { detail: d.clone() }.message(), "write: broken pipe");
    assert_eq!(WindowError::Serialize { detail: d.clone() }.message(), "serialize: broken pipe");
    assert_eq!(
        WindowError::Poisoned { detail: d.clone() }.message(),
        "LogWindow state poisoned: broken pipe"
    );
    assert_eq!(
        WindowError::SpawnFailed { path: String::from("\"/x/viewer\""), detail: d }.message(),
        "failed to spawn viewer at \"/x/viewer\": broken pipe"
    );
}

#[test]
fn transition_lines() {
    assert_eq!(PauseChange::Paused.log_line(), "[INFO] Paused by user");
    assert_eq!(PauseChange::Resumed.log_line(), "[INFO] Resumed by user");
    assert_eq!(user_close_line(), "[INFO] Resume: Log window closed by user");
    match PauseChange::Resumed.viewer_message() {
        FromParent::Log { message } => assert_eq!(message, "[INFO] Resumed by user"),
        other => panic!("unexpected {:?}", other),
    }
}
