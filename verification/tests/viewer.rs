use simulang_log_viewer::ipc::FromParent;
use simulang_log_viewer::platform::TargetOs;
use simulang_log_viewer::window::WindowState;
use simulang_log_viewer::viewer::{
    background_alpha, grab_hotkey_label, grab_toggled, status_color, status_text, FrameStart,
    GrabPlan, GrabState, HotkeyEvent, LogState,
};

fn log(msg: &str) -> FromParent {
    FromParent::Log { message: String::from(msg) }
}

#[test]
fn log_lines_are_appended() {
    let mut s = LogState::new();
    assert!(s.apply(log("a")));
    assert!(s.apply(log("b")));
    assert_eq!(s.messages, vec![String::from("a"), String::from("b")]);
    assert!(!s.should_close);
}

#[test]
fn clear_then_log() {
    let mut s = LogState::new();
    s.apply(log("a"));
    s.apply(log("b"));
    assert!(s.apply(FromParent::Clear));
    assert!(s.messages.is_empty());
    s.apply(log("c"));
    assert_eq!(s.messages, vec![String::from("c")]);
}

#[test]
fn close_stops_reading_and_closes_the_window() {
    let mut s = LogState::new();
    s.apply(log("a"));
    assert!(!s.apply(FromParent::Close));
    assert!(s.should_close);
    assert_eq!(s.messages, vec![String::from("a")]);
    assert_eq!(
        s.start_frame(),
        FrameStart { install_capture_exclusion: true, close_window: true }
    );
}

#[test]
fn input_end_closes_the_window() {
    let mut s = LogState::new();
    assert_eq!(
        s.start_frame(),
        FrameStart { install_capture_exclusion: true, close_window: false }
    );
    s.on_input_end();
    assert_eq!(
        s.start_frame(),
        FrameStart { install_capture_exclusion: false, close_window: true }
    );
}

#[test]
fn capture_exclusion_is_installed_once() {
    let mut s = LogState::new();
    assert!(s.start_frame().install_capture_exclusion);
    assert!(!s.start_frame().install_capture_exclusion);
    assert!(!s.start_frame().install_capture_exclusion);
}

#[test]
fn presses_collapse_to_one_toggle() {
    let events = vec![
        HotkeyEvent { id: 7, pressed: true },
        HotkeyEvent { id: 7, pressed: false },
        HotkeyEvent { id: 7, pressed: true },
    ];
    assert!(grab_toggled(&events, 7));
}

#[test]
fn other_hotkeys_and_releases_do_not_toggle() {
    let events = vec![HotkeyEvent { id: 8, pressed: true }, HotkeyEvent { id: 7, pressed: false }];
    assert!(!grab_toggled(&events, 7));
    assert!(!grab_toggled(&Vec::new(), 7));
}

#[test]
fn grab_then_release() {
    let mut g = GrabState::new();
    assert_eq!(
        g.on_frame(false),
        GrabPlan { set_passthrough: None, focus: false, report_paused: None }
    );
    assert_eq!(
        g.on_frame(true),
        GrabPlan { set_passthrough: Some(false), focus: true, report_paused: Some(true) }
    );
    assert!(g.is_grabbed);
    assert_eq!(
        g.on_frame(false),
        GrabPlan { set_passthrough: None, focus: false, report_paused: None }
    );
    assert_eq!(
        g.on_frame(true),
        GrabPlan { set_passthrough: Some(true), focus: false, report_paused: Some(false) }
    );
    assert_eq!(g, GrabState::new());
}

#[test]
fn labels_per_platform() {
    assert_eq!(grab_hotkey_label(TargetOs::MacOs), "Ctrl+Shift+Option+L");
    assert_eq!(grab_hotkey_label(TargetOs::Windows), "Ctrl+Shift+Alt+L");
    assert_eq!(grab_hotkey_label(TargetOs::Other), "Ctrl+Shift+Alt+L");
}

#[test]
fn status_texts() {
    assert_eq!(
        status_text(true, TargetOs::MacOs),
        "GRABBED — drag to move • Ctrl+Shift+Option+L to release"
    );
    assert_eq!(
        status_text(false, TargetOs::Other),
        "CLICKS PASS THROUGH — Ctrl+Shift+Alt+L to grab & pause"
    );
}

#[test]
fn style_per_grab_state() {
    assert_eq!(status_color(true), (140, 70, 0));
    assert_eq!(status_color(false), (30, 30, 30));
    assert_eq!(background_alpha(true), 250);
    assert_eq!(background_alpha(false), 200);
}

#[test]
fn host_pause_follows_viewer_grab() {
    let mut host = WindowState::new();
    host.attach_child(true).unwrap();
    let mut viewer = GrabState::new();
    let plan = viewer.on_frame(true);
    let reported = plan.report_paused.unwrap();
    assert!(host.on_pause_state(reported).is_some());
    assert_eq!(host.is_paused(), viewer.is_grabbed);
    let plan = viewer.on_frame(true);
    host.on_pause_state(plan.report_paused.unwrap());
    assert_eq!(host.is_paused(), viewer.is_grabbed);
    assert!(!host.must_wait());
}
