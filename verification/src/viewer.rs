//! Viewer-side logic: the log it displays, driven by the host's messages,
//! and the grab state, driven by the global grab hotkey. The GUI toolkit
//! runs a frame loop and asks these state machines what to do each frame.
use vstd::prelude::*;

use crate::ipc::FromParent;
use crate::platform::TargetOs;

verus! {

/// The abstract content of a `LogState`.
pub struct LogModel {
    pub messages: Seq<String>,
    pub should_close: bool,
    pub initialized: bool,
}

/// State shared between the thread reading the host's messages and the
/// frame loop.
pub struct LogState {
    /// The lines displayed, oldest first.
    pub messages: Vec<String>,
    /// Set by a close request or by the end of the host's messages; the
    /// frame loop then closes the window.
    pub should_close: bool,
    /// Set once the first frame has run.
    pub initialized: bool,
}

impl View for LogState {
    type V = LogModel;

    open spec fn view(&self) -> LogModel {
        LogModel { messages: self.messages@, should_close: self.should_close, initialized: self.initialized }
    }
}

impl LogModel {
    pub open spec fn initial() -> LogModel {
        LogModel { messages: Seq::empty(), should_close: false, initialized: false }
    }

    /// The state after one message from the host.
    pub open spec fn after_message(self, msg: FromParent) -> LogModel {
        match msg {
            FromParent::Log { message } => LogModel { messages: self.messages.push(message), ..self },
            FromParent::Clear => LogModel { messages: Seq::empty(), ..self },
            FromParent::Close => LogModel { should_close: true, ..self },
        }
    }

    /// Whether the reader goes on reading after this message.
    pub open spec fn keeps_reading(msg: FromParent) -> bool {
        !(msg is Close)
    }

    pub open spec fn after_input_end(self) -> LogModel {
        LogModel { should_close: true, ..self }
    }

    pub open spec fn frame_start(self) -> FrameStart {
        FrameStart { install_capture_exclusion: !self.initialized, close_window: self.should_close }
    }

    pub open spec fn after_frame_start(self) -> LogModel {
        LogModel { initialized: true, ..self }
    }
}

/// What the frame loop does first in each frame.
#[derive(Clone, Copy, Debug, PartialEq, Eq)]
pub struct FrameStart {
    /// This is the first frame: the window now exists, and it is excluded
    /// from screen capture.
    pub install_capture_exclusion: bool,
    /// The window is to close; nothing else happens in this frame.
    pub close_window: bool,
}

impl LogState {
    /// An empty log, open, before the first frame.
    pub fn new() -> (s: LogState)
        ensures
            s@ == LogModel::initial(),
    {
        LogState { messages: Vec::new(), should_close: false, initialized: false }
    }

    /// Apply one message from the host: a log line is appended, a clear
    /// drops all lines, a close request marks the window for closing.
    /// Returns whether to keep reading the host's messages (not after a
    /// close request).
    pub fn apply(&mut self, msg: FromParent) -> (keep_reading: bool)
        ensures
            final(self)@ == old(self)@.after_message(msg),
            keep_reading == LogModel::keeps_reading(msg),
    {
        match msg {
            FromParent::Log { message } => {
                self.messages.push(message);
                true
            },
            FromParent::Clear => {
                self.messages.clear();
                true
            },
            FromParent::Close => {
                self.should_close = true;
                false
            },
        }
    }

    /// The host's messages ended (the host died or asked to close): the
    /// window is to close.
    pub fn on_input_end(&mut self)
        ensures
            final(self)@ == old(self)@.after_input_end(),
    {
        self.should_close = true;
    }

    /// Start a frame: note that a frame has run, and say whether this is
    /// the first one and whether the window is to close.
    pub fn start_frame(&mut self) -> (step: FrameStart)
        ensures
            step == old(self)@.frame_start(),
            final(self)@ == old(self)@.after_frame_start(),
    {
        let first = !self.initialized;
        self.initialized = true;
        FrameStart { install_capture_exclusion: first, close_window: self.should_close }
    }
}

/// A global hotkey event, as the hotkey library reports it: the id of the
/// hotkey and whether the key went down.
#[derive(Clone, Copy, Debug, PartialEq, Eq)]
pub struct HotkeyEvent {
    pub id: u32,
    pub pressed: bool,
}

pub open spec fn grab_pressed_in(events: Seq<HotkeyEvent>, grab_id: u32) -> bool {
    exists|i: int| 0 <= i < events.len() && #[trigger] events[i].id == grab_id && events[i].pressed
}

/// Whether the grab hotkey went down in the events drained during one
/// frame. Several presses in one frame count as one toggle.
pub fn grab_toggled(events: &Vec<HotkeyEvent>, grab_id: u32) -> (toggled: bool)
    ensures
        toggled == grab_pressed_in(events@, grab_id),
{
    let mut toggled = false;
    let mut i: usize = 0;
    while i < events.len()
        invariant
            i <= events@.len(),
            toggled == exists|j: int| 0 <= j < i && #[trigger] events@[j].id == grab_id && events@[j].pressed,
        decreases events@.len() - i,
    {
        let event = events[i];
        if event.id == grab_id && event.pressed {
            toggled = true;
        }
        i = i + 1;
    }
    toggled
}

/// What the frame loop does with the window after the grab hotkey was
/// handled.
#[derive(Clone, Copy, Debug, PartialEq, Eq)]
pub struct GrabPlan {
    /// New mouse pass-through setting of the window, if it changes.
    pub set_passthrough: Option<bool>,
    /// Bring the window forward.
    pub focus: bool,
    /// Pause state to report to the host, if it changed since last reported.
    pub report_paused: Option<bool>,
}

/// Whether the user has grabbed the window, and what the host last heard.
#[derive(Clone, Copy, Debug, PartialEq, Eq)]
pub struct GrabState {
    /// The window is grabbed: interactive, draggable, and execution paused.
    pub is_grabbed: bool,
    /// The pause state last reported to the host.
    pub last_paused_sent: bool,
}

impl GrabState {
    pub open spec fn after_frame(self, toggled: bool) -> GrabState {
        let grabbed = if toggled {
            !self.is_grabbed
        } else {
            self.is_grabbed
        };
        GrabState { is_grabbed: grabbed, last_paused_sent: grabbed }
    }

    pub open spec fn frame_plan(self, toggled: bool) -> GrabPlan {
        let grabbed = self.after_frame(toggled).is_grabbed;
        GrabPlan {
            set_passthrough: if toggled {
                Some(!grabbed)
            } else {
                None
            },
            focus: toggled && grabbed,
            report_paused: if grabbed != self.last_paused_sent {
                Some(grabbed)
            } else {
                None
            },
        }
    }

    /// Not grabbed, and the host knows execution is not paused.
    pub fn new() -> (s: GrabState)
        ensures
            !s.is_grabbed,
            !s.last_paused_sent,
    {
        GrabState { is_grabbed: false, last_paused_sent: false }
    }

    /// One frame: a hotkey press toggles the grab. Pass-through is the
    /// inverse of the grab; grabbing brings the window forward. Being
    /// grabbed is being paused, and the host hears of each change once.
    pub fn on_frame(&mut self, toggled: bool) -> (plan: GrabPlan)
        ensures
            plan == old(self).frame_plan(toggled),
            *final(self) == old(self).after_frame(toggled),
    {
        let mut set_passthrough = None;
        let mut focus = false;
        if toggled {
            self.is_grabbed = !self.is_grabbed;
            set_passthrough = Some(!self.is_grabbed);
            if self.is_grabbed {
                focus = true;
            }
        }
        let effective_paused = self.is_grabbed;
        let mut report_paused = None;
        if effective_paused != self.last_paused_sent {
            self.last_paused_sent = effective_paused;
            report_paused = Some(effective_paused);
        }
        GrabPlan { set_passthrough, focus, report_paused }
    }
}

/// How the grab hotkey is written in the window, per platform.
pub open spec fn grab_hotkey_label_spec(os: TargetOs) -> Seq<char> {
    match os {
        TargetOs::MacOs => "Ctrl+Shift+Option+L"@,
        _ => "Ctrl+Shift+Alt+L"@,
    }
}

/// How the grab hotkey is written in the window: the Alt key is called
/// Option on macOS.
pub fn grab_hotkey_label(os: TargetOs) -> (label: &'static str)
    ensures
        label@ == grab_hotkey_label_spec(os),
{
    match os {
        TargetOs::MacOs => "Ctrl+Shift+Option+L",
        _ => "Ctrl+Shift+Alt+L",
    }
}

pub open spec fn status_text_spec(grabbed: bool, os: TargetOs) -> Seq<char> {
    if grabbed {
        "GRABBED — drag to move • "@ + grab_hotkey_label_spec(os) + " to release"@
    } else {
        "CLICKS PASS THROUGH — "@ + grab_hotkey_label_spec(os) + " to grab & pause"@
    }
}

/// The hint shown in the window's title row: how to leave the grab while
/// grabbed; otherwise that clicks pass through and how to grab.
pub fn status_text(grabbed: bool, os: TargetOs) -> (text: String)
    ensures
        text@ == status_text_spec(grabbed, os),
{
    let label = grab_hotkey_label(os);
    if grabbed {
        let mut text = String::from_str("GRABBED — drag to move • ");
        text.append(label);
        text.append(" to release");
        text
    } else {
        let mut text = String::from_str("CLICKS PASS THROUGH — ");
        text.append(label);
        text.append(" to grab & pause");
        text
    }
}

/// Colour of the hint, as red, green, blue: orange while grabbed, dark
/// grey otherwise.
pub fn status_color(grabbed: bool) -> (rgb: (u8, u8, u8))
    ensures
        rgb == (if grabbed {
            (140u8, 70u8, 0u8)
        } else {
            (30u8, 30u8, 30u8)
        }),
{
    if grabbed {
        (140, 70, 0)
    } else {
        (30, 30, 30)
    }
}

/// Opacity of the window's background: nearly opaque while grabbed, more
/// transparent otherwise.
pub fn background_alpha(grabbed: bool) -> (alpha: u8)
    ensures
        alpha == (if grabbed {
            250u8
        } else {
            200u8
        }),
{
    if grabbed {
        250
    } else {
        200
    }
}

/// Pressing the grab hotkey twice gives the window back as it was: not
/// grabbed, click-through, and the host told that execution resumed.
pub proof fn law_second_press_releases(s: GrabState)
    requires
        !s.is_grabbed,
        s.last_paused_sent == s.is_grabbed,
    ensures
        s.after_frame(true).is_grabbed,
        s.frame_plan(true) == (GrabPlan { set_passthrough: Some(false), focus: true, report_paused: Some(true) }),
        s.after_frame(true).after_frame(true) == s,
        s.after_frame(true).frame_plan(true) == (GrabPlan { set_passthrough: Some(true), focus: false, report_paused: Some(false) }),
{
}

/// Grab is pause, and the host hears of each change once: after any frame
/// the reported state is the grab state, and a frame without a press
/// reports nothing and changes nothing.
pub proof fn law_pause_reported_once(s: GrabState, toggled: bool)
    ensures
        s.after_frame(toggled).last_paused_sent == s.after_frame(toggled).is_grabbed,
        s.after_frame(toggled).frame_plan(false) == (GrabPlan { set_passthrough: None, focus: false, report_paused: None }),
        s.after_frame(toggled).after_frame(false) == s.after_frame(toggled),
{
}

/// The window closes after a close request or the end of the host's
/// messages: the next frame closes it, whatever came before.
pub proof fn law_close_request_closes_window(m: LogModel, later: FromParent)
    ensures
        m.after_message(FromParent::Close).frame_start().close_window,
        !LogModel::keeps_reading(FromParent::Close),
        m.after_input_end().frame_start().close_window,
        m.after_message(FromParent::Close).after_message(later).frame_start().close_window,
{
}

/// A clear empties the display; lines logged after it are all that is
/// shown.
pub proof fn law_clear_then_log(m: LogModel, line: String)
    ensures
        m.after_message(FromParent::Clear).messages.len() == 0,
        m.after_message(FromParent::Clear).after_message(FromParent::Log { message: line }).messages == seq![line],
{
    assert(m.after_message(FromParent::Clear).after_message(FromParent::Log { message: line }).messages =~= seq![line]);
}

/// Capture exclusion is installed once: only the first frame asks for it.
pub proof fn law_capture_exclusion_once(m: LogModel)
    ensures
        !m.after_frame_start().frame_start().install_capture_exclusion,
        LogModel::initial().frame_start().install_capture_exclusion,
{
}

/// A logged line is always shown: applying a log message appends exactly
/// that message at the end, keeps every earlier line, and leaves the close
/// and frame state alone, whatever the previous lines were (the same line
/// twice is shown twice).
pub proof fn law_log_appends_every_line(m: LogModel, message: String)
    ensures
        ({
            let after = m.after_message(FromParent::Log { message });
            &&& after.messages.len() == m.messages.len() + 1
            &&& after.messages[m.messages.len() as int] == message
            &&& forall|i: int| 0 <= i < m.messages.len() ==> after.messages[i] == m.messages[i]
            &&& after.should_close == m.should_close
            &&& after.initialized == m.initialized
            &&& LogModel::keeps_reading(FromParent::Log { message })
        }),
        m.after_message(FromParent::Log { message }).after_message(FromParent::Log { message }).messages.len()
            == m.messages.len() + 2,
{
}

/// The grab toggles when the grab hotkey went down at least once among the
/// events of a frame, whatever their order: no event toggles an empty
/// frame, and adding one event toggles exactly when it is a key-down of the
/// grab hotkey or the frame already toggled (a release never undoes a
/// press).
pub proof fn law_grab_press_is_never_lost(events: Seq<HotkeyEvent>, event: HotkeyEvent, grab_id: u32)
    ensures
        !grab_pressed_in(Seq::empty(), grab_id),
        grab_pressed_in(events.push(event), grab_id) == (grab_pressed_in(events, grab_id) || (event.id
            == grab_id && event.pressed)),
        grab_pressed_in(seq![event], grab_id) == (event.id == grab_id && event.pressed),
{
    let pushed = events.push(event);
    if grab_pressed_in(events, grab_id) {
        let i = choose|i: int| 0 <= i < events.len() && #[trigger] events[i].id == grab_id && events[i].pressed;
        assert(pushed[i] == events[i]);
    }
    if event.id == grab_id && event.pressed {
        assert(pushed[events.len() as int] == event);
    }
    if grab_pressed_in(pushed, grab_id) {
        let i = choose|i: int| 0 <= i < pushed.len() && #[trigger] pushed[i].id == grab_id && pushed[i].pressed;
        if i < events.len() {
            assert(events[i] == pushed[i]);
        }
    }
    let single = seq![event];
    if event.id == grab_id && event.pressed {
        assert(single[0] == event);
    }
}

/// The hint says what the window is doing, on every platform: while grabbed
/// it says how to release, otherwise that clicks pass through and how to
/// grab; the platform only picks the key label, and the two hints differ.
pub proof fn law_hint_follows_the_grab(os: TargetOs)
    ensures
        status_text_spec(true, os) == "GRABBED — drag to move • "@ + grab_hotkey_label_spec(os) + " to release"@,
        status_text_spec(false, os) == "CLICKS PASS THROUGH — "@ + grab_hotkey_label_spec(os) + " to grab & pause"@,
        status_text_spec(true, TargetOs::Windows) == status_text_spec(true, TargetOs::Other),
        status_text_spec(false, TargetOs::Windows) == status_text_spec(false, TargetOs::Other),
        status_text_spec(true, os) != status_text_spec(false, os),
{
    reveal_strlit("GRABBED — drag to move • ");
    reveal_strlit("CLICKS PASS THROUGH — ");
    assert(status_text_spec(true, os)[0] == 'G');
    assert(status_text_spec(false, os)[0] == 'C');
}

} // verus!
