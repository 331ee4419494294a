//! Host-side state of a log window: whether the viewer process was
//! spawned, whether execution is paused, whether the viewer has closed and
//! whether the host asked it to close. The host drives these transitions
//! around its process and pipe operations, under one lock.
use vstd::prelude::*;

use crate::ipc::{FromChild, FromParent};
use crate::viewer::GrabState;

verus! {

/// Failures of a window operation. The variants with a `detail` carry the
/// text of an operating-system or encoding error.
#[derive(Clone, Debug, PartialEq, Eq)]
pub enum WindowError {
    /// The lock on the window's state was poisoned by a panic.
    Poisoned { detail: String },
    /// The viewer process could not be started.
    SpawnFailed { path: String, detail: String },
    /// A message could not be encoded.
    Serialize { detail: String },
    /// A message could not be written to the viewer.
    Write { detail: String },
    /// The viewer executable could not be located next to the library.
    ViewerNotFound,
    /// The spawned viewer's output is not connected to the host.
    StdoutNotPiped,
    /// `spawn` was called a second time on the same window.
    AlreadySpawned,
    /// The viewer has already closed.
    Closed,
    /// The viewer was never spawned.
    NotSpawned,
    /// The spawned viewer's input is not connected to the host.
    StdinUnavailable,
}

impl WindowError {
    pub open spec fn message_spec(self) -> Seq<char> {
        match self {
            WindowError::Poisoned { detail } => "LogWindow state poisoned: "@ + detail@,
            WindowError::SpawnFailed { path, detail } => "failed to spawn viewer at "@ + path@ + ": "@ + detail@,
            WindowError::Serialize { detail } => "serialize: "@ + detail@,
            WindowError::Write { detail } => "write: "@ + detail@,
            WindowError::ViewerNotFound =>
                "could not locate the simulang-log-viewer binary next to the loaded .node file (cdylib path discovery failed)"@,
            WindowError::StdoutNotPiped => "viewer stdout was not piped"@,
            WindowError::AlreadySpawned => "LogWindow already spawned — construct a new instance to reopen"@,
            WindowError::Closed => "LogWindow has been closed"@,
            WindowError::NotSpawned => "LogWindow not spawned — call spawn() first"@,
            WindowError::StdinUnavailable => "viewer stdin not available"@,
        }
    }

    /// The text reported to the caller for this failure.
    pub fn message(&self) -> (text: String)
        ensures
            text@ == self.message_spec(),
    {
        match self {
            WindowError::Poisoned { detail } => String::from_str("LogWindow state poisoned: ").concat(detail.as_str()),
            WindowError::SpawnFailed { path, detail } => String::from_str("failed to spawn viewer at ").concat(
                path.as_str(),
            ).concat(": ").concat(detail.as_str()),
            WindowError::Serialize { detail } => String::from_str("serialize: ").concat(detail.as_str()),
            WindowError::Write { detail } => String::from_str("write: ").concat(detail.as_str()),
            WindowError::ViewerNotFound => String::from_str(
                "could not locate the simulang-log-viewer binary next to the loaded .node file (cdylib path discovery failed)",
            ),
            WindowError::StdoutNotPiped => String::from_str("viewer stdout was not piped"),
            WindowError::AlreadySpawned => String::from_str(
                "LogWindow already spawned — construct a new instance to reopen",
            ),
            WindowError::Closed => String::from_str("LogWindow has been closed"),
            WindowError::NotSpawned => String::from_str("LogWindow not spawned — call spawn() first"),
            WindowError::StdinUnavailable => String::from_str("viewer stdin not available"),
        }
    }
}

/// A change of the pause state reported by the viewer.
#[derive(Clone, Copy, Debug, PartialEq, Eq)]
pub enum PauseChange {
    Paused,
    Resumed,
}

impl PauseChange {
    pub open spec fn of(paused: bool) -> PauseChange {
        if paused {
            PauseChange::Paused
        } else {
            PauseChange::Resumed
        }
    }

    pub open spec fn log_line_spec(self) -> Seq<char> {
        match self {
            PauseChange::Paused => "[INFO] Paused by user"@,
            PauseChange::Resumed => "[INFO] Resumed by user"@,
        }
    }

    /// The line that announces this change, in the host's terminal and in
    /// the viewer.
    pub fn log_line(&self) -> (line: String)
        ensures
            line@ == self.log_line_spec(),
    {
        match self {
            PauseChange::Paused => String::from_str("[INFO] Paused by user"),
            PauseChange::Resumed => String::from_str("[INFO] Resumed by user"),
        }
    }

    /// The message that shows the announcement in the viewer.
    pub fn viewer_message(&self) -> (msg: FromParent)
        ensures
            msg matches FromParent::Log { message } && message@ == self.log_line_spec(),
    {
        FromParent::Log { message: self.log_line() }
    }
}

/// What the host does when the viewer reports a pause transition: write
/// the change's line to the terminal, and also to the viewer when its input
/// is connected.
#[derive(Clone, Copy, Debug, PartialEq, Eq)]
pub struct PauseNote {
    pub change: PauseChange,
    pub forward_to_viewer: bool,
}

/// The line written to the terminal when the user closed the viewer window.
pub open spec fn user_close_line_spec() -> Seq<char> {
    "[INFO] Resume: Log window closed by user"@
}

/// The line written to the terminal when the user closed the viewer window.
pub fn user_close_line() -> (line: String)
    ensures
        line@ == user_close_line_spec(),
{
    String::from_str("[INFO] Resume: Log window closed by user")
}

/// State shared between the host's window handle and the thread that reads
/// the viewer's output.
#[derive(Clone, Copy, Debug, PartialEq, Eq)]
pub struct WindowState {
    /// A viewer was spawned for this window at some point. A window takes
    /// one viewer in its life.
    pub spawned: bool,
    /// A viewer process is attached to this window.
    pub child_attached: bool,
    /// The attached viewer's input is connected to the host.
    pub stdin_open: bool,
    /// The user has paused execution with the grab hotkey.
    pub paused: bool,
    /// The viewer has exited, or the host has closed it.
    pub closed: bool,
    /// The host asked the viewer to close.
    pub close_requested: bool,
}

/// What the host does after a line from the viewer.
#[derive(Clone, Copy, Debug, PartialEq, Eq)]
pub struct ReaderEffect {
    /// A pause transition to announce.
    pub note: Option<PauseNote>,
    /// Wake the callers waiting on the pause state.
    pub wake_waiters: bool,
}

/// Of the messages read from the viewer (`None` for a line that carries no
/// message), those that decoded.
pub open spec fn decoded_only(msgs: Seq<Option<FromChild>>) -> Seq<Option<FromChild>> {
    msgs.filter(|m: Option<FromChild>| m is Some)
}

/// The state after reading `msgs`, and the pause transitions announced on
/// the way, in order.
pub open spec fn run_messages(s: WindowState, msgs: Seq<Option<FromChild>>) -> (WindowState, Seq<PauseNote>)
    decreases msgs.len(),
{
    if msgs.len() == 0 {
        (s, Seq::empty())
    } else {
        let before = run_messages(s, msgs.drop_last());
        let effect = before.0.message_effect(msgs.last());
        (
            before.0.after_message(msgs.last()),
            match effect.note {
                Some(n) => before.1.push(n),
                None => before.1,
            },
        )
    }
}

impl WindowState {
    pub open spec fn initial() -> WindowState {
        WindowState {
            spawned: false,
            child_attached: false,
            stdin_open: false,
            paused: false,
            closed: false,
            close_requested: false,
        }
    }

    /// Whether a viewer may be spawned: only once per window, and not into a
    /// window that was closed.
    pub open spec fn attach_result(self) -> Result<(), WindowError> {
        if self.spawned {
            Err(WindowError::AlreadySpawned)
        } else if self.closed {
            Err(WindowError::Closed)
        } else {
            Ok(())
        }
    }

    pub open spec fn after_attach(self, stdin_open: bool) -> WindowState {
        if self.spawned || self.closed {
            self
        } else {
            WindowState { spawned: true, child_attached: true, stdin_open, ..self }
        }
    }

    /// Whether a message must be delivered, when delivery failures are
    /// reported.
    pub open spec fn send_result(self) -> Result<(), WindowError> {
        if self.closed {
            Err(WindowError::Closed)
        } else if !self.child_attached {
            Err(WindowError::NotSpawned)
        } else if !self.stdin_open {
            Err(WindowError::StdinUnavailable)
        } else {
            Ok(())
        }
    }

    /// Whether a message is delivered, when undeliverable ones are dropped.
    pub open spec fn delivers_lossy(self) -> bool {
        !self.closed && self.child_attached && self.stdin_open
    }

    pub open spec fn after_close_request(self) -> WindowState {
        WindowState { close_requested: true, ..self }
    }

    pub open spec fn after_take_child(self) -> WindowState {
        WindowState { child_attached: false, stdin_open: false, ..self }
    }

    pub open spec fn after_close_finished(self) -> WindowState {
        WindowState { closed: true, paused: false, ..self }
    }

    /// The whole of a close: requested, viewer taken, closed.
    pub open spec fn after_close(self) -> WindowState {
        self.after_close_request().after_take_child().after_close_finished()
    }

    pub open spec fn pause_note(self, paused: bool) -> Option<PauseNote> {
        if self.paused != paused {
            Some(
                PauseNote {
                    change: PauseChange::of(paused),
                    forward_to_viewer: self.child_attached && self.stdin_open,
                },
            )
        } else {
            None
        }
    }

    pub open spec fn after_pause_state(self, paused: bool) -> WindowState {
        WindowState { paused, ..self }
    }

    pub open spec fn message_effect(self, msg: Option<FromChild>) -> ReaderEffect {
        match msg {
            Some(FromChild::State { paused }) => ReaderEffect { note: self.pause_note(paused), wake_waiters: true },
            None => ReaderEffect { note: None, wake_waiters: false },
        }
    }

    pub open spec fn after_message(self, msg: Option<FromChild>) -> WindowState {
        match msg {
            Some(FromChild::State { paused }) => self.after_pause_state(paused),
            None => self,
        }
    }

    pub open spec fn announces_user_close(self) -> bool {
        !self.close_requested && !self.closed
    }

    pub open spec fn after_viewer_exit(self) -> WindowState {
        WindowState { closed: true, paused: false, ..self }
    }

    /// A caller that honours the pause must wait.
    pub open spec fn waits(self) -> bool {
        self.paused && !self.closed
    }

    /// A fresh window: no viewer yet, not paused, not closed.
    pub fn new() -> (s: WindowState)
        ensures
            s == WindowState::initial(),
    {
        WindowState {
            spawned: false,
            child_attached: false,
            stdin_open: false,
            paused: false,
            closed: false,
            close_requested: false,
        }
    }

    /// Before a viewer is launched: a window takes one viewer in its life,
    /// so a second spawn is refused, also after a close; and a window closed
    /// before its first spawn cannot be reopened either.
    pub fn check_spawn(&self) -> (r: Result<(), WindowError>)
        ensures
            r == self.attach_result(),
    {
        if self.spawned {
            Err(WindowError::AlreadySpawned)
        } else if self.closed {
            Err(WindowError::Closed)
        } else {
            Ok(())
        }
    }

    /// Attach a freshly launched viewer. A second attach, also after a
    /// close, and an attach to a closed window fail and leave the state
    /// unchanged.
    pub fn attach_child(&mut self, stdin_open: bool) -> (r: Result<(), WindowError>)
        ensures
            r == old(self).attach_result(),
            *final(self) == old(self).after_attach(stdin_open),
    {
        if self.spawned {
            Err(WindowError::AlreadySpawned)
        } else if self.closed {
            Err(WindowError::Closed)
        } else {
            self.spawned = true;
            self.child_attached = true;
            self.stdin_open = stdin_open;
            Ok(())
        }
    }

    /// Before a message is written when delivery failures are reported:
    /// `Ok` when it can be written to the viewer, else why not.
    pub fn check_send(&self) -> (r: Result<(), WindowError>)
        ensures
            r == self.send_result(),
    {
        if self.closed {
            Err(WindowError::Closed)
        } else if !self.child_attached {
            Err(WindowError::NotSpawned)
        } else if !self.stdin_open {
            Err(WindowError::StdinUnavailable)
        } else {
            Ok(())
        }
    }

    /// Before a message is written when undeliverable messages are dropped
    /// silently: `true` when it is to be written.
    pub fn accepts_lossy_send(&self) -> (r: bool)
        ensures
            r == self.delivers_lossy(),
    {
        !self.closed && self.child_attached && self.stdin_open
    }

    /// First step of a close: the host asks the viewer to close. The result
    /// says whether the close request can be written to the viewer, or why
    /// not; a close reports that failure.
    pub fn begin_close(&mut self) -> (r: Result<(), WindowError>)
        ensures
            r == old(self).send_result(),
            *final(self) == old(self).after_close_request(),
    {
        let r = self.check_send();
        self.close_requested = true;
        r
    }

    /// Second step of a close: the host takes the viewer process out of the
    /// window to wait for it; `true` when there was one.
    pub fn take_child(&mut self) -> (had_child: bool)
        ensures
            had_child == old(self).child_attached,
            *final(self) == old(self).after_take_child(),
    {
        let had_child = self.child_attached;
        self.child_attached = false;
        self.stdin_open = false;
        had_child
    }

    /// Last step of a close, once the viewer (if any) has exited: the window
    /// is closed and no longer paused, so that every waiter wakes up.
    pub fn finish_close(&mut self)
        ensures
            *final(self) == old(self).after_close_finished(),
    {
        self.closed = true;
        self.paused = false;
    }

    /// The viewer reported its pause state. The state takes the reported
    /// value; a note comes back only on an actual transition, so that a
    /// repeated report is not announced twice.
    pub fn on_pause_state(&mut self, paused: bool) -> (note: Option<PauseNote>)
        ensures
            note == old(self).pause_note(paused),
            *final(self) == old(self).after_pause_state(paused),
    {
        let note = if self.paused != paused {
            let change = if paused {
                PauseChange::Paused
            } else {
                PauseChange::Resumed
            };
            Some(PauseNote { change, forward_to_viewer: self.child_attached && self.stdin_open })
        } else {
            None
        };
        self.paused = paused;
        note
    }

    /// One line read from the viewer, given as the message it decoded to, or
    /// `None` for a line that is blank or does not decode: such a line is
    /// skipped. A pause report updates the pause state and wakes the
    /// waiters.
    pub fn on_viewer_message(&mut self, msg: Option<FromChild>) -> (effect: ReaderEffect)
        ensures
            effect == old(self).message_effect(msg),
            *final(self) == old(self).after_message(msg),
    {
        match msg {
            Some(FromChild::State { paused }) => {
                let note = self.on_pause_state(paused);
                ReaderEffect { note, wake_waiters: true }
            },
            None => ReaderEffect { note: None, wake_waiters: false },
        }
    }

    /// The viewer's output ended: the viewer has exited. The window is
    /// closed and no longer paused. `true` when the user closed the viewer
    /// (the host neither asked it to close nor had closed it), which the host
    /// announces in its terminal.
    pub fn on_viewer_exit(&mut self) -> (announce: bool)
        ensures
            announce == old(self).announces_user_close(),
            *final(self) == old(self).after_viewer_exit(),
    {
        let announce = !self.close_requested && !self.closed;
        self.closed = true;
        self.paused = false;
        announce
    }

    /// Whether execution is paused.
    pub fn is_paused(&self) -> (r: bool)
        ensures
            r == self.paused,
    {
        self.paused
    }

    /// Whether a caller that honours the pause must keep waiting: while
    /// paused, unless the viewer has closed.
    pub fn must_wait(&self) -> (r: bool)
        ensures
            r == self.waits(),
    {
        self.paused && !self.closed
    }
}

/// Spawning twice on the same window is an error, whatever happened in
/// between: once a viewer was attached, attaching another fails and changes
/// nothing, also after the window was closed.
pub proof fn law_spawn_twice_is_refused(s: WindowState, first_stdin: bool, second_stdin: bool)
    requires
        s.attach_result() is Ok,
    ensures
        s.after_attach(first_stdin).attach_result() == Err::<(), WindowError>(WindowError::AlreadySpawned),
        s.after_attach(first_stdin).after_attach(second_stdin) == s.after_attach(first_stdin),
        s.after_attach(first_stdin).after_close().attach_result() == Err::<(), WindowError>(WindowError::AlreadySpawned),
        s.after_attach(first_stdin).after_viewer_exit().attach_result() == Err::<(), WindowError>(WindowError::AlreadySpawned),
{
}

/// Once the viewer has closed, logged lines are dropped silently and a
/// message whose delivery matters fails with `Closed`.
pub proof fn law_closed_window_drops_messages(s: WindowState)
    requires
        s.closed,
    ensures
        !s.delivers_lossy(),
        s.send_result() == Err::<(), WindowError>(WindowError::Closed),
{
}

/// A close closes: afterwards the window is closed, nobody waits, nothing is
/// delivered to the viewer, and no viewer can be spawned for it any more.
pub proof fn law_close_closes(s: WindowState, paused: bool, stdin_open: bool)
    ensures
        s.after_close().closed,
        !s.after_close().waits(),
        !s.after_close().after_pause_state(paused).waits(),
        !s.after_close().delivers_lossy(),
        s.after_close().attach_result() is Err,
        s.after_close().after_attach(stdin_open) == s.after_close(),
{
}

/// Waiting never outlives the viewer: after the viewer exits, or after the
/// host finishes closing it, nobody waits, whatever the pause state was.
pub proof fn law_closing_releases_waiters(s: WindowState, paused: bool)
    ensures
        !s.after_viewer_exit().waits(),
        !s.after_close_finished().waits(),
        !s.after_viewer_exit().after_pause_state(paused).waits(),
        !s.after_close_finished().after_pause_state(paused).waits(),
{
}

/// A repeated pause report is not announced twice, and changes nothing.
pub proof fn law_repeated_pause_report_is_quiet(s: WindowState, paused: bool)
    ensures
        s.after_pause_state(paused).pause_note(paused) is None,
        s.after_pause_state(paused).after_pause_state(paused) == s.after_pause_state(paused),
{
}

/// Lines from the viewer that are blank or do not decode are skipped: they
/// never stop the reader, never change the state and announce nothing. Reading
/// a stream gives the same state and the same announcements as reading only
/// its decoded messages.
pub proof fn law_undecodable_lines_are_skipped(s: WindowState, msgs: Seq<Option<FromChild>>)
    ensures
        run_messages(s, msgs) == run_messages(s, decoded_only(msgs)),
    decreases msgs.len(),
{
    reveal_with_fuel(Seq::filter, 1);
    if msgs.len() > 0 {
        law_undecodable_lines_are_skipped(s, msgs.drop_last());
        let rest = decoded_only(msgs.drop_last());
        if msgs.last() is Some {
            assert(decoded_only(msgs) == rest.push(msgs.last()));
            assert(decoded_only(msgs).drop_last() =~= rest);
        } else {
            assert(decoded_only(msgs) == rest);
        }
    }
}

/// A close the host asked for is not announced as a close by the user.
pub proof fn law_requested_close_is_not_announced(s: WindowState)
    ensures
        !s.after_close_request().announces_user_close(),
        !s.after_close().announces_user_close(),
{
}

/// Grab is pause, end to end: when the viewer reports its pause state after
/// a frame and the host receives that report, the host is paused exactly
/// when the viewer is grabbed, and it announces the report exactly when
/// its own pause state changes.
pub proof fn law_host_pause_follows_grab(host: WindowState, viewer: GrabState, toggled: bool)
    requires
        viewer.frame_plan(toggled).report_paused is Some,
    ensures
        ({
            let reported = viewer.frame_plan(toggled).report_paused->0;
            &&& host.after_pause_state(reported).paused == viewer.after_frame(toggled).is_grabbed
            &&& (host.pause_note(reported) is Some <==> host.paused != viewer.after_frame(toggled).is_grabbed)
        }),
{
}

/// Closing is final: no transition reopens a closed window.
pub proof fn law_closed_stays_closed(s: WindowState, stdin_open: bool, paused: bool, msg: Option<FromChild>)
    requires
        s.closed,
    ensures
        s.after_attach(stdin_open).closed,
        s.after_close_request().closed,
        s.after_take_child().closed,
        s.after_close_finished().closed,
        s.after_pause_state(paused).closed,
        s.after_message(msg).closed,
        s.after_viewer_exit().closed,
{
}

/// Logged lines and clears reach the viewer whenever it is open and
/// connected, paused or not: the lossy send accepts a message exactly when
/// the strict send would, and no pause report changes that.
pub proof fn law_pause_does_not_drop_lines(s: WindowState, paused: bool, msg: Option<FromChild>)
    ensures
        s.delivers_lossy() == (s.send_result() is Ok),
        s.delivers_lossy() == (!s.closed && s.child_attached && s.stdin_open),
        s.after_pause_state(paused).delivers_lossy() == s.delivers_lossy(),
        s.after_message(msg).delivers_lossy() == s.delivers_lossy(),
{
}

} // verus!
