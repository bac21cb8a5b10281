//! Decisions of the main loop: reacting to keys, to the recorder's reports,
//! and to what waiting for a camera frame gave.

use vstd::prelude::*;

verus! {

/// Key code of Escape.
pub const KEY_ESCAPE: i32 = 27;

/// Key code of `q`.
pub const KEY_QUIT: i32 = 113;

/// Key code of `r`.
pub const KEY_RECORD: i32 = 114;

/// What waiting for the next camera event gave.
#[derive(Clone, Copy, PartialEq, Eq, Debug, Structural)]
pub enum CaptureWait {
    /// A frame arrived.
    Frame,
    /// The camera reached its end.
    Ended,
    /// The camera reported an error.
    Failed,
    /// Nothing arrived within the start-up timeout.
    TimedOut,
    /// The camera worker went away.
    Disconnected,
}

/// What the main loop does next.
#[derive(Clone, Copy, PartialEq, Eq, Debug, Structural)]
pub enum LoopStep {
    /// Process the frame.
    Process,
    /// Leave the loop and shut down normally.
    Stop,
    /// Leave with the camera's error.
    FailWithCameraError,
    /// Leave with a time-out error.
    FailTimedOut,
}

/// The main loop's reaction to waiting for a camera event.
pub fn on_capture_wait(w: CaptureWait) -> (s: LoopStep)
    ensures
        s == (match w {
            CaptureWait::Frame => LoopStep::Process,
            CaptureWait::Ended => LoopStep::Stop,
            CaptureWait::Disconnected => LoopStep::Stop,
            CaptureWait::Failed => LoopStep::FailWithCameraError,
            CaptureWait::TimedOut => LoopStep::FailTimedOut,
        }),
{
    match w {
        CaptureWait::Frame => LoopStep::Process,
        CaptureWait::Ended => LoopStep::Stop,
        CaptureWait::Disconnected => LoopStep::Stop,
        CaptureWait::Failed => LoopStep::FailWithCameraError,
        CaptureWait::TimedOut => LoopStep::FailTimedOut,
    }
}

/// What polling the recorder's report channel gave.
#[derive(Clone, Copy, PartialEq, Eq, Debug, Structural)]
pub enum RecorderPoll {
    /// The recorder failed.
    Failed,
    /// The recorder finished.
    Finished,
    /// No report.
    Empty,
    /// The recorder went away.
    Disconnected,
}

/// What one camera frame asks of the recorder.
#[derive(Clone, Copy, PartialEq, Eq, Debug, Structural)]
pub struct FramePlan {
    /// Start a recorder sized to this frame.
    pub start_recorder: bool,
    /// Hand a copy of the frame to the recorder.
    pub record: bool,
}

/// What a key press does.
#[derive(Clone, Copy, PartialEq, Eq, Debug, Structural)]
pub enum KeyAction {
    Quit,
    ToggleRecording,
    Nothing,
}

/// What a key code means (`-1` when no key was pressed): `q` or Escape
/// quit, `r` toggles recording, anything else does nothing.
pub open spec fn key_meaning(key: i32) -> KeyAction {
    if key == KEY_QUIT || key == KEY_ESCAPE {
        KeyAction::Quit
    } else if key == KEY_RECORD {
        KeyAction::ToggleRecording
    } else {
        KeyAction::Nothing
    }
}

/// Exactly `q` (113) and Escape (27) quit, exactly `r` (114) toggles
/// recording, and every other key code, pressed or none, does nothing.
pub proof fn law_keys(key: i32)
    ensures
        (key_meaning(key) == KeyAction::Quit) <==> (key == 113 || key == 27),
        (key_meaning(key) == KeyAction::ToggleRecording) <==> key == 114,
        (key_meaning(key) == KeyAction::Nothing) <==> (key != 113 && key != 27 && key != 114),
        'q' as i32 == 113 && 'r' as i32 == 114,
{
}

/// The action of a key code.
pub fn key_action(key: i32) -> (a: KeyAction)
    ensures
        a == key_meaning(key),
{
    if key == KEY_QUIT || key == KEY_ESCAPE {
        KeyAction::Quit
    } else if key == KEY_RECORD {
        KeyAction::ToggleRecording
    } else {
        KeyAction::Nothing
    }
}

/// The recording side of the main loop: whether frames are recorded, and
/// whether a recorder is running.
pub struct Session {
    recording_enabled: bool,
    recorder_running: bool,
}

impl Session {
    /// Whether frames are handed to the recorder.
    pub closed spec fn recording(&self) -> bool {
        self.recording_enabled
    }

    /// Whether a recorder is running.
    pub closed spec fn recorder(&self) -> bool {
        self.recorder_running
    }

    /// At start-up recording is on and no recorder runs yet (it is started
    /// with the first frame, once its size is known).
    pub fn new() -> (s: Self)
        ensures
            s.recording(),
            !s.recorder(),
    {
        Session { recording_enabled: true, recorder_running: false }
    }

    /// Takes a report of the running recorder. Returns `false` when the
    /// recorder failed and the main loop must leave with its error; a recorder
    /// that finished or went away is forgotten.
    pub fn on_recorder_poll(&mut self, poll: RecorderPoll) -> (ok: bool)
        ensures
            ok == (poll != RecorderPoll::Failed),
            final(self).recorder() == (old(self).recorder() && (poll == RecorderPoll::Empty
                || poll == RecorderPoll::Failed)),
            final(self).recording() == old(self).recording(),
    {
        match poll {
            RecorderPoll::Failed => false,
            RecorderPoll::Empty => true,
            _ => {
                self.recorder_running = false;
                true
            },
        }
    }

    /// Plans a frame: a recorder is started when none runs, and the frame is
    /// recorded when recording is on.
    pub fn on_frame(&mut self) -> (plan: FramePlan)
        ensures
            plan.start_recorder == !old(self).recorder(),
            plan.record == old(self).recording(),
            final(self).recorder(),
            final(self).recording() == old(self).recording(),
    {
        let start = !self.recorder_running;
        self.recorder_running = true;
        FramePlan { start_recorder: start, record: self.recording_enabled }
    }

    /// Applies a key press; returns `true` when the main loop must quit.
    pub fn on_key(&mut self, key: i32) -> (quit: bool)
        ensures
            quit == (key_meaning(key) == KeyAction::Quit),
            final(self).recording() == (if key_meaning(key) == KeyAction::ToggleRecording {
                !old(self).recording()
            } else {
                old(self).recording()
            }),
            final(self).recorder() == old(self).recorder(),
    {
        match key_action(key) {
            KeyAction::Quit => true,
            KeyAction::ToggleRecording => {
                self.recording_enabled = !self.recording_enabled;
                false
            },
            KeyAction::Nothing => false,
        }
    }
}

} // verus!
