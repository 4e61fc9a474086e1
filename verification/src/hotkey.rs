//! Global-hotkey recording state machine.
//!
//! One hotkey toggles between idle and recording.  The command that asks
//! the application to start or stop is sent first, over a channel owned by
//! the surrounding application; only a successful send commits the state
//! transition, so a full channel or a closed peer never leaves the state
//! machine claiming a session that nobody started or stopped.

use vstd::prelude::*;

verus! {

/// Recording state of the hotkey handler.  A session is identified by the
/// 128-bit value of its unique id.
#[derive(Debug, Clone, Copy, PartialEq, Eq)]
pub enum RecordingState {
    /// Not currently recording.
    Idle,
    /// Currently recording the session with this id.
    Recording { session_id: u128 },
}

/// Commands sent from the hotkey handler to the main application.
#[derive(Debug, Clone, Copy, PartialEq, Eq)]
pub enum AppCommand {
    /// Start a new recording session with this id.
    StartRecording { session_id: u128 },
    /// Stop the recording session with this id.
    StopRecording { session_id: u128 },
    /// Shut the application down.
    Shutdown,
}

/// The hotkey handler: which hotkey it listens for, and the recording state
/// it toggles.
#[derive(Debug)]
pub struct HotkeyHandler {
    hotkey_id: u32,
    state: RecordingState,
}

impl HotkeyHandler {
    /// The id of the registered hotkey this handler reacts to.
    pub closed spec fn id(&self) -> u32 {
        self.hotkey_id
    }

    /// The current recording state.
    pub closed spec fn state(&self) -> RecordingState {
        self.state
    }

    /// A handler for a previously registered hotkey, starting idle.
    pub fn new(hotkey_id: u32) -> (r: HotkeyHandler)
        ensures
            r.id() == hotkey_id,
            r.state() is Idle,
    {
        HotkeyHandler { hotkey_id, state: RecordingState::Idle }
    }

    /// Whether an incoming hotkey event is the one this handler reacts to.
    pub fn matches_event(&self, event_id: u32) -> (r: bool)
        ensures
            r == (event_id == self.id()),
    {
        event_id == self.hotkey_id
    }

    /// Which command a hotkey press asks the application for: starting a
    /// fresh session when idle, stopping the current session when
    /// recording.  `fresh_session_id` is the id a new session would get
    /// (the caller draws it); it is used only when idle.
    pub fn handle_hotkey_press(&self, fresh_session_id: u128) -> (cmd: AppCommand)
        ensures
            self.state() is Idle ==> (cmd matches AppCommand::StartRecording { session_id }
                && session_id == fresh_session_id),
            (self.state() matches RecordingState::Recording { session_id } ==> cmd matches
                AppCommand::StopRecording { session_id: stopped } && stopped == session_id),
    {
        match self.state {
            RecordingState::Idle => AppCommand::StartRecording { session_id: fresh_session_id },
            RecordingState::Recording { session_id } => AppCommand::StopRecording { session_id },
        }
    }

    /// Commits (or rolls back) the transition for a command produced by
    /// [`HotkeyHandler::handle_hotkey_press`], once the caller knows
    /// whether the send succeeded.  A failed send never changes the state,
    /// so the user can simply press the hotkey again.
    pub fn on_command_sent(&mut self, cmd: &AppCommand, sent_ok: bool)
        ensures
            final(self).id() == old(self).id(),
            !sent_ok ==> final(self).state() == old(self).state(),
            sent_ok ==> (match *cmd {
                AppCommand::StartRecording { session_id } => final(self).state()
                    == (RecordingState::Recording { session_id }),
                AppCommand::StopRecording { session_id } => final(self).state()
                    == RecordingState::Idle,
                AppCommand::Shutdown => final(self).state() == old(self).state(),
            }),
    {
        if !sent_ok {
            return ;
        }
        match cmd {
            AppCommand::StartRecording { session_id } => {
                self.state = RecordingState::Recording { session_id: *session_id };
            },
            AppCommand::StopRecording { session_id: _ } => {
                self.state = RecordingState::Idle;
            },
            AppCommand::Shutdown => {},
        }
    }
}

} // verus!
