//! System tray states and the decisions behind the tray menu.
//!
//! Rendering the icon and the menu is platform I/O and belongs to the
//! surrounding application; which state maps to which tooltip, and what a
//! menu click means, is decided here.

use vstd::prelude::*;

verus! {

/// Tray icon states corresponding to the application workflow.
#[derive(Debug, Clone, Copy, PartialEq, Eq)]
pub enum TrayIconState {
    /// Ready to start recording.
    Idle,
    /// Currently recording audio.
    Recording,
    /// Processing or transcribing audio.
    Processing,
}

/// Commands sent from the application to the thread that owns the tray.
#[derive(Debug, Clone, Copy)]
pub enum TrayCommand {
    /// Update the tray icon to a new state.
    SetState(TrayIconState),
    /// Shut down: the owning thread exits its event loop.
    Shutdown,
}

/// What a click on a tray menu item asks for.
#[derive(Debug, Clone, Copy, PartialEq, Eq)]
pub enum TrayMenuAction {
    /// Open the settings page.
    OpenSettings,
    /// Exit the application.
    Exit,
    /// Not an item of this menu; ignore it.
    Ignore,
}

impl TrayIconState {
    /// The tooltip shown next to the tray icon in this state.
    pub fn tooltip(&self) -> (r: &'static str)
        ensures
            *self is Idle ==> r@ == "Auto-Scribe - Ready"@,
            *self is Recording ==> r@ == "Auto-Scribe - Recording..."@,
            *self is Processing ==> r@ == "Auto-Scribe - Transcribing..."@,
    {
        match self {
            TrayIconState::Idle => "Auto-Scribe - Ready",
            TrayIconState::Recording => "Auto-Scribe - Recording...",
            TrayIconState::Processing => "Auto-Scribe - Transcribing...",
        }
    }
}

/// What a menu event with id `event_id` means, given the ids of the
/// settings and exit items: the settings item opens the settings page, the
/// exit item exits, anything else is ignored.  The settings item wins if
/// the two ids collide.
pub fn tray_menu_action(event_id: &String, settings_id: &String, exit_id: &String) -> (r:
    TrayMenuAction)
    ensures
        event_id@ == settings_id@ ==> r is OpenSettings,
        event_id@ != settings_id@ && event_id@ == exit_id@ ==> r is Exit,
        event_id@ != settings_id@ && event_id@ != exit_id@ ==> r is Ignore,
{
    if event_id.eq(settings_id) {
        TrayMenuAction::OpenSettings
    } else if event_id.eq(exit_id) {
        TrayMenuAction::Exit
    } else {
        TrayMenuAction::Ignore
    }
}

} // verus!
