//! The settings window's own state moves: which section shows, key
//! capture, the reset-all confirmation, and the launch-at-login switch.
//! Hook and registry work is left to the caller.

use vstd::prelude::*;
use crate::settings::model::AppSettings;
use crate::ui::section::Section;

verus! {

/// What the settings window shows besides the settings themselves.
#[derive(Debug, Clone, PartialEq, Eq)]
pub struct SettingsUiState {
    pub section: Section,
    pub status: String,
    pub capturing_trigger: bool,
    pub capturing_keybind: Option<String>,
    pub confirming_reset_all: bool,
}

/// A settings-window message that only moves the window's own state.
#[derive(Debug, Clone, PartialEq, Eq)]
pub enum UiMessage {
    SelectSection(Section),
    BeginTriggerCapture,
    CancelTriggerCapture,
    BeginKeybindCapture(String),
    ConfirmResetAll,
    CancelResetAll,
    ClearDiagnostics,
}

/// Work for the caller after a message.
#[derive(Debug, Clone, PartialEq, Eq)]
pub enum UiRequest {
    /// Start capturing the next key combination for the trigger.
    CaptureTrigger,
    /// Start capturing the next key combination for the keybind with this id.
    CaptureKeybind(String),
    /// Stop capturing.
    CancelCapture,
    /// Empty the diagnostics log.
    ClearDiagnostics,
}

/// The status shown while a key combination is being captured.
pub open spec fn capture_prompt() -> Seq<char> {
    "Press a key\u{2026} (Esc cancels)"@
}

/// The state and request one message leads to. Fields not named stay as
/// they were.
pub open spec fn ui_step_result(
    old: SettingsUiState,
    m: UiMessage,
    new: SettingsUiState,
    req: Option<UiRequest>,
) -> bool {
    match m {
        UiMessage::SelectSection(section) => {
            &&& new == SettingsUiState { section, confirming_reset_all: false, ..old }
            &&& req is None
        },
        UiMessage::BeginTriggerCapture => {
            &&& new == SettingsUiState {
                capturing_trigger: true,
                capturing_keybind: None,
                status: new.status,
                ..old
            }
            &&& new.status@ == capture_prompt()
            &&& req == Some(UiRequest::CaptureTrigger)
        },
        UiMessage::CancelTriggerCapture => {
            &&& new == SettingsUiState {
                capturing_trigger: false,
                capturing_keybind: None,
                status: new.status,
                ..old
            }
            &&& new.status@ == "Saved"@
            &&& req == Some(UiRequest::CancelCapture)
        },
        UiMessage::BeginKeybindCapture(id) => {
            &&& new == SettingsUiState {
                capturing_trigger: false,
                capturing_keybind: new.capturing_keybind,
                status: new.status,
                ..old
            }
            &&& new.capturing_keybind matches Some(k) && k@ == id@
            &&& new.status@ == capture_prompt()
            &&& req matches Some(UiRequest::CaptureKeybind(k)) && k@ == id@
        },
        UiMessage::ConfirmResetAll => {
            &&& new == SettingsUiState { confirming_reset_all: true, ..old }
            &&& req is None
        },
        UiMessage::CancelResetAll => {
            &&& new == SettingsUiState { confirming_reset_all: false, ..old }
            &&& req is None
        },
        UiMessage::ClearDiagnostics => {
            &&& new == SettingsUiState { status: new.status, ..old }
            &&& new.status@ == "Diagnostics cleared"@
            &&& req == Some(UiRequest::ClearDiagnostics)
        },
    }
}

fn text(s: &str) -> (r: String)
    ensures
        r@ == s@,
{
    crate::text::owned(s)
}

/// Apply one settings-window message (see [`ui_step_result`]).
pub fn ui_step(state: &mut SettingsUiState, message: UiMessage) -> (req: Option<UiRequest>)
    ensures
        ui_step_result(*old(state), message, *final(state), req),
{
    match message {
        UiMessage::SelectSection(section) => {
            state.section = section;
            state.confirming_reset_all = false;
            None
        },
        UiMessage::BeginTriggerCapture => {
            state.capturing_trigger = true;
            state.capturing_keybind = None;
            state.status = text("Press a key\u{2026} (Esc cancels)");
            Some(UiRequest::CaptureTrigger)
        },
        UiMessage::CancelTriggerCapture => {
            state.capturing_trigger = false;
            state.capturing_keybind = None;
            state.status = text("Saved");
            Some(UiRequest::CancelCapture)
        },
        UiMessage::BeginKeybindCapture(id) => {
            state.capturing_trigger = false;
            state.capturing_keybind = Some(id.clone());
            state.status = text("Press a key\u{2026} (Esc cancels)");
            Some(UiRequest::CaptureKeybind(id))
        },
        UiMessage::ConfirmResetAll => {
            state.confirming_reset_all = true;
            None
        },
        UiMessage::CancelResetAll => {
            state.confirming_reset_all = false;
            None
        },
        UiMessage::ClearDiagnostics => {
            state.status = text("Diagnostics cleared");
            Some(UiRequest::ClearDiagnostics)
        },
    }
}

/// What to do after the launch-at-login registry entry was written.
#[derive(Debug, Clone, PartialEq, Eq)]
pub enum LaunchStep {
    /// The entry was written: save the settings.
    Commit,
    /// The entry could not be written: show this status; nothing is saved.
    Refused(String),
}

/// Record the launch-at-login switch once the registry entry was written
/// (or not): on success the setting takes the new value and is to be
/// saved; on failure it takes the opposite value and the failure is shown.
pub fn set_launch_at_login(settings: &mut AppSettings, enabled: bool, registry_ok: bool) -> (step:
    LaunchStep)
    ensures
        *final(settings) == (AppSettings {
            launch_at_login: if registry_ok {
                enabled
            } else {
                !enabled
            },
            ..*old(settings)
        }),
        registry_ok <==> (step is Commit),
        step matches LaunchStep::Refused(m) ==> m@ == "Could not update launch setting"@,
{
    if registry_ok {
        settings.launch_at_login = enabled;
        LaunchStep::Commit
    } else {
        settings.launch_at_login = !enabled;
        LaunchStep::Refused(text("Could not update launch setting"))
    }
}

/// After the save, the value to write back to the registry entry: the
/// saved value when a failed save reverted the switch, nothing otherwise.
pub fn launch_entry_to_restore(saved: bool, enabled: bool) -> (r: Option<bool>)
    ensures
        r == (if saved != enabled {
            Some(saved)
        } else {
            None::<bool>
        }),
{
    if saved != enabled {
        Some(saved)
    } else {
        None
    }
}

} // verus!
