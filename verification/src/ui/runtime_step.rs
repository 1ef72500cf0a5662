//! What the resident runtime decides for each event of the window layer:
//! which window the trigger captures, when the radial opens and commits,
//! which window a keybind acts on, how a captured key combination is
//! checked and stored, and the status line. Window work is left to the
//! caller, which performs the returned actions in order.

use vstd::prelude::*;
use crate::engine::actions::WindowAction;
use crate::engine::cycle::{CycleSelection, CycleState, cursors_after_commit, cycle_suffix};
use crate::engine::hotkey::{hotkey_name_of, push_hotkey_name};
use crate::settings::load_report::{FallbackReason, LoadOutcome, description};
use crate::settings::model::{AppSettings, Keybind};
use crate::text::{push_str, string_of};
use crate::ui::choices::{
    conflict_of, find_keybind, first_with_id, keybind_conflict, lemma_first_id_unique,
    lemma_no_first_id,
};
use crate::ui::edits::keybind_changed;

verus! {

/// An event of the window layer. Events that need the foreground window
/// carry it with its process id and the id of this process.
#[derive(Debug, Clone, PartialEq, Eq)]
pub enum RuntimeEvent {
    /// The trigger went down.
    TriggerPressed { foreground: u64, foreground_pid: u32, own_pid: u32 },
    /// The trigger was released.
    TriggerReleased,
    /// The trigger was held too long.
    TriggerTimedOut,
    /// The trigger hold was cancelled.
    TriggerCancelled,
    /// A keybind's combination was pressed.
    KeybindFired {
        action: WindowAction,
        cycle_enabled: bool,
        bypass_trigger: bool,
        foreground: u64,
        foreground_pid: u32,
        own_pid: u32,
    },
    /// The reveal-stashed hotkey was pressed.
    RevealStashed,
    /// A key combination was captured for the keybind with this id, or for
    /// the trigger when there is none.
    CaptureUpdate { modifiers: u32, vk: u32, keybind: Option<String> },
    /// Capturing was cancelled.
    CaptureCancelled,
    /// The captured key is reserved by the system.
    CaptureRejected,
    /// A background failure to show on the status line.
    Diagnostic(String),
}

/// Window work for the caller, in the order given.
#[derive(Debug, Clone, PartialEq, Eq)]
pub enum RuntimeAction {
    /// Open the radial menu for this target window.
    OpenRadial(u64),
    /// Commit what the radial menu points at, and close it.
    CommitRadial,
    /// Close the radial menu and the preview.
    CloseOverlays,
    /// Select the cycle step for the action, apply it to the window, and
    /// report through [`finish_apply`].
    Apply { window: u64, action: WindowAction, cycle_enabled: bool },
    /// Reveal the next stashed window and show the result.
    RevealStashed,
    /// Save the settings, reporting this message on success.
    CommitSettings(String),
}

/// What the runtime's decisions read and change. `radial_open` mirrors
/// whether the radial menu is open; the caller keeps it in step with the
/// window layer.
#[derive(Debug, Clone)]
pub struct RuntimeState {
    pub settings: AppSettings,
    pub pending_target: Option<u64>,
    pub radial_open: bool,
    pub capturing_trigger: bool,
    pub capturing_keybind: Option<String>,
    pub status: String,
}

/// The foreground window exists and belongs to another process.
pub open spec fn usable_foreground(foreground: u64, pid: u32, own_pid: u32) -> bool {
    foreground != 0 && pid != 0 && pid != own_pid
}

/// The trigger's display name.
pub open spec fn trigger_label(s: AppSettings) -> Seq<char> {
    hotkey_name_of(s.trigger_modifiers, s.trigger_vk, s.trigger_modifier_side)
}

/// A keybind with a new key combination.
pub open spec fn rebound(k: Keybind, modifiers: u32, vk: u32) -> Keybind {
    Keybind { modifiers, vk, ..k }
}

/// The window a keybind acts on: for a binding that bypasses the trigger,
/// the foreground window when it belongs to another process; otherwise
/// the window the trigger captured.
pub open spec fn keybind_target(
    s: RuntimeState,
    bypass: bool,
    foreground: u64,
    pid: u32,
    own_pid: u32,
) -> Option<u64> {
    if bypass {
        if usable_foreground(foreground, pid, own_pid) {
            Some(foreground)
        } else {
            None
        }
    } else {
        s.pending_target
    }
}

/// The actions are one settings commit reporting `text`.
pub open spec fn commits_with(actions: Seq<RuntimeAction>, text: Seq<char>) -> bool {
    &&& actions.len() == 1
    &&& actions[0] matches RuntimeAction::CommitSettings(m) && m@ == text
}

/// The state and actions one event leads to. Fields not named stay as
/// they were.
pub open spec fn step_result(
    old: RuntimeState,
    e: RuntimeEvent,
    new: RuntimeState,
    actions: Seq<RuntimeAction>,
) -> bool {
    match e {
        RuntimeEvent::TriggerPressed { foreground, foreground_pid, own_pid } => {
            if !usable_foreground(foreground, foreground_pid, own_pid) {
                &&& new == RuntimeState { pending_target: None, status: new.status, ..old }
                &&& new.status@ == "Focus another app, then hold "@ + trigger_label(old.settings)
                &&& actions.len() == 0
            } else if old.radial_open || !old.settings.radial_enabled {
                &&& new == RuntimeState { pending_target: Some(foreground), ..old }
                &&& actions.len() == 0
            } else {
                &&& new == RuntimeState {
                    pending_target: Some(foreground),
                    radial_open: true,
                    ..old
                }
                &&& actions == seq![RuntimeAction::OpenRadial(foreground)]
            }
        },
        RuntimeEvent::TriggerReleased => {
            &&& new == RuntimeState { pending_target: None, radial_open: false, ..old }
            &&& actions == (if old.radial_open {
                seq![RuntimeAction::CommitRadial]
            } else {
                Seq::empty()
            })
        },
        RuntimeEvent::TriggerTimedOut => {
            &&& new == RuntimeState {
                pending_target: None,
                radial_open: false,
                status: new.status,
                ..old
            }
            &&& new.status@ == "Trigger timed out \u{2014} no action committed"@
            &&& actions == seq![RuntimeAction::CloseOverlays]
        },
        RuntimeEvent::TriggerCancelled => {
            &&& new == RuntimeState {
                pending_target: None,
                radial_open: false,
                status: new.status,
                ..old
            }
            &&& new.status@ == "Trigger cancelled"@
            &&& actions == seq![RuntimeAction::CloseOverlays]
        },
        RuntimeEvent::KeybindFired {
            action,
            cycle_enabled,
            bypass_trigger,
            foreground,
            foreground_pid,
            own_pid,
        } => match keybind_target(old, bypass_trigger, foreground, foreground_pid, own_pid) {
            None => {
                &&& new == RuntimeState { status: new.status, ..old }
                &&& new.status@ == (if bypass_trigger {
                    "No external foreground window is available."@
                } else {
                    "  \u{b7}  Capture a target first with "@ + trigger_label(old.settings)
                })
                &&& actions.len() == 0
            },
            Some(window) => {
                &&& new == RuntimeState { radial_open: false, ..old }
                &&& actions == seq![
                    RuntimeAction::CloseOverlays,
                    RuntimeAction::Apply { window, action, cycle_enabled },
                ]
            },
        },
        RuntimeEvent::RevealStashed => {
            &&& new == RuntimeState { radial_open: false, ..old }
            &&& actions == seq![RuntimeAction::CloseOverlays, RuntimeAction::RevealStashed]
        },
        RuntimeEvent::CaptureUpdate { modifiers, vk, keybind } => match keybind {
            Some(id) => match conflict_of(old.settings, id@, modifiers, vk) {
                Some(reason) => {
                    &&& new == RuntimeState {
                        capturing_trigger: false,
                        capturing_keybind: None,
                        status: new.status,
                        ..old
                    }
                    &&& new.status@ == reason
                    &&& actions.len() == 0
                },
                None => {
                    &&& new == RuntimeState {
                        capturing_trigger: false,
                        capturing_keybind: None,
                        settings: AppSettings { keybinds: new.settings.keybinds, ..old.settings },
                        ..old
                    }
                    &&& new.settings.keybinds@ == keybind_changed(
                        old.settings.keybinds@,
                        id@,
                        |k: Keybind| rebound(k, modifiers, vk),
                    )
                    &&& commits_with(actions, "Keybind updated"@)
                },
            },
            None => {
                &&& new == RuntimeState {
                    capturing_trigger: false,
                    capturing_keybind: None,
                    settings: AppSettings {
                        trigger_modifiers: modifiers,
                        trigger_vk: vk,
                        ..old.settings
                    },
                    ..old
                }
                &&& commits_with(actions, "Trigger updated"@)
            },
        },
        RuntimeEvent::CaptureCancelled => {
            &&& new == RuntimeState {
                capturing_trigger: false,
                capturing_keybind: None,
                status: new.status,
                ..old
            }
            &&& new.status@ == "Rebind cancelled"@
            &&& actions.len() == 0
        },
        RuntimeEvent::CaptureRejected => {
            &&& new == RuntimeState {
                capturing_trigger: false,
                capturing_keybind: None,
                status: new.status,
                ..old
            }
            &&& new.status@ == "That key is reserved by Windows. Choose another."@
            &&& actions.len() == 0
        },
        RuntimeEvent::Diagnostic(message) => {
            &&& new == RuntimeState { status: message, ..old }
            &&& actions.len() == 0
        },
    }
}

/// `prefix` followed by the trigger's name.
fn with_trigger(prefix: &str, settings: &AppSettings) -> (s: String)
    ensures
        s@ == prefix@ + trigger_label(*settings),
{
    let mut out: Vec<char> = Vec::new();
    push_str(&mut out, prefix);
    push_hotkey_name(
        &mut out,
        settings.trigger_modifiers,
        settings.trigger_vk,
        settings.trigger_modifier_side,
    );
    string_of(out.as_slice())
}

fn text(s: &str) -> (r: String)
    ensures
        r@ == s@,
{
    crate::text::owned(s)
}

/// Give the first keybind with `id` a new key combination.
fn rebind_keybind(keybinds: &mut Vec<Keybind>, id: &str, modifiers: u32, vk: u32)
    ensures
        final(keybinds)@ == keybind_changed(
            old(keybinds)@,
            id@,
            |k: Keybind| rebound(k, modifiers, vk),
        ),
{
    match find_keybind(keybinds.as_slice(), id) {
        Some(i) => {
            proof {
                let j = choose|i: int| first_with_id(old(keybinds)@, id@, i);
                lemma_first_id_unique(old(keybinds)@, id@, i as int, j);
            }
            let b = &keybinds[i];
            let k = Keybind {
                id: b.id.clone(),
                modifiers,
                vk,
                action: b.action,
                cycle_enabled: b.cycle_enabled,
                bypass_trigger: b.bypass_trigger,
            };
            keybinds.set(i, k);
        },
        None => {
            proof {
                lemma_no_first_id(keybinds@, id@);
            }
        },
    }
}

fn on_trigger_pressed(state: &mut RuntimeState, foreground: u64, foreground_pid: u32, own_pid: u32) -> (actions: Vec<RuntimeAction>)
    ensures
        step_result(
            *old(state),
            RuntimeEvent::TriggerPressed { foreground, foreground_pid, own_pid },
            *final(state),
            actions@,
        ),
{
    let mut actions: Vec<RuntimeAction> = Vec::new();
    if foreground == 0 || foreground_pid == 0 || foreground_pid == own_pid {
        state.status = with_trigger("Focus another app, then hold ", &state.settings);
        state.pending_target = None;
    } else if state.radial_open || !state.settings.radial_enabled {
        // Already open (a chorded re-press) or no radial: only the target
        // changes.
        state.pending_target = Some(foreground);
    } else {
        state.pending_target = Some(foreground);
        state.radial_open = true;
        actions.push(RuntimeAction::OpenRadial(foreground));
        assert(actions@ =~= seq![RuntimeAction::OpenRadial(foreground)]);
    }
    actions
}

fn on_trigger_end(state: &mut RuntimeState, event: RuntimeEvent) -> (actions: Vec<RuntimeAction>)
    requires
        event is TriggerReleased || event is TriggerTimedOut || event is TriggerCancelled,
    ensures
        step_result(*old(state), event, *final(state), actions@),
{
    let mut actions: Vec<RuntimeAction> = Vec::new();
    state.pending_target = None;
    match event {
        RuntimeEvent::TriggerReleased => {
            if state.radial_open {
                state.radial_open = false;
                actions.push(RuntimeAction::CommitRadial);
                assert(actions@ =~= seq![RuntimeAction::CommitRadial]);
            }
        },
        RuntimeEvent::TriggerTimedOut => {
            state.radial_open = false;
            actions.push(RuntimeAction::CloseOverlays);
            assert(actions@ =~= seq![RuntimeAction::CloseOverlays]);
            state.status = text("Trigger timed out \u{2014} no action committed");
        },
        _ => {
            state.radial_open = false;
            actions.push(RuntimeAction::CloseOverlays);
            assert(actions@ =~= seq![RuntimeAction::CloseOverlays]);
            state.status = text("Trigger cancelled");
        },
    }
    actions
}

fn on_keybind_fired(
    state: &mut RuntimeState,
    action: WindowAction,
    cycle_enabled: bool,
    bypass_trigger: bool,
    foreground: u64,
    foreground_pid: u32,
    own_pid: u32,
) -> (actions: Vec<RuntimeAction>)
    ensures
        step_result(
            *old(state),
            RuntimeEvent::KeybindFired {
                action,
                cycle_enabled,
                bypass_trigger,
                foreground,
                foreground_pid,
                own_pid,
            },
            *final(state),
            actions@,
        ),
{
    let mut actions: Vec<RuntimeAction> = Vec::new();
    // The target is resolved before anything is dismissed: a keybind
    // without a target leaves a live overlay alone.
    let target = if bypass_trigger {
        if foreground == 0 || foreground_pid == 0 || foreground_pid == own_pid {
            None
        } else {
            Some(foreground)
        }
    } else {
        state.pending_target
    };
    match target {
        None => {
            if bypass_trigger {
                state.status = text("No external foreground window is available.");
            } else {
                state.status = with_trigger("  \u{b7}  Capture a target first with ", &state.settings);
            }
        },
        Some(window) => {
            // Dismiss any overlay first so a later release cannot commit a
            // second time.
            state.radial_open = false;
            actions.push(RuntimeAction::CloseOverlays);
            actions.push(RuntimeAction::Apply { window, action, cycle_enabled });
            assert(actions@ =~= seq![
                RuntimeAction::CloseOverlays,
                RuntimeAction::Apply { window, action, cycle_enabled },
            ]);
        },
    }
    actions
}

fn on_capture_update(state: &mut RuntimeState, modifiers: u32, vk: u32, keybind: Option<String>) -> (actions: Vec<RuntimeAction>)
    ensures
        step_result(
            *old(state),
            RuntimeEvent::CaptureUpdate { modifiers, vk, keybind },
            *final(state),
            actions@,
        ),
{
    let mut actions: Vec<RuntimeAction> = Vec::new();
    match keybind {
        Some(id) => {
            match keybind_conflict(&state.settings, id.as_str(), modifiers, vk) {
                Some(reason) => {
                    state.capturing_keybind = None;
                    state.capturing_trigger = false;
                    state.status = reason;
                },
                None => {
                    rebind_keybind(&mut state.settings.keybinds, id.as_str(), modifiers, vk);
                    state.capturing_keybind = None;
                    state.capturing_trigger = false;
                    actions.push(RuntimeAction::CommitSettings(text("Keybind updated")));
                },
            }
        },
        None => {
            state.settings.trigger_modifiers = modifiers;
            state.settings.trigger_vk = vk;
            state.capturing_trigger = false;
            state.capturing_keybind = None;
            actions.push(RuntimeAction::CommitSettings(text("Trigger updated")));
        },
    }
    actions
}

fn on_capture_end(state: &mut RuntimeState, rejected: bool)
    ensures
        step_result(
            *old(state),
            if rejected { RuntimeEvent::CaptureRejected } else { RuntimeEvent::CaptureCancelled },
            *final(state),
            Seq::empty(),
        ),
{
    state.capturing_trigger = false;
    state.capturing_keybind = None;
    if rejected {
        state.status = text("That key is reserved by Windows. Choose another.");
    } else {
        state.status = text("Rebind cancelled");
    }
}

/// Decide what one event does (see [`step_result`]).
pub fn runtime_step(state: &mut RuntimeState, event: RuntimeEvent) -> (actions: Vec<RuntimeAction>)
    ensures
        step_result(*old(state), event, *final(state), actions@),
{
    match event {
        RuntimeEvent::TriggerPressed { foreground, foreground_pid, own_pid } => on_trigger_pressed(
            state,
            foreground,
            foreground_pid,
            own_pid,
        ),
        RuntimeEvent::TriggerReleased => on_trigger_end(state, RuntimeEvent::TriggerReleased),
        RuntimeEvent::TriggerTimedOut => on_trigger_end(state, RuntimeEvent::TriggerTimedOut),
        RuntimeEvent::TriggerCancelled => on_trigger_end(state, RuntimeEvent::TriggerCancelled),
        RuntimeEvent::KeybindFired {
            action,
            cycle_enabled,
            bypass_trigger,
            foreground,
            foreground_pid,
            own_pid,
        } => on_keybind_fired(
            state,
            action,
            cycle_enabled,
            bypass_trigger,
            foreground,
            foreground_pid,
            own_pid,
        ),
        RuntimeEvent::RevealStashed => {
            state.radial_open = false;
            let mut actions: Vec<RuntimeAction> = Vec::new();
            actions.push(RuntimeAction::CloseOverlays);
            actions.push(RuntimeAction::RevealStashed);
            assert(actions@ =~= seq![RuntimeAction::CloseOverlays, RuntimeAction::RevealStashed]);
            actions
        },
        RuntimeEvent::CaptureUpdate { modifiers, vk, keybind } => on_capture_update(
            state,
            modifiers,
            vk,
            keybind,
        ),
        RuntimeEvent::CaptureCancelled => {
            on_capture_end(state, false);
            Vec::new()
        },
        RuntimeEvent::CaptureRejected => {
            on_capture_end(state, true);
            Vec::new()
        },
        RuntimeEvent::Diagnostic(message) => {
            state.status = message;
            Vec::new()
        },
    }
}

/// Hold the trigger, release to place the window: a press while another
/// app's window is in front opens the radial for that window (when the
/// radial is enabled and not open yet), and the release that follows
/// commits the radial and forgets the target.
pub proof fn law_hold_then_release_commits(
    s0: RuntimeState,
    foreground: u64,
    foreground_pid: u32,
    own_pid: u32,
    s1: RuntimeState,
    a1: Seq<RuntimeAction>,
    s2: RuntimeState,
    a2: Seq<RuntimeAction>,
)
    requires
        usable_foreground(foreground, foreground_pid, own_pid),
        s0.settings.radial_enabled,
        !s0.radial_open,
        step_result(s0, RuntimeEvent::TriggerPressed { foreground, foreground_pid, own_pid }, s1, a1),
        step_result(s1, RuntimeEvent::TriggerReleased, s2, a2),
    ensures
        a1 == seq![RuntimeAction::OpenRadial(foreground)],
        s1.pending_target == Some(foreground),
        a2 == seq![RuntimeAction::CommitRadial],
        s2.pending_target is None,
        !s2.radial_open,
{
}

/// A keybind that does not bypass the trigger acts on the window the
/// trigger captured: after a press with another app's window in front,
/// the keybind closes the overlays and applies its action to that window.
pub proof fn law_keybind_acts_on_captured_window(
    s0: RuntimeState,
    foreground: u64,
    foreground_pid: u32,
    own_pid: u32,
    s1: RuntimeState,
    a1: Seq<RuntimeAction>,
    action: WindowAction,
    cycle_enabled: bool,
    later: u64,
    later_pid: u32,
    s2: RuntimeState,
    a2: Seq<RuntimeAction>,
)
    requires
        usable_foreground(foreground, foreground_pid, own_pid),
        step_result(s0, RuntimeEvent::TriggerPressed { foreground, foreground_pid, own_pid }, s1, a1),
        step_result(
            s1,
            RuntimeEvent::KeybindFired {
                action,
                cycle_enabled,
                bypass_trigger: false,
                foreground: later,
                foreground_pid: later_pid,
                own_pid,
            },
            s2,
            a2,
        ),
    ensures
        a2 == seq![
            RuntimeAction::CloseOverlays,
            RuntimeAction::Apply { window: foreground, action, cycle_enabled },
        ],
{
}

/// This app's own windows are never captured: a press while they are in
/// front leaves no target, so a keybind that does not bypass the trigger
/// does nothing to any window and asks for a target instead.
pub proof fn law_own_window_is_never_captured(
    s0: RuntimeState,
    foreground: u64,
    own_pid: u32,
    s1: RuntimeState,
    a1: Seq<RuntimeAction>,
    action: WindowAction,
    cycle_enabled: bool,
    s2: RuntimeState,
    a2: Seq<RuntimeAction>,
)
    requires
        step_result(
            s0,
            RuntimeEvent::TriggerPressed { foreground, foreground_pid: own_pid, own_pid },
            s1,
            a1,
        ),
        step_result(
            s1,
            RuntimeEvent::KeybindFired {
                action,
                cycle_enabled,
                bypass_trigger: false,
                foreground,
                foreground_pid: own_pid,
                own_pid,
            },
            s2,
            a2,
        ),
    ensures
        a1.len() == 0,
        a2.len() == 0,
        s2.pending_target is None,
        s2.status@ == "  \u{b7}  Capture a target first with "@ + trigger_label(s0.settings),
{
}

/// The status-line message for a settings load that fell back to the
/// defaults, unless the file was simply missing.
pub open spec fn load_problem(o: LoadOutcome) -> Option<Seq<char>> {
    if o is Fallback && o != LoadOutcome::Fallback(FallbackReason::Missing) {
        Some("Settings file "@ + description(o) + " \u{2014} restored defaults."@)
    } else {
        None
    }
}

/// The first status line: a missing keyboard hook or tray icon comes
/// first, then a load problem, else `Saved`.
pub open spec fn boot_status_of(hooks_ok: bool, tray_ok: bool, o: LoadOutcome) -> Seq<char> {
    if !hooks_ok {
        "Could not install the global keyboard hook"@
    } else if !tray_ok {
        "Tray icon unavailable \u{2014} quit via Task Manager or pipe"@
    } else {
        match load_problem(o) {
            Some(m) => m,
            None => "Saved"@,
        }
    }
}

/// The status line and the save error shown at start-up: the load
/// problem (if any) is kept as the save error whatever the status says.
pub fn boot_status(hooks_ok: bool, tray_ok: bool, outcome: LoadOutcome) -> (r: (String, Option<String>))
    ensures
        r.0@ == boot_status_of(hooks_ok, tray_ok, outcome),
        match r.1 {
            Some(m) => load_problem(outcome) == Some(m@),
            None => load_problem(outcome) is None,
        },
{
    let problem = match outcome {
        LoadOutcome::Fallback(FallbackReason::Missing) => None,
        LoadOutcome::Fallback(_) => {
            let mut out: Vec<char> = Vec::new();
            push_str(&mut out, "Settings file ");
            push_str(&mut out, outcome.describe());
            push_str(&mut out, " \u{2014} restored defaults.");
            Some(string_of(out.as_slice()))
        },
        _ => None,
    };
    let status = if !hooks_ok {
        text("Could not install the global keyboard hook")
    } else if !tray_ok {
        text("Tray icon unavailable \u{2014} quit via Task Manager or pipe")
    } else {
        match &problem {
            Some(m) => m.clone(),
            None => text("Saved"),
        }
    };
    (status, problem)
}

/// Report an applied action: on success the cycle cursor of `window` is
/// committed and the status is the message with the cycle suffix; on
/// failure the cursors are left alone and the status is the error.
pub fn finish_apply(
    cycle: &mut CycleState,
    window: u64,
    sel: CycleSelection,
    applied: Result<String, String>,
) -> (status: String)
    requires
        sel.is_cycle ==> sel.position < usize::MAX,
    ensures
        match applied {
            Ok(m) => {
                &&& final(cycle)@ == cursors_after_commit(old(cycle)@, window, sel)
                &&& status@ == m@ + cycle_suffix(sel)
            },
            Err(e) => {
                &&& final(cycle)@ == old(cycle)@
                &&& status@ == e@
            },
        },
{
    match applied {
        Ok(message) => {
            cycle.commit(window, sel);
            let suffix = sel.status_suffix();
            let mut out: Vec<char> = Vec::new();
            push_str(&mut out, message.as_str());
            push_str(&mut out, suffix.as_str());
            string_of(out.as_slice())
        },
        Err(error) => error,
    }
}

} // verus!
