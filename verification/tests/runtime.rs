use loopw::engine::actions::WindowAction;
use loopw::engine::cycle::CycleState;
use loopw::engine::hotkey::{hotkey_name, TriggerModifierSide};
use loopw::settings::load_report::{FallbackReason, LoadOutcome};
use loopw::settings::model::{AppSettings, Keybind};
use loopw::ui::runtime::{next_tries, OVERLAY_PATCH_ATTEMPTS, PREVIEW_ORDER_ATTEMPTS};
use loopw::ui::runtime_step::{
    boot_status, finish_apply, runtime_step, RuntimeAction, RuntimeEvent, RuntimeState,
};

const OWN_PID: u32 = 4242;

fn fresh_state() -> RuntimeState {
    let mut settings = AppSettings::default();
    settings.keybinds.push(Keybind {
        id: "left".to_string(),
        modifiers: 0x2,
        vk: 0x25,
        action: WindowAction::LeftHalf,
        cycle_enabled: true,
        bypass_trigger: false,
    });
    RuntimeState {
        settings,
        pending_target: None,
        radial_open: false,
        capturing_trigger: false,
        capturing_keybind: None,
        status: String::new(),
    }
}

fn trigger_name(state: &RuntimeState) -> String {
    hotkey_name(
        state.settings.trigger_modifiers,
        state.settings.trigger_vk,
        state.settings.trigger_modifier_side,
    )
}

fn press(foreground: u64, pid: u32) -> RuntimeEvent {
    RuntimeEvent::TriggerPressed { foreground, foreground_pid: pid, own_pid: OWN_PID }
}

fn keybind(bypass: bool, foreground: u64, pid: u32) -> RuntimeEvent {
    RuntimeEvent::KeybindFired {
        action: WindowAction::LeftHalf,
        cycle_enabled: true,
        bypass_trigger: bypass,
        foreground,
        foreground_pid: pid,
        own_pid: OWN_PID,
    }
}

#[test]
fn holding_then_releasing_the_trigger_opens_and_commits_the_radial() {
    let mut state = fresh_state();
    assert_eq!(runtime_step(&mut state, press(77, 10)), vec![RuntimeAction::OpenRadial(77)]);
    assert_eq!(state.pending_target, Some(77));
    assert!(state.radial_open);
    assert_eq!(runtime_step(&mut state, RuntimeEvent::TriggerReleased), vec![RuntimeAction::CommitRadial]);
    assert_eq!(state.pending_target, None);
    assert!(!state.radial_open);
    assert_eq!(runtime_step(&mut state, RuntimeEvent::TriggerReleased), Vec::<RuntimeAction>::new());
}

#[test]
fn a_second_press_while_open_only_moves_the_target() {
    let mut state = fresh_state();
    runtime_step(&mut state, press(77, 10));
    assert_eq!(runtime_step(&mut state, press(78, 11)), Vec::<RuntimeAction>::new());
    assert_eq!(state.pending_target, Some(78));
}

#[test]
fn pressing_over_this_app_asks_for_another_window() {
    let mut state = fresh_state();
    state.pending_target = Some(5);
    assert_eq!(runtime_step(&mut state, press(77, OWN_PID)), Vec::<RuntimeAction>::new());
    assert_eq!(state.pending_target, None);
    assert_eq!(state.status, format!("Focus another app, then hold {}", trigger_name(&state)));
    runtime_step(&mut state, press(0, 10));
    assert_eq!(state.status, format!("Focus another app, then hold {}", trigger_name(&state)));
}

#[test]
fn a_disabled_radial_still_captures_the_target() {
    let mut state = fresh_state();
    state.settings.radial_enabled = false;
    assert_eq!(runtime_step(&mut state, press(77, 10)), Vec::<RuntimeAction>::new());
    assert_eq!(state.pending_target, Some(77));
    assert!(!state.radial_open);
}

#[test]
fn timeouts_and_cancels_close_the_overlays() {
    let mut state = fresh_state();
    runtime_step(&mut state, press(77, 10));
    assert_eq!(runtime_step(&mut state, RuntimeEvent::TriggerTimedOut), vec![RuntimeAction::CloseOverlays]);
    assert_eq!(state.status, "Trigger timed out \u{2014} no action committed");
    assert_eq!(state.pending_target, None);
    runtime_step(&mut state, press(77, 10));
    assert_eq!(runtime_step(&mut state, RuntimeEvent::TriggerCancelled), vec![RuntimeAction::CloseOverlays]);
    assert_eq!(state.status, "Trigger cancelled");
}

#[test]
fn keybinds_act_on_the_captured_window() {
    let mut state = fresh_state();
    runtime_step(&mut state, press(77, 10));
    let actions = runtime_step(&mut state, keybind(false, 99, 12));
    assert_eq!(
        actions,
        vec![
            RuntimeAction::CloseOverlays,
            RuntimeAction::Apply { window: 77, action: WindowAction::LeftHalf, cycle_enabled: true },
        ]
    );
    assert!(!state.radial_open);
}

#[test]
fn keybinds_without_a_target_ask_for_one() {
    let mut state = fresh_state();
    state.status = "before".to_string();
    assert_eq!(runtime_step(&mut state, keybind(false, 99, 12)), Vec::<RuntimeAction>::new());
    assert_eq!(
        state.status,
        format!("  \u{b7}  Capture a target first with {}", trigger_name(&state))
    );
}

#[test]
fn bypass_keybinds_act_on_the_foreground_window() {
    let mut state = fresh_state();
    let actions = runtime_step(&mut state, keybind(true, 99, 12));
    assert_eq!(
        actions,
        vec![
            RuntimeAction::CloseOverlays,
            RuntimeAction::Apply { window: 99, action: WindowAction::LeftHalf, cycle_enabled: true },
        ]
    );
    state.radial_open = true;
    assert_eq!(runtime_step(&mut state, keybind(true, 99, OWN_PID)), Vec::<RuntimeAction>::new());
    assert_eq!(state.status, "No external foreground window is available.");
    assert!(state.radial_open);
}

#[test]
fn reveal_closes_the_overlays_first() {
    let mut state = fresh_state();
    assert_eq!(
        runtime_step(&mut state, RuntimeEvent::RevealStashed),
        vec![RuntimeAction::CloseOverlays, RuntimeAction::RevealStashed]
    );
}

#[test]
fn captured_keybinds_are_checked_for_conflicts() {
    let mut state = fresh_state();
    state.capturing_keybind = Some("left".to_string());
    let trigger_vk = state.settings.trigger_vk;
    let trigger_mods = state.settings.trigger_modifiers;
    let actions = runtime_step(
        &mut state,
        RuntimeEvent::CaptureUpdate { modifiers: trigger_mods, vk: trigger_vk, keybind: Some("left".to_string()) },
    );
    assert_eq!(actions, Vec::<RuntimeAction>::new());
    assert_eq!(
        state.status,
        format!("{} is already the trigger.", hotkey_name(trigger_mods, trigger_vk, TriggerModifierSide::Any))
    );
    assert_eq!(state.capturing_keybind, None);
    assert_eq!(state.settings.keybinds.last().unwrap().vk, 0x25);
}

#[test]
fn captured_keybinds_are_stored_and_committed() {
    let mut state = fresh_state();
    state.capturing_keybind = Some("left".to_string());
    let actions = runtime_step(
        &mut state,
        RuntimeEvent::CaptureUpdate { modifiers: 0x1, vk: 0x4A, keybind: Some("left".to_string()) },
    );
    assert_eq!(actions, vec![RuntimeAction::CommitSettings("Keybind updated".to_string())]);
    let bind = state.settings.keybinds.iter().find(|k| k.id == "left").unwrap();
    assert_eq!((bind.modifiers, bind.vk), (0x1, 0x4A));
    assert_eq!(state.capturing_keybind, None);
}

#[test]
fn a_captured_trigger_is_stored_and_committed() {
    let mut state = fresh_state();
    state.capturing_trigger = true;
    let actions = runtime_step(&mut state, RuntimeEvent::CaptureUpdate { modifiers: 0x2, vk: 0x20, keybind: None });
    assert_eq!(actions, vec![RuntimeAction::CommitSettings("Trigger updated".to_string())]);
    assert_eq!((state.settings.trigger_modifiers, state.settings.trigger_vk), (0x2, 0x20));
    assert!(!state.capturing_trigger);
}

#[test]
fn capture_cancel_reject_and_diagnostics_set_the_status() {
    let mut state = fresh_state();
    state.capturing_trigger = true;
    runtime_step(&mut state, RuntimeEvent::CaptureCancelled);
    assert_eq!(state.status, "Rebind cancelled");
    assert!(!state.capturing_trigger);
    runtime_step(&mut state, RuntimeEvent::CaptureRejected);
    assert_eq!(state.status, "That key is reserved by Windows. Choose another.");
    runtime_step(&mut state, RuntimeEvent::Diagnostic("Hook failed".to_string()));
    assert_eq!(state.status, "Hook failed");
}

#[test]
fn the_cycle_advances_only_after_a_successful_apply() {
    let mut cycle = CycleState::new();
    let first = cycle.select(7, WindowAction::RightHalf, true);
    let status = finish_apply(&mut cycle, 7, first, Err("Window is gone".to_string()));
    assert_eq!(status, "Window is gone");
    let again = cycle.select(7, WindowAction::RightHalf, true);
    assert_eq!(again.effective, WindowAction::RightHalf);
    let status = finish_apply(&mut cycle, 7, again, Ok("Right half".to_string()));
    assert_eq!(status, "Right half  \u{b7}  Cycle 1/3");
    let next = cycle.select(7, WindowAction::RightHalf, true);
    assert_eq!(next.effective, WindowAction::RightThird);
}

#[test]
fn boot_status_puts_hook_and_tray_failures_first() {
    assert_eq!(boot_status(true, true, LoadOutcome::Clean), ("Saved".to_string(), None));
    assert_eq!(
        boot_status(true, true, LoadOutcome::Fallback(FallbackReason::Missing)),
        ("Saved".to_string(), None)
    );
    let problem = "Settings file was truncated mid-write \u{2014} restored defaults.".to_string();
    assert_eq!(
        boot_status(true, true, LoadOutcome::Fallback(FallbackReason::Truncated)),
        (problem.clone(), Some(problem.clone()))
    );
    assert_eq!(
        boot_status(false, true, LoadOutcome::Fallback(FallbackReason::Truncated)),
        ("Could not install the global keyboard hook".to_string(), Some(problem.clone()))
    );
    assert_eq!(
        boot_status(true, false, LoadOutcome::Repaired),
        ("Tray icon unavailable \u{2014} quit via Task Manager or pipe".to_string(), None)
    );
}

#[test]
fn overlay_retries_are_bounded() {
    assert_eq!(OVERLAY_PATCH_ATTEMPTS, 60);
    assert_eq!(PREVIEW_ORDER_ATTEMPTS, 12);
    assert_eq!(next_tries(0, OVERLAY_PATCH_ATTEMPTS, false), 1);
    assert_eq!(next_tries(5, OVERLAY_PATCH_ATTEMPTS, true), 60);
    assert_eq!(next_tries(59, OVERLAY_PATCH_ATTEMPTS, false), 60);
    assert_eq!(next_tries(60, OVERLAY_PATCH_ATTEMPTS, false), 60);
    assert_eq!(next_tries(11, PREVIEW_ORDER_ATTEMPTS, false), 12);
}
