use loopw::engine::rect::{Point, Rect};
use loopw::ui::runtime::{tick_interval, ACTIVE_TICK_INTERVAL, IDLE_TICK_INTERVAL};
use loopw::ui::section::Section;
use loopw::ui::settings_ui::{
    launch_entry_to_restore, set_launch_at_login, ui_step, LaunchStep, SettingsUiState, UiMessage,
    UiRequest,
};
use loopw::ui::theme::{matching_preset, preset, presets, PRESET_NAMES};
use loopw::ui::tray::{tray_menu_frame_by, TRAY_MENU_HEIGHT, TRAY_MENU_WIDTH};

#[test]
fn idle_runtime_uses_low_frequency_pump() {
    assert_eq!(tick_interval(true, false, false), IDLE_TICK_INTERVAL);
}

#[test]
fn overlays_drags_and_resident_pump_use_frame_rate_cadence() {
    assert_eq!(tick_interval(true, true, false), ACTIVE_TICK_INTERVAL);
    assert_eq!(tick_interval(true, false, true), ACTIVE_TICK_INTERVAL);
    assert_eq!(tick_interval(false, false, false), ACTIVE_TICK_INTERVAL);
}

#[test]
fn pump_periods_are_frame_rate_and_quarter_second() {
    assert_eq!(ACTIVE_TICK_INTERVAL, 16);
    assert_eq!(IDLE_TICK_INTERVAL, 250);
}

#[test]
fn sections_have_labels_and_hints() {
    assert_eq!(Section::ALL.len(), 5);
    assert_eq!(Section::General.label(), "General");
    assert_eq!(Section::Radial.label(), "Radial menu");
    assert_eq!(Section::Advanced.hint(), "Keybinds and recovery");
    assert_eq!(Section::Preview.hint(), "Target preview and snapping");
}

#[test]
fn presets_are_recognized_from_their_colors() {
    let p = preset(1);
    assert_eq!(matching_preset(p.accent, p.sector_fill, p.sector_stroke, p.ring_fill, p.preview_border), Some("LoopW Cobalt"));
    assert_eq!(
        matching_preset("#FF3D9BFF", " #7a3d9bff", "#F03D9BFF", "#B61B212B", "#B83D9BFF"),
        Some("LoopW Blue")
    );
    assert_eq!(matching_preset("#000000", "#7A3D9BFF", "#F03D9BFF", "#B61B212B", "#B83D9BFF"), None);
    assert_eq!(matching_preset("bad", "#7A3D9BFF", "#F03D9BFF", "#B61B212B", "#B83D9BFF"), None);
    let names: Vec<&str> = presets().iter().map(|p| p.name).collect();
    assert_eq!(names, PRESET_NAMES.to_vec());
}

fn tray_menu_frame(position: Point, monitor: Rect, scale: f64) -> Rect {
    let physical_width = (TRAY_MENU_WIDTH as f64 * scale).round() as i32;
    let physical_height = (TRAY_MENU_HEIGHT as f64 * scale).round() as i32;
    tray_menu_frame_by(position, monitor, physical_width, physical_height)
}

#[test]
fn tray_menu_frame_anchors_above_right_edge() {
    let frame = tray_menu_frame(Point::new(1920, 1080), Rect::new(0, 0, 1920, 1080), 1.0);

    assert_eq!(frame, Rect::new(1696, 924, 1920, 1080));
}

#[test]
fn tray_menu_frame_flips_inside_top_left_monitor_edges() {
    let frame = tray_menu_frame(Point::new(0, 0), Rect::new(0, 0, 1920, 1080), 1.0);

    assert_eq!(frame, Rect::new(0, 0, 224, 156));
}

#[test]
fn tray_menu_frame_scales_physical_size() {
    let frame = tray_menu_frame(Point::new(1920, 1080), Rect::new(0, 0, 2560, 1440), 1.5);

    assert_eq!(frame.width(), 336);
    assert_eq!(frame.height(), 234);
    assert_eq!(frame.right, 1920);
    assert_eq!(frame.bottom, 1080);
}

use loopw::engine::actions::WindowAction;
use loopw::engine::hotkey::TriggerModifierSide;
use loopw::engine::monitor::MonitorMoveSizePolicy;
use loopw::engine::radial_targets::{RadialTargetKind, RadialTargetSettings};
use loopw::settings::model::{AppSettings, Keybind};
use loopw::ui::choices::{
    action_choices, keybind_conflict, radial_target_from_choice, target_choice, target_choices,
};
use loopw::ui::command_plan::{plan_command, CommandStep};
use loopw::ui::edits::{apply_edit, parse_list, reset_section, ColorField, SettingsEdit};

#[test]
fn radial_target_choices_round_trip_built_in_and_none() {
    let settings = AppSettings::default();

    let none = radial_target_from_choice(&settings, "No action");
    assert_eq!(none.kind, RadialTargetKind::Nothing);

    let action = radial_target_from_choice(&settings, "Action: Left half");
    assert_eq!(action.kind, RadialTargetKind::Action);
    assert_eq!(action.action, WindowAction::LeftHalf);
}

#[test]
fn radial_target_choice_resolves_stable_keybind_id() {
    let mut settings = AppSettings::default();
    let bind = Keybind::default();
    let id = bind.id.clone();
    let action = bind.action;
    settings.keybinds.push(bind);

    let target = radial_target_from_choice(&settings, &format!("Keybind: {id} (Space)"));
    assert_eq!(target.kind, RadialTargetKind::Keybind);
    assert_eq!(target.keybind_id, id);
    assert_eq!(target.action, action);
}

#[test]
fn choices_show_targets_and_map_back() {
    let mut settings = AppSettings::default();
    settings.keybinds.push(Keybind {
        id: "k1".to_string(),
        modifiers: 0x2,
        vk: 0x41,
        action: WindowAction::Maximize,
        cycle_enabled: true,
        bypass_trigger: false,
    });
    let choices = target_choices(&settings);
    assert_eq!(choices.len(), 1 + 71 + 1);
    assert_eq!(choices[0], "No action");
    assert_eq!(choices[1], "Action: Left half");
    assert_eq!(choices[72], "Keybind: k1 (Ctrl + A)");
    assert_eq!(action_choices().len(), 72);
    let keyed = RadialTargetSettings {
        kind: RadialTargetKind::Keybind,
        action: WindowAction::Maximize,
        keybind_id: "k1".to_string(),
        cycle_enabled: true,
    };
    assert_eq!(target_choice(&settings, Some(&keyed)), "Keybind: k1 (Ctrl + A)");
    assert_eq!(radial_target_from_choice(&settings, "Keybind: k1 (Ctrl + A)"), keyed);
    assert_eq!(target_choice(&settings, None), "No action");
    let slot = &settings.radial_slots[0];
    assert_eq!(target_choice(&settings, Some(slot)), "Action: Right half");
    assert_eq!(radial_target_from_choice(&settings, "Action: No such thing").kind, RadialTargetKind::Nothing);
    assert_eq!(radial_target_from_choice(&settings, "Keybind: gone (A)").kind, RadialTargetKind::Nothing);
}

#[test]
fn conflicts_name_the_trigger_or_the_other_keybind() {
    let mut settings = AppSettings::default();
    settings.keybinds.push(Keybind {
        id: "k1".to_string(),
        modifiers: 0x2,
        vk: 0x41,
        action: WindowAction::Maximize,
        cycle_enabled: true,
        bypass_trigger: false,
    });
    assert_eq!(
        keybind_conflict(&settings, "", 0, 0x14),
        Some("Caps Lock is already the trigger.".to_string())
    );
    assert_eq!(
        keybind_conflict(&settings, "k2", 0x2, 0x41),
        Some("Ctrl + A is already used by another keybind.".to_string())
    );
    assert_eq!(keybind_conflict(&settings, "k1", 0x2, 0x41), None);
}

#[test]
fn edits_clamp_nudges_and_report_status() {
    let mut s = AppSettings::default();
    let o = apply_edit(&mut s, SettingsEdit::NudgeDelay(5000));
    assert_eq!(s.trigger_delay_ms, 1000);
    assert_eq!(o.commit_status, Some("Trigger updated"));
    let o = apply_edit(&mut s, SettingsEdit::NudgeStashPeek(-100));
    assert_eq!(s.stash_peek, 1);
    assert_eq!(o.commit_status, Some("Saved"));
    apply_edit(&mut s, SettingsEdit::SetModifierSide("Right".to_string()));
    assert_eq!(s.trigger_modifier_side, TriggerModifierSide::Right);
    apply_edit(&mut s, SettingsEdit::SetModifierSide("sideways".to_string()));
    assert_eq!(s.trigger_modifier_side, TriggerModifierSide::Any);
    apply_edit(&mut s, SettingsEdit::SetMonitorPolicy("PreserveLogicalSize".to_string()));
    assert_eq!(s.monitor_move_policy, MonitorMoveSizePolicy::PreserveLogicalSize);
    apply_edit(&mut s, SettingsEdit::NudgePaddingLeft(200));
    assert_eq!(s.padding_left, 128);
}

#[test]
fn edits_change_keybinds_by_id() {
    let mut s = AppSettings::default();
    apply_edit(&mut s, SettingsEdit::AddKeybind);
    assert_eq!(s.keybinds.len(), 1);
    let id = s.keybinds[0].id.clone();
    apply_edit(&mut s, SettingsEdit::ToggleKeybindCycle(id.clone()));
    assert!(!s.keybinds[0].cycle_enabled);
    apply_edit(&mut s, SettingsEdit::ToggleKeybindBypass(id.clone()));
    assert!(s.keybinds[0].bypass_trigger);
    apply_edit(&mut s, SettingsEdit::SetKeybindAction(id.clone(), "Maximize".to_string()));
    assert_eq!(s.keybinds[0].action, WindowAction::Maximize);
    apply_edit(&mut s, SettingsEdit::SetKeybindAction(id.clone(), "Nope".to_string()));
    assert_eq!(s.keybinds[0].action, WindowAction::Maximize);
    apply_edit(&mut s, SettingsEdit::DeleteKeybind(id));
    assert!(s.keybinds.is_empty());
}

#[test]
fn edits_set_wedges_and_colors() {
    let mut s = AppSettings::default();
    apply_edit(&mut s, SettingsEdit::SetRadialTarget(Some(2), "Action: Maximize".to_string()));
    assert_eq!(s.radial_slots[2], RadialTargetSettings::action(WindowAction::Maximize));
    apply_edit(&mut s, SettingsEdit::ToggleRadialCycle(None));
    assert!(!s.center_target.cycle_enabled);
    apply_edit(&mut s, SettingsEdit::ClearWedge(0));
    assert_eq!(s.radial_slots[0], RadialTargetSettings::none());
    apply_edit(&mut s, SettingsEdit::ClearWedge(99));
    assert_eq!(s.radial_slots.len(), 8);
    let o = apply_edit(&mut s, SettingsEdit::EditColor(ColorField::Accent, "#123456".to_string()));
    assert_eq!(s.accent_color, "#123456");
    assert_eq!(o.color_error, Some(None));
    let o = apply_edit(&mut s, SettingsEdit::ApplyPreset("LoopW Violet".to_string()));
    assert_eq!(s.accent_color, "#8B5CF6");
    assert_eq!(o.commit_status, Some("Saved"));
    let o = apply_edit(&mut s, SettingsEdit::ApplyPreset("Nope".to_string()));
    assert_eq!(o.commit_status, None);
    assert_eq!(s.accent_color, "#8B5CF6");
}

#[test]
fn exclusion_text_splits_on_commas_and_newlines() {
    assert_eq!(
        parse_list(" a.exe ,\nb.exe,, \n"),
        vec!["a.exe".to_string(), "b.exe".to_string()]
    );
    let mut s = AppSettings::default();
    apply_edit(&mut s, SettingsEdit::EditExcludedProcesses("obs, game".to_string()));
    assert_eq!(s.excluded_processes, vec!["obs".to_string(), "game".to_string()]);
}

#[test]
fn resets_restore_one_section_or_everything() {
    let mut s = AppSettings::default();
    s.trigger_vk = 0x41;
    s.global_padding = 20;
    reset_section(&mut s, loopw::ui::section::Section::General);
    assert_eq!(s.trigger_vk, 0x14);
    assert_eq!(s.global_padding, 20);
    let o = apply_edit(&mut s, SettingsEdit::ResetAll);
    assert_eq!(s, AppSettings::default());
    assert_eq!(o.commit_status, Some("Reset complete"));
}

#[test]
fn commands_plan_replies_and_window_work() {
    let settings = AppSettings::default();
    assert_eq!(plan_command("activate", &settings), CommandStep::Activate);
    assert_eq!(
        plan_command("action/maximize", &settings),
        CommandStep::ApplyToForeground(WindowAction::Maximize)
    );
    assert_eq!(plan_command("action/reveal-stashed", &settings), CommandStep::RevealStashed);
    match plan_command("bogus", &settings) {
        CommandStep::Reply(text) => assert!(text.starts_with("ERROR: ")),
        other => panic!("unexpected {other:?}"),
    }
    match plan_command("list/keybinds", &settings) {
        CommandStep::Reply(text) => assert_eq!(text, "trigger: Caps Lock\r\nkeybinds: none"),
        other => panic!("unexpected {other:?}"),
    }
    match plan_command("list/all", &settings) {
        CommandStep::Reply(text) => {
            assert!(text.starts_with("Actions:\r\naction/"));
            assert!(text.ends_with("\r\n\r\nKeybinds:\r\ntrigger: Caps Lock\r\nkeybinds: none"));
        }
        other => panic!("unexpected {other:?}"),
    }
}

#[test]
fn action_names_follow_the_catalog() {
    let names = loopw::ui::choices::action_names();
    assert_eq!(names.len(), 71);
    assert_eq!(names[0], "Left half");
    for (i, action) in WindowAction::ALL.iter().enumerate() {
        assert_eq!(names[i], action.display_name());
        let choice = format!("Action: {}", action.display_name());
        assert_eq!(
            radial_target_from_choice(&AppSettings::default(), &choice),
            RadialTargetSettings::action(*action)
        );
    }
}

#[test]
fn settings_window_moves_its_own_state() {
    let mut state = SettingsUiState {
        section: Section::General,
        status: "Saved".to_string(),
        capturing_trigger: false,
        capturing_keybind: None,
        confirming_reset_all: true,
    };
    assert_eq!(ui_step(&mut state, UiMessage::SelectSection(Section::Advanced)), None);
    assert_eq!(state.section, Section::Advanced);
    assert!(!state.confirming_reset_all);
    assert_eq!(ui_step(&mut state, UiMessage::BeginTriggerCapture), Some(UiRequest::CaptureTrigger));
    assert!(state.capturing_trigger);
    assert_eq!(state.status, "Press a key\u{2026} (Esc cancels)");
    assert_eq!(
        ui_step(&mut state, UiMessage::BeginKeybindCapture("k1".to_string())),
        Some(UiRequest::CaptureKeybind("k1".to_string()))
    );
    assert!(!state.capturing_trigger);
    assert_eq!(state.capturing_keybind, Some("k1".to_string()));
    assert_eq!(ui_step(&mut state, UiMessage::CancelTriggerCapture), Some(UiRequest::CancelCapture));
    assert_eq!(state.capturing_keybind, None);
    assert_eq!(state.status, "Saved");
    assert_eq!(ui_step(&mut state, UiMessage::ConfirmResetAll), None);
    assert!(state.confirming_reset_all);
    assert_eq!(ui_step(&mut state, UiMessage::CancelResetAll), None);
    assert!(!state.confirming_reset_all);
    assert_eq!(ui_step(&mut state, UiMessage::ClearDiagnostics), Some(UiRequest::ClearDiagnostics));
    assert_eq!(state.status, "Diagnostics cleared");
}

#[test]
fn launch_at_login_follows_the_registry() {
    let mut settings = AppSettings::default();
    assert_eq!(set_launch_at_login(&mut settings, true, true), LaunchStep::Commit);
    assert!(settings.launch_at_login);
    assert_eq!(
        set_launch_at_login(&mut settings, true, false),
        LaunchStep::Refused("Could not update launch setting".to_string())
    );
    assert!(!settings.launch_at_login);
    assert_eq!(launch_entry_to_restore(false, true), Some(false));
    assert_eq!(launch_entry_to_restore(true, true), None);
}
