use loopw::engine::actions::WindowAction;
use loopw::engine::hotkey::{TriggerModifierSide, VK_CAPITAL, VK_SPACE};
use loopw::engine::radial_targets::{RadialTargetKind, RadialTargetSettings};
use loopw::engine::rect::Rect;
use loopw::engine::stash::{StashEdge, StashMonitor, StashPlacement, StashRecord, StashRect, DPI_96_BITS};
use loopw::settings::color::{normalize_color, to_argb_bytes};
use loopw::settings::compare::settings_equal;
use loopw::settings::exclusions::{dedup_by_keys, dedup_keep_order, normalize_exclusions};
use loopw::settings::ids::{fresh_id_avoiding, repair_ids};
use loopw::settings::load_report::{
    fallback, normalized_defaults, outcome_for, outcome_for_keys, reason_for_error_kind,
    reason_for_parse_error,
    FallbackReason, LoadOutcome, EXPECTED_KEYS,
};
use loopw::settings::model::{AppSettings, Keybind};
use loopw::settings::normalize::{clamp_f64_bits, normalize_keybinds, normalize_stash_records};
use loopw::settings::sync::{finish_commit, prepare_commit, trigger_changed, CommitReport, SAVE_ERROR_MESSAGE};

#[test]
fn normalizes_rgb_and_argb() {
    assert_eq!(normalize_color("#3D9BFF", "#FF007AFF"), "#FF3D9BFF");
    assert_eq!(normalize_color("#7A3D9BFF", "#FF007AFF"), "#7A3D9BFF");
}

#[test]
fn falls_back_on_invalid() {
    assert_eq!(normalize_color("nope", "#FF007AFF"), "#FF007AFF");
    assert_eq!(normalize_color("", "#FF007AFF"), "#FF007AFF");
}

#[test]
fn colors_are_trimmed_uppercased_and_stripped_of_hashes() {
    assert_eq!(normalize_color("  ##3d9bff ", "#000000"), "#FF3D9BFF");
    assert_eq!(normalize_color("+3d9bff0", "#000000"), "#FF000000");
    assert_eq!(normalize_color("nope", "also bad"), "#FF007AFF");
    assert_eq!(normalize_color("#12345", "#ABCDEF"), "#FFABCDEF");
}

#[test]
fn a_signed_color_falls_back() {
    assert_eq!(normalize_color("#+3D9BF", "#FF007AFF"), "#FF007AFF");
    assert_eq!(normalize_color("+3D9BFF", "#123456"), "#FF123456");
    assert_eq!(to_argb_bytes("#+7A3D9BF"), None);
}

#[test]
fn canonical_colors_split_into_argb_bytes() {
    assert_eq!(to_argb_bytes("#7A3D9BFF"), Some([0x7A, 0x3D, 0x9B, 0xFF]));
    assert_eq!(to_argb_bytes("#3D9BFF"), None);
    assert_eq!(to_argb_bytes("#GG3D9BFF"), None);
}

fn keybind(id: &str, modifiers: u32) -> Keybind {
    Keybind {
        id: id.to_string(),
        modifiers,
        vk: 0x41,
        action: WindowAction::LeftHalf,
        cycle_enabled: false,
        bypass_trigger: true,
    }
}

#[test]
fn keybind_defaults_use_space_and_a_fresh_id() {
    let k = Keybind::default();
    assert_eq!(k.vk, VK_SPACE);
    assert_eq!(k.action, WindowAction::RightHalf);
    assert!(k.cycle_enabled && !k.bypass_trigger);
    assert_eq!(k.id.len(), 32);
    assert!(k.id.chars().all(|c| c.is_ascii_hexdigit() && !c.is_ascii_uppercase()));
}

#[test]
fn keybind_ids_are_repaired_and_modifiers_masked() {
    let mut binds = vec![keybind("a", 0x12), keybind("a", 0x4), keybind("  ", 0), keybind("b", 0xF)];
    normalize_keybinds(&mut binds);
    assert_eq!(binds.len(), 4);
    assert_eq!(binds[0].id, "a");
    assert_eq!(binds[0].modifiers, 0x2);
    assert_ne!(binds[1].id, "a");
    assert!(!binds[1].id.trim().is_empty());
    assert!(!binds[2].id.trim().is_empty());
    assert_eq!(binds[3].id, "b");
    assert_eq!(binds[3].modifiers, 0xF);
    let mut ids: Vec<&String> = binds.iter().map(|b| &b.id).collect();
    ids.sort();
    ids.dedup();
    assert_eq!(ids.len(), 4);
    assert_eq!(binds[1].vk, 0x41);
    assert!(binds[1].bypass_trigger);
}

#[test]
fn unique_ids_are_kept_as_they_are() {
    let ids = vec!["x".to_string(), "y".to_string()];
    assert_eq!(repair_ids(&ids), ids);
    let fresh = fresh_id_avoiding(&ids);
    assert!(!ids.contains(&fresh));
    assert!(!fresh.trim().is_empty());
}

#[test]
fn exclusions_are_trimmed_and_deduplicated_without_case() {
    let mut exes = vec![
        "  C:\\Tools\\obs64.exe ".to_string(),
        "c:\\tools\\OBS64.EXE".to_string(),
        "   ".to_string(),
        "D:\\game.exe".to_string(),
    ];
    let mut procs = vec![
        "C:\\Tools\\obs64\\obs64.exe".to_string(),
        "OBS64".to_string(),
        "/usr/bin/game.tar.gz".to_string(),
        "dir/".to_string(),
    ];
    normalize_exclusions(&mut exes, &mut procs);
    assert_eq!(exes, vec!["C:\\Tools\\obs64.exe".to_string(), "D:\\game.exe".to_string()]);
    assert_eq!(procs, vec!["obs64".to_string(), "game.tar".to_string()]);
}

#[test]
fn process_names_lose_only_their_last_extension() {
    let mut settings = AppSettings {
        excluded_processes: vec![
            "C:/Games/my.app.exe".to_string(),
            "GAME".to_string(),
            "game.exe".to_string(),
        ],
        ..AppSettings::default()
    };
    settings.normalize();
    assert_eq!(settings.excluded_processes, vec!["my.app".to_string(), "GAME".to_string()]);
}

#[test]
fn a_bare_extension_leaves_no_process_name() {
    let mut exes: Vec<String> = Vec::new();
    let mut procs = vec![".exe".to_string(), "tool.".to_string(), "x.y".to_string()];
    normalize_exclusions(&mut exes, &mut procs);
    assert_eq!(procs, vec!["tool".to_string(), "x".to_string()]);
}

#[test]
fn dotted_process_names_lose_another_extension_on_a_second_pass() {
    let mut settings = AppSettings {
        excluded_processes: vec!["my.app.exe".to_string()],
        ..AppSettings::default()
    };
    settings.normalize();
    assert_eq!(settings.excluded_processes, vec!["my.app".to_string()]);
    settings.normalize();
    assert_eq!(settings.excluded_processes, vec!["my".to_string()]);
}

#[test]
fn dedup_keeps_the_first_spelling() {
    let items = vec!["Alpha".to_string(), "ALPHA".to_string(), "beta".to_string()];
    assert_eq!(dedup_keep_order(&items), vec!["Alpha".to_string(), "beta".to_string()]);
    let keys = vec!["k".to_string(), "k".to_string(), "j".to_string()];
    assert_eq!(dedup_by_keys(&items, &keys), vec!["Alpha".to_string(), "beta".to_string()]);
}

fn stash_record(id: &str, dpi_bits: u64) -> StashRecord {
    StashRecord {
        id: id.to_string(),
        executable_path: "C:\\Windows\\System32\\notepad.exe".to_string(),
        process_id: 44,
        window_class: "Notepad".to_string(),
        title: "Untitled - Notepad".to_string(),
        edge: StashEdge::Right,
        original_placement: StashPlacement::default(),
        original_monitor: StashMonitor {
            monitor: StashRect::from(Rect::new(0, 0, 1920, 1080)),
            work: StashRect::from(Rect::new(0, 0, 1920, 1040)),
            dpi_x_bits: dpi_bits,
            dpi_y_bits: 144f64.to_bits(),
        },
        stashed_frame: StashRect { left: 1912, top: 0, right: 3832, bottom: 1040 },
    }
}

#[test]
fn stash_records_keep_the_newest_and_repair_dpi() {
    let mut records: Vec<StashRecord> = (0..70).map(|i| stash_record(&format!("r{i}"), 96f64.to_bits())).collect();
    records[69].original_monitor.dpi_x_bits = f64::NAN.to_bits();
    records[68].original_monitor.dpi_x_bits = (-1.0f64).to_bits();
    records[67].original_monitor.dpi_x_bits = 0;
    normalize_stash_records(&mut records);
    assert_eq!(records.len(), 64);
    assert_eq!(records[0].id, "r6");
    assert_eq!(records[63].original_monitor.dpi_x_bits, DPI_96_BITS);
    assert_eq!(records[62].original_monitor.dpi_x_bits, DPI_96_BITS);
    assert_eq!(records[61].original_monitor.dpi_x_bits, DPI_96_BITS);
    assert_eq!(records[60].original_monitor.dpi_x_bits, 96f64.to_bits());
    assert_eq!(records[63].original_monitor.dpi_y_bits, 144f64.to_bits());
}

#[test]
fn duplicate_stash_ids_are_made_unique() {
    let mut records = vec![stash_record("dup", DPI_96_BITS), stash_record("dup", DPI_96_BITS)];
    normalize_stash_records(&mut records);
    assert_eq!(records.len(), 2);
    assert_eq!(records[0].id, "dup");
    assert_ne!(records[1].id, "dup");
}

#[test]
fn trigger_and_integer_fields_normalize() {
    let mut settings = AppSettings {
        trigger_vk: 0,
        trigger_modifiers: 0x1F,
        trigger_delay_ms: 5000,
        trigger_timeout_ms: -4,
        drag_snap_threshold: 500,
        global_padding: 999,
        stash_peek: 0,
        appearance_mode: "Neon".to_string(),
        ..AppSettings::default()
    };
    settings.normalize();
    assert_eq!(settings.trigger_vk, VK_CAPITAL);
    assert_eq!(settings.trigger_modifiers, 0xF);
    assert_eq!(settings.trigger_delay_ms, 1000);
    assert_eq!(settings.trigger_timeout_ms, 0);
    assert_eq!(settings.drag_snap_threshold, 96);
    assert_eq!(settings.global_padding, 128);
    assert_eq!(settings.stash_peek, 1);
    assert_eq!(settings.appearance_mode, "Dark");
    assert_eq!(settings.accent_color, "#FF3D9BFF");
    assert_eq!(settings.radial_slots.len(), 8);
}

#[test]
fn invalid_radial_targets_become_none() {
    let mut settings = AppSettings::default();
    settings.radial_slots[0].kind = RadialTargetKind::Keybind;
    settings.radial_slots[0].keybind_id = "missing".to_string();
    settings.normalize();
    assert_eq!(settings.radial_slots[0].kind, RadialTargetKind::Nothing);
}

#[test]
fn radial_targets_naming_existing_keybinds_survive() {
    let mut settings = AppSettings::default();
    settings.keybinds.push(keybind("kb", 0));
    settings.center_target = RadialTargetSettings {
        kind: RadialTargetKind::Keybind,
        action: WindowAction::RightHalf,
        keybind_id: "kb".to_string(),
        cycle_enabled: false,
    };
    settings.radial_slots.truncate(3);
    settings.normalize();
    assert_eq!(settings.center_target.kind, RadialTargetKind::Keybind);
    assert_eq!(settings.radial_slots.len(), 8);
    assert_eq!(settings.radial_slots[7], RadialTargetSettings::none());
}

#[test]
fn normalizing_twice_changes_nothing_more() {
    let mut settings = AppSettings {
        trigger_delay_ms: 5000,
        accent_color: "bad".to_string(),
        excluded_processes: vec!["  C:\\x\\App.EXE ".to_string(), "app".to_string()],
        ..AppSettings::default()
    };
    settings.keybinds.push(keybind("", 0));
    settings.normalize();
    let once = settings.clone();
    settings.normalize();
    assert_eq!(settings, once);
    assert!(settings_equal(&settings, &once));
}

#[test]
fn settings_helpers() {
    assert_eq!(AppSettings::modifier_mask(), 0xF);
    let mut s = AppSettings {
        global_padding: -10,
        padding_left: 4,
        padding_top: 20,
        appearance_mode: "Light".to_string(),
        ..AppSettings::default()
    };
    assert_eq!(s.padding_edges(), (0, 10, 0, 0));
    assert!(s.is_light());
    s.appearance_mode = "FollowWindows".to_string();
    assert!(!s.is_light());
    s.reset_all();
    assert_eq!(s, AppSettings::default());
    assert_eq!(s.trigger_modifier_side, TriggerModifierSide::Any);
}

#[test]
fn outcomes_describe_themselves() {
    assert_eq!(LoadOutcome::Clean.describe(), "loaded cleanly");
    assert_eq!(LoadOutcome::Migrated.describe(), "migrated from an older version");
    assert_eq!(LoadOutcome::Fallback(FallbackReason::Truncated).describe(), "was truncated mid-write");
    assert!(LoadOutcome::Fallback(FallbackReason::Missing).is_fallback());
    assert!(!LoadOutcome::Repaired.is_fallback());
}

#[test]
fn parse_error_kinds_pick_the_fallback() {
    assert_eq!(reason_for_error_kind(true, false), FallbackReason::Truncated);
    assert_eq!(reason_for_error_kind(false, true), FallbackReason::InvalidTypes);
    assert_eq!(reason_for_error_kind(false, false), FallbackReason::InvalidJson);
}

#[test]
fn fallback_reports_normalized_defaults() {
    let report = fallback(FallbackReason::Unreadable, Some("denied".to_string()));
    assert_eq!(report.outcome, LoadOutcome::Fallback(FallbackReason::Unreadable));
    assert_eq!(report.detail.as_deref(), Some("denied"));
    assert_eq!(report.settings, normalized_defaults());
    assert_eq!(report.settings.accent_color, "#FF3D9BFF");
}

#[test]
fn missing_keys_mean_migrated_and_changes_mean_repaired() {
    let parsed = AppSettings::default();
    let normalized = normalized_defaults();
    let all: Vec<String> = EXPECTED_KEYS.iter().map(|k| k.to_string()).collect();
    let partial = vec!["TriggerVk".to_string()];
    assert_eq!(outcome_for_keys(&Some(partial), &parsed, &normalized), LoadOutcome::Migrated);
    assert_eq!(outcome_for_keys(&Some(all.clone()), &parsed, &normalized), LoadOutcome::Repaired);
    assert_eq!(outcome_for_keys(&Some(all), &normalized, &normalized), LoadOutcome::Clean);
    assert_eq!(outcome_for_keys(&None, &normalized, &normalized), LoadOutcome::Clean);
    assert_eq!(outcome_for("{\"TriggerVk\": 65}", &normalized, &normalized), LoadOutcome::Migrated);
    assert_eq!(outcome_for("[1, 2]", &normalized, &normalized), LoadOutcome::Clean);
}

fn commit(candidate: AppSettings, last_saved: AppSettings, persist: bool, success_status: &str) -> CommitReport {
    let (to_save, changed) = prepare_commit(candidate, &last_saved);
    finish_commit(to_save, last_saved, persist, changed, success_status)
}

#[test]
fn success_keeps_edit_and_clears_error() {
    let saved = AppSettings::default();
    let mut candidate = saved.clone();
    candidate.trigger_delay_ms = 200;
    let report = commit(candidate, saved, true, "Saved");
    assert!(report.succeeded);
    assert_eq!(report.settings.trigger_delay_ms, 200);
    assert_eq!(report.status, "Saved");
    assert_eq!(report.save_error, None);
    assert!(report.trigger_changed);
}

#[test]
fn failure_reverts_edit_and_reports_error() {
    let saved = AppSettings::default();
    let mut candidate = saved.clone();
    candidate.trigger_delay_ms = 200;
    candidate.drag_snap_threshold = 40;
    let report = commit(candidate, saved.clone(), false, "Saved");
    assert!(!report.succeeded);
    // Revert strategy: UI shows the last saved value, not the edit.
    assert_eq!(report.settings, saved);
    assert_eq!(report.status, SAVE_ERROR_MESSAGE);
    assert_eq!(report.save_error.as_deref(), Some(SAVE_ERROR_MESSAGE));
    // Services must not react: nothing actually changed.
    assert!(!report.trigger_changed);
}

#[test]
fn unrelated_edit_reports_no_trigger_change() {
    let saved = AppSettings::default();
    let mut candidate = saved.clone();
    candidate.drag_snap_threshold = 40;
    let report = commit(candidate, saved, true, "Saved");
    assert!(report.succeeded);
    assert!(!report.trigger_changed);
}

#[test]
fn trigger_change_detection_covers_each_field() {
    let a = AppSettings::default();
    let mut b = a.clone();
    assert!(!trigger_changed(&a, &b));
    b.middle_click_to_trigger = true;
    assert!(trigger_changed(&a, &b));
    let mut c = a.clone();
    c.trigger_modifier_side = TriggerModifierSide::Left;
    assert!(trigger_changed(&a, &c));
}

#[test]
fn normalized_colors_are_canonical_and_stable() {
    for raw in ["#3d9bff", "  #7a3d9bff", "##00ff00", "+1234567", "bad", ""] {
        let once = normalize_color(raw, "#123456");
        assert_eq!(once.len(), 9);
        assert!(once.starts_with('#'));
        assert!(once[1..].chars().all(|c| c.is_ascii_hexdigit() && !c.is_ascii_lowercase()));
        assert_eq!(normalize_color(&once, "#000000"), once);
    }
}

#[test]
fn saved_settings_reload_cleanly() {
    let mut saved = AppSettings { trigger_vk: 0x41, ..AppSettings::default() };
    saved.normalize();
    let mut reloaded = saved.clone();
    reloaded.normalize();
    let keys: Vec<String> = EXPECTED_KEYS.iter().map(|k| k.to_string()).collect();
    assert_eq!(outcome_for_keys(&Some(keys), &saved, &reloaded), LoadOutcome::Clean);
    assert_eq!(reloaded, saved);
}

#[test]
fn process_names_with_inner_space_trim_further_on_a_second_pass() {
    let mut settings = AppSettings {
        excluded_processes: vec!["app .exe".to_string()],
        ..AppSettings::default()
    };
    settings.normalize();
    assert_eq!(settings.excluded_processes, vec!["app ".to_string()]);
    settings.normalize();
    assert_eq!(settings.excluded_processes, vec!["app".to_string()]);
}

#[test]
fn parse_errors_are_told_apart() {
    let truncated = serde_json::from_str::<serde_json::Value>("{\"TriggerKey\": 1").unwrap_err();
    assert_eq!(reason_for_parse_error(&truncated), FallbackReason::Truncated);
    let wrong_shape = serde_json::from_str::<Vec<u32>>("{\"a\": 1}").unwrap_err();
    assert_eq!(reason_for_parse_error(&wrong_shape), FallbackReason::InvalidTypes);
    let syntax = serde_json::from_str::<serde_json::Value>("{not json}").unwrap_err();
    assert_eq!(reason_for_parse_error(&syntax), FallbackReason::InvalidJson);
}

#[test]
fn formatted_bytes_split_back_into_the_same_bytes() {
    for (a, r, g, b) in [(0u8, 0u8, 0u8, 0u8), (0x7A, 0x3D, 0x9B, 0xFF), (255, 1, 16, 15), (9, 10, 160, 171)] {
        let text = format!("#{a:02X}{r:02X}{g:02X}{b:02X}");
        assert_eq!(to_argb_bytes(&text), Some([a, r, g, b]));
    }
}

#[test]
fn trigger_and_numbers_normalize() {
    let mut settings = AppSettings {
        trigger_vk: 0,
        trigger_delay_ms: 5000,
        radial_outer_radius_bits: 500.0f64.to_bits(),
        drag_snap_threshold: 500,
        appearance_mode: "Neon".to_string(),
        ..AppSettings::default()
    };
    settings.normalize();
    assert_eq!(settings.trigger_vk, VK_CAPITAL);
    assert_eq!(settings.trigger_delay_ms, 1000);
    assert_eq!(f64::from_bits(settings.radial_outer_radius_bits), 140.0);
    assert_eq!(settings.drag_snap_threshold, 96);
    assert_eq!(settings.appearance_mode, "Dark");
}

#[test]
fn sizes_clamp_like_finite_doubles() {
    let clamp = |v: f64| f64::from_bits(clamp_f64_bits(v.to_bits(), 4.0f64.to_bits(), 48.0f64.to_bits(), 21.0f64.to_bits()));
    assert_eq!(clamp(10.5), 10.5);
    assert_eq!(clamp(1.0), 4.0);
    assert_eq!(clamp(1e-310), 4.0);
    assert_eq!(clamp(100.0), 48.0);
    assert_eq!(clamp(-3.0), 4.0);
    assert_eq!(clamp(f64::NAN), 21.0);
    assert_eq!(clamp(f64::INFINITY), 21.0);
    assert_eq!(clamp(f64::NEG_INFINITY), 21.0);
    let border = |v: f64| clamp_f64_bits(v.to_bits(), 0, 6.0f64.to_bits(), 2.0f64.to_bits());
    assert_eq!(border(-0.0), (-0.0f64).to_bits());
    assert_eq!(border(-1.0), 0);
    assert_eq!(f64::from_bits(border(7.5)), 6.0);
    for v in [0.0f64, 3.25, 5.999, 6.0] {
        assert_eq!(border(v), v.clamp(0.0, 6.0).to_bits());
    }
}

#[test]
fn preview_sizes_and_outer_radius_normalize() {
    let mut settings = AppSettings {
        radial_outer_radius_bits: f64::NAN.to_bits(),
        preview_padding_bits: 2.0f64.to_bits(),
        preview_corner_radius_bits: 99.0f64.to_bits(),
        preview_border_width_bits: (-5.0f64).to_bits(),
        ..AppSettings::default()
    };
    settings.normalize();
    assert_eq!(f64::from_bits(settings.radial_outer_radius_bits), 91.2);
    assert_eq!(f64::from_bits(settings.preview_padding_bits), 4.0);
    assert_eq!(f64::from_bits(settings.preview_corner_radius_bits), 32.0);
    assert_eq!(f64::from_bits(settings.preview_border_width_bits), 0.0);
}
