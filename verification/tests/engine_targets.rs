use loopw::engine::actions::WindowAction;
use loopw::engine::identity::{find_unambiguous_match, is_match, WindowIdentity};
use loopw::engine::monitor::MonitorSnapshot;
use loopw::engine::radial::{default_action, geometry, slot_geometry, DEFAULT_ACTIONS, SLOT_COUNT};
use loopw::engine::radial_targets::{
    default_center, default_slots, normalize_slots, normalize_target, resolve_slot,
    RadialTarget, RadialTargetKind, RadialTargetSettings, ResolvedKeybind,
};
use loopw::engine::rect::Rect;
use loopw::engine::stash::{StashEdge, StashMonitor, StashPlacement, StashRecord, StashRect};
use loopw::engine::stash_rebase::{find_restore_monitor, rebase_step, translate_rect, RebaseStep};

#[test]
fn eight_unique_defaults() {
    let mut distinct = DEFAULT_ACTIONS.to_vec();
    distinct.sort_by_key(|a| *a as u8);
    distinct.dedup();
    assert_eq!(distinct.len(), 8);
}

#[test]
fn wedge_spans_tile_without_gaps() {
    let slots = geometry();
    let pairs = slots
        .iter()
        .zip(slots.iter().cycle().skip(1))
        .take(slots.len());
    for (slot, next) in pairs {
        let to_deg = slot.to_tenths as f64 / 10.0;
        let from_deg = next.from_tenths as f64 / 10.0;
        let gap = (to_deg - from_deg).rem_euclid(360.0);
        assert!(gap < 1e-9, "gap of {gap}° after {}", slot.label);
    }
}

#[test]
fn wedge_geometry_starts_at_right() {
    let first = slot_geometry(0);
    assert_eq!(first.label, "Right");
    assert_eq!((first.from_tenths, first.to_tenths), (-225, 225));
    let last = slot_geometry(7);
    assert_eq!(last.label, "Top-right");
    assert_eq!(default_action(2), WindowAction::BottomHalf);
}

#[test]
fn defaults_have_eight_slots_and_empty_center() {
    assert_eq!(default_slots().len(), SLOT_COUNT);
    assert_eq!(default_center().kind, RadialTargetKind::Nothing);
}

#[test]
fn invalid_keybind_target_becomes_none() {
    let mut target = RadialTargetSettings {
        kind: RadialTargetKind::Keybind,
        action: WindowAction::RightHalf,
        keybind_id: "missing".to_string(),
        cycle_enabled: true,
    };
    normalize_target(&mut target, &[]);
    assert_eq!(target.kind, RadialTargetKind::Nothing);
}

#[test]
fn known_keybind_target_is_kept_and_normalizing_twice_changes_nothing() {
    let ids = vec!["k1".to_string()];
    let mut target = RadialTargetSettings {
        kind: RadialTargetKind::Keybind,
        action: WindowAction::LeftHalf,
        keybind_id: "k1".to_string(),
        cycle_enabled: true,
    };
    normalize_target(&mut target, &ids);
    let once = target.clone();
    normalize_target(&mut target, &ids);
    assert_eq!(target, once);
    assert_eq!(target.kind, RadialTargetKind::Keybind);
    assert_eq!(target.keybind_id, "k1");
}

#[test]
fn slot_lists_are_fitted_to_eight() {
    let mut short = vec![RadialTargetSettings::action(WindowAction::Maximize)];
    normalize_slots(&mut short, &[]);
    assert_eq!(short.len(), 8);
    assert_eq!(short[0].kind, RadialTargetKind::Action);
    assert_eq!(short[7], RadialTargetSettings::none());
    let mut long = default_slots();
    long.extend(default_slots());
    normalize_slots(&mut long, &[]);
    assert_eq!(long, default_slots());
}

#[test]
fn slots_resolve_to_actions_and_keybinds() {
    let binds = vec![ResolvedKeybind {
        id: "k1".to_string(),
        action: WindowAction::Center,
        label: "Space".to_string(),
    }];
    let slot = RadialTargetSettings::action(WindowAction::RightHalf);
    let resolved = resolve_slot(&slot, &binds);
    assert_eq!(resolved.action(), Some(WindowAction::RightHalf));
    assert!(resolved.cycle_enabled());
    let keyed = RadialTargetSettings {
        kind: RadialTargetKind::Keybind,
        action: WindowAction::RightHalf,
        keybind_id: "k1".to_string(),
        cycle_enabled: false,
    };
    let target = resolve_slot(&keyed, &binds);
    assert_eq!(target.action(), Some(WindowAction::Center));
    assert_eq!(target.display_name(), "Space \u{b7} Center");
    assert_eq!(resolve_slot(&RadialTargetSettings::none(), &binds), RadialTarget::Nothing);
}

fn record() -> StashRecord {
    StashRecord {
        id: "r1".to_string(),
        executable_path: "C:\\Apps\\Note.exe".to_string(),
        process_id: 1234,
        window_class: "Notepad".to_string(),
        title: "Notes".to_string(),
        edge: StashEdge::Left,
        original_placement: StashPlacement::default(),
        original_monitor: StashMonitor::default(),
        stashed_frame: StashRect { left: 0, top: 0, right: 8, bottom: 100 },
    }
}

fn identity() -> WindowIdentity {
    WindowIdentity {
        executable_path: "c:\\apps\\note.exe".to_string(),
        process_id: 1234,
        window_class: "notepad".to_string(),
        title: "Notes".to_string(),
    }
}

#[test]
fn rejects_ambiguity() {
    let rec = record();
    assert!(is_match(&rec, &identity()));
    // Only one hint (class) — title differs and pid differs.
    let weak = WindowIdentity {
        process_id: 9999,
        title: "Other".to_string(),
        ..identity()
    };
    assert!(!is_match(&rec, &weak));
    // Two identical candidates are ambiguous.
    let candidates = vec![(1u32, identity()), (2u32, identity())];
    assert_eq!(find_unambiguous_match(&rec, &candidates), None);
    let single = vec![(1u32, identity())];
    assert_eq!(find_unambiguous_match(&rec, &single), Some(1));
}

fn stash_monitor(monitor: Rect, work: Rect, dpi: f64) -> StashMonitor {
    StashMonitor {
        monitor: StashRect::from(monitor),
        work: StashRect::from(work),
        dpi_x_bits: dpi.to_bits(),
        dpi_y_bits: dpi.to_bits(),
    }
}

fn snapshot(monitor: Rect, work: Rect, dpi: f64) -> MonitorSnapshot {
    MonitorSnapshot {
        monitor,
        work,
        dpi_x_bits: dpi.to_bits(),
        dpi_y_bits: dpi.to_bits(),
    }
}

#[test]
fn restore_prefers_exact_match_then_nearest() {
    let original = stash_monitor(
        Rect::new(0, 0, 1920, 1080),
        Rect::new(0, 0, 1920, 1040),
        96.0,
    );
    let monitors = vec![
        snapshot(
            Rect::new(1920, 0, 3840, 1080),
            Rect::new(1920, 0, 3840, 1040),
            96.0,
        ),
        snapshot(
            Rect::new(0, 0, 1920, 1080),
            Rect::new(0, 0, 1920, 1040),
            96.0,
        ),
    ];
    let picked = find_restore_monitor(&original, &monitors).unwrap();
    assert_eq!(picked.monitor.left, 0);
}

#[test]
fn rebase_steps_follow_the_monitor_change() {
    let original = stash_monitor(Rect::new(0, 0, 1920, 1080), Rect::new(0, 0, 1920, 1040), 96.0);
    let same_dpi_changed = stash_monitor(Rect::new(0, 0, 1920, 1080), Rect::new(0, 0, 1920, 1040), 144.0);
    assert_eq!(rebase_step(&original, &same_dpi_changed), RebaseStep::Keep);
    let work_moved = stash_monitor(Rect::new(0, 0, 1920, 1080), Rect::new(0, 40, 1920, 1040), 96.0);
    assert_eq!(rebase_step(&original, &work_moved), RebaseStep::Translate { dx: 0, dy: 40 });
    assert_eq!(
        translate_rect(Rect::new(100, 120, 700, 620), 0, 40),
        Rect::new(100, 160, 700, 660)
    );
    let other = stash_monitor(Rect::new(1920, 0, 3840, 1080), Rect::new(1920, 0, 3840, 1040), 144.0);
    assert_eq!(rebase_step(&original, &other), RebaseStep::ScaleByDpi);
}

#[test]
fn stash_numbering_round_trips() {
    for edge in [StashEdge::Left, StashEdge::Right, StashEdge::Top, StashEdge::Bottom] {
        assert_eq!(StashEdge::from_discriminant(edge.discriminant()), Some(edge));
    }
    assert_eq!(StashEdge::from_discriminant(4), None);
    let r = Rect::new(1, 2, 3, 4);
    assert_eq!(Rect::from(StashRect::from(r)), r);
}
