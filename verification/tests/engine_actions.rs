use loopw::engine::actions::WindowAction;
use loopw::engine::commands::{format_actions, parse_command, LoopCommand};
use loopw::engine::cycle::CycleState;
use loopw::engine::drag_snap::{try_resolve, DragSnapZone};
use loopw::engine::rect::{Point, Rect};

#[test]
fn discriminants_match_csharp_order() {
    assert_eq!(WindowAction::LeftHalf as u8, 0);
    assert_eq!(WindowAction::RightHalf as u8, 1);
    assert_eq!(WindowAction::Undo as u8, 70);
    assert_eq!(WindowAction::ALL.len(), 71);
}

#[test]
fn every_action_has_a_name_and_roundtrip_token() {
    for action in WindowAction::ALL {
        assert!(!action.display_name().is_empty());
        let token = action.token();
        assert_eq!(WindowAction::parse_token(&token), Some(action));
    }
}

#[test]
fn token_parsing_ignores_case_and_separators() {
    assert_eq!(
        WindowAction::parse_token("left-half"),
        Some(WindowAction::LeftHalf)
    );
    assert_eq!(
        WindowAction::parse_token("LEFTHALF"),
        Some(WindowAction::LeftHalf)
    );
    assert_eq!(
        WindowAction::parse_token("focus_next_in_stack"),
        Some(WindowAction::FocusNextInStack)
    );
}

#[test]
fn token_parsing_rejects_extra_or_non_ascii_text_without_panicking() {
    assert_eq!(WindowAction::parse_token("left-half-extra"), None);
    assert_eq!(WindowAction::parse_token("é-left-half"), None);
}

#[test]
fn discriminant_numbering_round_trips() {
    for action in WindowAction::ALL {
        assert_eq!(action.discriminant(), action as u8);
        assert_eq!(WindowAction::from_discriminant(action.discriminant()), Some(action));
    }
    assert_eq!(WindowAction::from_discriminant(71), None);
}

#[test]
fn maps_direction_aliases() {
    assert_eq!(
        parse_command("direction/right"),
        Ok(LoopCommand::Apply(WindowAction::RightHalf))
    );
    assert_eq!(
        parse_command("direction/next"),
        Ok(LoopCommand::Apply(WindowAction::NextScreen))
    );
    assert_eq!(
        parse_command("direction/prev"),
        Ok(LoopCommand::Apply(WindowAction::PreviousScreen))
    );
}

#[test]
fn maps_action_names() {
    assert_eq!(
        parse_command("action/maximize"),
        Ok(LoopCommand::Apply(WindowAction::Maximize))
    );
    assert!(parse_command("action/nope").is_err());
}

#[test]
fn maps_activation_and_lists() {
    assert_eq!(parse_command("activate"), Ok(LoopCommand::Activate));
    assert_eq!(parse_command("list/actions"), Ok(LoopCommand::ListActions));
    assert_eq!(
        parse_command("list/keybinds"),
        Ok(LoopCommand::ListKeybinds)
    );
    assert_eq!(parse_command("list/all"), Ok(LoopCommand::ListAll));
}

#[test]
fn rejects_malformed_commands() {
    assert!(parse_command("").is_err());
    assert!(parse_command("a b").is_err());
    assert!(parse_command("direction/upside-down").is_err());
    assert!(parse_command("bogus").is_err());
}

#[test]
fn accepts_mixed_case_without_lowercasing_the_command() {
    assert_eq!(
        parse_command("DiReCtIoN/RiGhT"),
        Ok(LoopCommand::Apply(WindowAction::RightHalf))
    );
    assert_eq!(
        parse_command("AcTiOn/LeFt-HaLf"),
        Ok(LoopCommand::Apply(WindowAction::LeftHalf))
    );
}

#[test]
fn actions_cover_every_action() {
    let text = format_actions();
    for action in WindowAction::ALL {
        assert!(
            text.contains(&format!("action/{}", action.token())),
            "missing {action:?}"
        );
    }
}

#[test]
fn surrounding_whitespace_is_ignored_by_commands() {
    assert_eq!(parse_command("  activate \n"), Ok(LoopCommand::Activate));
}

#[test]
fn non_cyclable_actions_pass_through() {
    let mut state = CycleState::new();
    let sel = state.select(1, WindowAction::Center, true);
    assert!(!sel.is_cycle);
    assert_eq!(sel.effective, WindowAction::Center);
}

#[test]
fn cardinal_actions_cycle_three_steps() {
    let mut state = CycleState::new();
    let first = state.select(7, WindowAction::RightHalf, true);
    assert_eq!(first.effective, WindowAction::RightHalf);
    state.commit(7, first);
    let second = state.select(7, WindowAction::RightHalf, true);
    assert_eq!(second.effective, WindowAction::RightThird);
    state.commit(7, second);
    let third = state.select(7, WindowAction::RightHalf, true);
    assert_eq!(third.effective, WindowAction::RightTwoThirds);
}

#[test]
fn disabled_cycle_clears_cursor() {
    let mut state = CycleState::new();
    let first = state.select(9, WindowAction::LeftHalf, true);
    state.commit(9, first);
    let sel = state.select(9, WindowAction::LeftHalf, false);
    assert!(!sel.is_cycle);
}

#[test]
fn cycle_wraps_after_three_commits() {
    let mut state = CycleState::new();
    let mut last = WindowAction::RightHalf;
    for _ in 0..3 {
        let sel = state.select(3, WindowAction::RightHalf, true);
        last = sel.effective;
        state.commit(3, sel);
    }
    assert_eq!(last, WindowAction::RightTwoThirds);
    let again = state.select(3, WindowAction::RightHalf, true);
    assert_eq!(again.effective, WindowAction::RightHalf);
    assert_eq!(again.status_suffix(), "  \u{b7}  Cycle 1/3");
}

#[test]
fn forgetting_a_window_restarts_its_cycle() {
    let mut state = CycleState::new();
    let first = state.select(4, WindowAction::LeftHalf, true);
    state.commit(4, first);
    state.forget(4);
    let sel = state.select(4, WindowAction::LeftHalf, true);
    assert_eq!(sel.effective, WindowAction::LeftHalf);
    assert_eq!(sel.position, 0);
}

#[test]
fn resolves_edges_and_corners() {
    let monitor = Rect::new(0, 0, 1920, 1080);
    let work = Rect::new(0, 0, 1920, 1040);
    assert_eq!(
        try_resolve(monitor, work, Point::new(8, 8), 24),
        Some(DragSnapZone::TopLeftQuarter)
    );
    assert_eq!(
        try_resolve(monitor, work, Point::new(1912, 500), 24),
        Some(DragSnapZone::RightHalf)
    );
    assert_eq!(
        try_resolve(monitor, work, Point::new(900, 1072), 24),
        Some(DragSnapZone::BottomHalf)
    );
}

#[test]
fn ignores_monitor_interior() {
    let monitor = Rect::new(0, 0, 1920, 1080);
    let work = Rect::new(0, 0, 1920, 1040);
    assert_eq!(
        try_resolve(monitor, work, Point::new(960, 500), 24),
        None
    );
}

#[test]
fn snap_zones_map_to_actions() {
    assert_eq!(DragSnapZone::TopLeftQuarter.action(), WindowAction::TopLeftQuarter);
    assert_eq!(DragSnapZone::RightHalf.action(), WindowAction::RightHalf);
}

#[test]
fn tokens_and_display_names_are_unique() {
    let mut tokens: Vec<String> = WindowAction::ALL.iter().map(|a| a.token()).collect();
    tokens.sort();
    tokens.dedup();
    assert_eq!(tokens.len(), 71);
    let mut names: Vec<&str> = WindowAction::ALL.iter().map(|a| a.display_name()).collect();
    names.sort();
    names.dedup();
    assert_eq!(names.len(), 71);
    assert_eq!(WindowAction::Undo.token(), "undo");
    assert_eq!(WindowAction::parse_token("reveal_stashed"), Some(WindowAction::RevealStashed));
}
