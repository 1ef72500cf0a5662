use loopw::engine::actions::WindowAction;
use loopw::engine::frame_math::{
    center_frame, fill_available_frame, fit_frame, manipulate_frame_by, maximize_height_frame,
    maximize_width_frame, zone_frame, MinMaxLimits,
};
use loopw::engine::hotkey::{hotkey_name, key_name, TriggerModifierSide, MOD_ALT, MOD_CONTROL, MOD_SHIFT, VK_CAPITAL};
use loopw::engine::keybind_match::{match_keybind, MatchEntry};
use loopw::engine::monitor::apply_padding;
use loopw::engine::nav::{find_directional, find_next_in_stack, NavDir};
use loopw::engine::rect::{Point, Rect};
use loopw::engine::stash::{stashed_frame, StashEdge};

#[test]
fn halves_and_quarters_cover_work_area() {
    let work = Rect::new(0, 0, 1200, 800);
    assert_eq!(
        zone_frame(work, WindowAction::LeftHalf),
        Rect::new(0, 0, 600, 800)
    );
    assert_eq!(
        zone_frame(work, WindowAction::RightHalf),
        Rect::new(600, 0, 1200, 800)
    );
    assert_eq!(
        zone_frame(work, WindowAction::TopLeftQuarter),
        Rect::new(0, 0, 600, 400)
    );
    assert_eq!(
        zone_frame(work, WindowAction::BottomRightQuarter),
        Rect::new(600, 400, 1200, 800)
    );
}

#[test]
fn thirds_tile_without_gaps() {
    let work = Rect::new(0, 0, 1200, 900);
    let left = zone_frame(work, WindowAction::LeftThird);
    let center = zone_frame(work, WindowAction::HorizontalCenterThird);
    let right = zone_frame(work, WindowAction::RightThird);
    assert_eq!(
        (left.width(), center.width(), right.width()),
        (400, 400, 400)
    );
    assert_eq!(left.right, center.left);
    assert_eq!(center.right, right.left);
    assert_eq!(right.right, work.right);
}

#[test]
fn odd_widths_leave_the_remainder_to_the_far_half() {
    let work = Rect::new(0, 0, 1001, 801);
    let left = zone_frame(work, WindowAction::LeftHalf);
    let right = zone_frame(work, WindowAction::RightHalf);
    assert_eq!(left, Rect::new(0, 0, 500, 801));
    assert_eq!(right, Rect::new(500, 0, 1001, 801));
}

#[test]
fn axis_maximize_preserves_other_dimension() {
    let work = Rect::new(0, 0, 1920, 1040);
    let current = Rect::new(100, 100, 500, 400);
    assert_eq!(
        maximize_height_frame(work, current),
        Rect::new(100, 0, 500, 1040)
    );
    assert_eq!(
        maximize_width_frame(work, current),
        Rect::new(0, 100, 1920, 400)
    );
}

#[test]
fn center_keeps_size_and_balances_margins() {
    let work = Rect::new(0, 0, 1920, 1040);
    let current = Rect::new(100, 100, 500, 400);
    assert_eq!(center_frame(work, current), Rect::new(760, 370, 1160, 670));
}

#[test]
fn fill_avoids_obstacles() {
    let work = Rect::new(0, 0, 1200, 800);
    let current = Rect::new(600, 0, 900, 400);
    let obstacles = vec![Rect::new(0, 0, 600, 800)];
    let filled = fill_available_frame(work, current, &obstacles);
    assert!(filled.left >= 600);
    assert!(!filled.intersects(obstacles[0]) || filled == current);
}

#[test]
fn fill_finds_the_largest_free_rectangle() {
    let work = Rect::new(0, 0, 100, 100);
    let current = Rect::new(40, 40, 60, 60);
    let obstacles = vec![Rect::new(70, 0, 100, 30), Rect::new(0, 70, 30, 100)];
    let filled = fill_available_frame(work, current, &obstacles);
    assert_eq!(filled, Rect::new(0, 0, 70, 70));
    assert_eq!(filled.area(), 4900);
}

#[test]
fn fill_takes_the_whole_work_area_when_nothing_is_in_the_way() {
    let work = Rect::new(0, 0, 1200, 800);
    let current = Rect::new(100, 100, 300, 300);
    // The first obstacle overlaps the current frame and is ignored; the
    // second lies outside the work area.
    let obstacles = vec![Rect::new(150, 150, 400, 400), Rect::new(1300, 0, 1400, 100)];
    assert_eq!(fill_available_frame(work, current, &obstacles), work);
}

#[test]
fn fill_stops_at_obstacles_on_every_side() {
    let work = Rect::new(0, 0, 1000, 1000);
    let current = Rect::new(400, 400, 600, 600);
    let obstacles = vec![
        Rect::new(0, 0, 1000, 100),
        Rect::new(0, 900, 1000, 1000),
        Rect::new(0, 0, 200, 1000),
        Rect::new(800, 0, 1000, 1000),
    ];
    assert_eq!(fill_available_frame(work, current, &obstacles), Rect::new(200, 100, 800, 900));
}

#[test]
fn fill_keeps_a_frame_outside_the_work_area() {
    let work = Rect::new(0, 0, 1000, 800);
    let current = Rect::new(900, 100, 1100, 300);
    assert_eq!(fill_available_frame(work, current, &[]), current);
}

#[test]
fn fit_clamps_and_anchors_right_edge() {
    let bounds = Rect::new(0, 0, 1000, 800);
    let frame = Rect::new(800, 0, 1400, 800);
    let limits = MinMaxLimits {
        min_w: 100,
        min_h: 100,
        max_w: 0,
        max_h: 0,
    };
    let fitted = fit_frame(bounds, WindowAction::RightHalf, frame, limits);
    assert_eq!(fitted.right, bounds.right);
    assert!(fitted.width() <= bounds.width());
}

#[test]
fn shows_modifier_side() {
    assert_eq!(
        hotkey_name(MOD_CONTROL, 0x42, TriggerModifierSide::Right),
        "Right Ctrl + B"
    );
    assert_eq!(
        hotkey_name(MOD_CONTROL, 0x42, TriggerModifierSide::Left),
        "Left Ctrl + B"
    );
    assert_eq!(
        hotkey_name(MOD_SHIFT, VK_CAPITAL, TriggerModifierSide::Any),
        "Shift + Caps Lock"
    );
}

#[test]
fn key_names_cover_fixed_keys_and_letters() {
    assert_eq!(key_name(VK_CAPITAL), "Caps Lock");
    assert_eq!(key_name(0x41), "A");
    assert_eq!(hotkey_name(MOD_CONTROL | MOD_ALT, 0x41, TriggerModifierSide::Any), "Ctrl + Alt + A");
}

fn entries() -> Vec<MatchEntry> {
    vec![
        MatchEntry {
            vk: 0x41,
            modifiers: 0x0002,
            bypass_trigger: false,
        },
        MatchEntry {
            vk: 0x41,
            modifiers: 0x0006,
            bypass_trigger: false,
        },
        MatchEntry {
            vk: 0x42,
            modifiers: 0,
            bypass_trigger: true,
        },
    ]
}

#[test]
fn normal_keybinds_need_trigger_and_exact_mods() {
    let list = entries();
    assert_eq!(match_keybind(&list, 0x41, 0x0002, 0x14, true), Some(0));
    // Extra modifiers veto the match.
    assert_eq!(match_keybind(&list, 0x41, 0x0003, 0x14, true), None);
    // Second entry matches its own exact combo.
    assert_eq!(match_keybind(&list, 0x41, 0x0006, 0x14, true), Some(1));
    // Normal keybinds never fire without the trigger.
    assert_eq!(match_keybind(&list, 0x41, 0x0002, 0x14, false), None);
}

#[test]
fn bypass_keybinds_need_released_trigger() {
    let list = entries();
    assert_eq!(match_keybind(&list, 0x42, 0, 0x14, false), Some(2));
    assert_eq!(match_keybind(&list, 0x42, 0, 0x14, true), None);
}

#[test]
fn trigger_key_itself_never_matches() {
    let list = entries();
    assert_eq!(match_keybind(&list, 0x14, 0, 0x14, true), None);
}

#[test]
fn padding_combines_global_and_edges() {
    let work = Rect::new(0, 0, 1920, 1040);
    let padded = apply_padding(work, 8, 4, 0, 0, 0);
    assert_eq!(padded.left, 12);
    assert_eq!(padded.top, 8);
    assert!(padded.width() < work.width());
}

#[test]
fn padding_stays_inside_the_work_area() {
    let work = Rect::new(0, 0, 1920, 1040);
    let padded = apply_padding(work, 8, 4, 0, 0, 0);
    assert!(padded.left >= work.left && padded.right <= work.right);
    assert!(padded.top >= work.top && padded.bottom <= work.bottom);
    assert_eq!(padded, Rect::new(12, 8, 1912, 1032));
}

#[test]
fn chooses_nearest_window_to_the_right() {
    let current = Rect::new(400, 300, 800, 700);
    let candidates = vec![
        (1u64, current),
        (2, Rect::new(800, 320, 1000, 520)),
        (3, Rect::new(1100, 320, 1300, 520)),
        (4, Rect::new(600, 800, 800, 1000)),
    ];
    assert_eq!(
        find_directional(current, &candidates, NavDir::Right),
        Some(2)
    );
    assert_eq!(
        find_directional(current, &candidates, NavDir::Down),
        Some(4)
    );
    assert_eq!(find_directional(current, &candidates, NavDir::Left), None);
}

#[test]
fn stack_navigation_wraps() {
    assert_eq!(find_next_in_stack(&[1, 2, 3], 3), Some(1));
    assert_eq!(find_next_in_stack(&[1, 2, 3], 1), Some(2));
    assert_eq!(find_next_in_stack(&[7], 7), None);
    assert_eq!(find_next_in_stack(&[], 1), None);
    // Current not in list starts at the top.
    assert_eq!(find_next_in_stack(&[1, 2, 3], 9), Some(1));
}

#[test]
fn intersection_clamps_to_overlap() {
    let a = Rect::new(0, 0, 100, 100);
    let b = Rect::new(50, 50, 150, 150);
    assert_eq!(a.intersection(b), Rect::new(50, 50, 100, 100));
    assert!(a.intersects(b));
    assert!(!a.intersects(Rect::new(100, 0, 200, 50)));
}

#[test]
fn rect_measures_and_emptiness() {
    let r = Rect::new(10, 20, 110, 70);
    assert_eq!((r.width(), r.height(), r.area()), (100, 50, 5000));
    assert!(!r.is_empty());
    assert!(Rect::new(5, 5, 5, 10).is_empty());
    assert_eq!(Point::new(3, 4), Point { x: 3, y: 4 });
}

#[test]
fn stash_frames_keep_visible_peek() {
    let work = Rect::new(0, 0, 1920, 1040);
    let left = stashed_frame(work, StashEdge::Left, 8);
    assert_eq!(left.right - work.left, 8);
    let right = stashed_frame(work, StashEdge::Right, 8);
    assert_eq!(work.right - right.left, 8);
}

#[test]
fn stash_peek_is_clamped() {
    let work = Rect::new(0, 0, 1920, 1040);
    let top = stashed_frame(work, StashEdge::Top, 500);
    assert_eq!(top.bottom - work.top, 48);
    let bottom = stashed_frame(work, StashEdge::Bottom, 0);
    assert_eq!(work.bottom - bottom.top, 1);
    assert_eq!(top.width(), work.width());
}

#[test]
fn larger_grows_by_a_tenth_with_a_32_pixel_floor() {
    let work = Rect::new(0, 0, 1920, 1040);
    let current = Rect::new(0, 0, 400, 300);
    // width step 400 / 10 = 40; height step max(32, 30) = 32
    assert_eq!(
        manipulate_frame_by(work, WindowAction::Larger, current, 48, 440, 330),
        Rect::new(-20, -16, 420, 316)
    );
}

#[test]
fn smaller_shrinks_by_a_tenth_with_a_32_pixel_floor() {
    let work = Rect::new(0, 0, 1920, 1040);
    let current = Rect::new(100, 100, 1100, 700);
    // 1000x600 -> steps 100 and 60 -> 900x540 centred on (600, 400)
    assert_eq!(
        manipulate_frame_by(work, WindowAction::Smaller, current, 48, 1100, 660),
        Rect::new(150, 130, 1050, 670)
    );
}

#[test]
fn scale_up_uses_the_given_scaled_size() {
    let work = Rect::new(0, 0, 1920, 1040);
    let current = Rect::new(0, 0, 400, 300);
    assert_eq!(
        manipulate_frame_by(work, WindowAction::ScaleUp, current, 48, 440, 330),
        Rect::new(-20, -15, 420, 315)
    );
}
