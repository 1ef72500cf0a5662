//! Radial menu slot layout: eight 45° wedges, no text in the overlay.
//!
//! Slot 0 points right (-22.5°..22.5°) and indices advance clockwise in
//! screen coordinates (y down). Angles are held in tenths of a degree; the
//! floating-point hit testing lives with the overlay renderer.

use vstd::prelude::*;
use super::actions::{WindowAction, action_number};

verus! {

/// One wedge's angular span, in tenths of a degree.
#[derive(Debug, Clone, Copy, PartialEq, Eq)]
pub struct SlotGeometry {
    pub label: &'static str,
    pub from_tenths: i32,
    pub to_tenths: i32,
}

/// Default actions per wedge.
pub const DEFAULT_ACTIONS: [WindowAction; 8] = [
    WindowAction::RightHalf,
    WindowAction::BottomRightQuarter,
    WindowAction::BottomHalf,
    WindowAction::BottomLeftQuarter,
    WindowAction::LeftHalf,
    WindowAction::TopLeftQuarter,
    WindowAction::TopHalf,
    WindowAction::TopRightQuarter,
];

pub const SLOT_COUNT: usize = 8;

/// Start of wedge `i`, in tenths of a degree.
pub open spec fn wedge_from(i: int) -> int {
    -225 + 450 * i
}

/// End of wedge `i`, in tenths of a degree.
pub open spec fn wedge_to(i: int) -> int {
    225 + 450 * i
}

/// Default action of wedge `i`.
pub open spec fn default_action_at(i: int) -> WindowAction {
    if i == 0 {
        WindowAction::RightHalf
    } else if i == 1 {
        WindowAction::BottomRightQuarter
    } else if i == 2 {
        WindowAction::BottomHalf
    } else if i == 3 {
        WindowAction::BottomLeftQuarter
    } else if i == 4 {
        WindowAction::LeftHalf
    } else if i == 5 {
        WindowAction::TopLeftQuarter
    } else if i == 6 {
        WindowAction::TopHalf
    } else {
        WindowAction::TopRightQuarter
    }
}

/// Label of wedge `i`.
pub open spec fn wedge_label(i: int) -> Seq<char> {
    if i == 0 {
        "Right"@
    } else if i == 1 {
        "Bottom-right"@
    } else if i == 2 {
        "Bottom"@
    } else if i == 3 {
        "Bottom-left"@
    } else if i == 4 {
        "Left"@
    } else if i == 5 {
        "Top-left"@
    } else if i == 6 {
        "Top"@
    } else {
        "Top-right"@
    }
}

/// Geometry of one wedge (clockwise from Right).
pub fn slot_geometry(index: usize) -> (g: SlotGeometry)
    requires
        index < SLOT_COUNT,
    ensures
        g.label@ == wedge_label(index as int),
        g.from_tenths == wedge_from(index as int),
        g.to_tenths == wedge_to(index as int),
{
    let i = index as i32;
    let label = if index == 0 {
        "Right"
    } else if index == 1 {
        "Bottom-right"
    } else if index == 2 {
        "Bottom"
    } else if index == 3 {
        "Bottom-left"
    } else if index == 4 {
        "Left"
    } else if index == 5 {
        "Top-left"
    } else if index == 6 {
        "Top"
    } else {
        "Top-right"
    };
    SlotGeometry { label, from_tenths: -225 + 450 * i, to_tenths: 225 + 450 * i }
}

/// Clockwise wedge layout starting at Right.
pub fn geometry() -> (v: Vec<SlotGeometry>)
    ensures
        v@.len() == SLOT_COUNT,
        forall|i: int|
            0 <= i < SLOT_COUNT ==> (#[trigger] v@[i]).label@ == wedge_label(i) && v@[i].from_tenths
                == wedge_from(i) && v@[i].to_tenths == wedge_to(i),
{
    let mut v: Vec<SlotGeometry> = Vec::new();
    let mut k: usize = 0;
    while k < SLOT_COUNT
        invariant
            k <= SLOT_COUNT,
            v@.len() == k,
            forall|i: int|
                0 <= i < k ==> (#[trigger] v@[i]).label@ == wedge_label(i) && v@[i].from_tenths
                    == wedge_from(i) && v@[i].to_tenths == wedge_to(i),
        decreases SLOT_COUNT - k,
    {
        v.push(slot_geometry(k));
        k = k + 1;
    }
    v
}

/// Default action of a wedge.
pub fn default_action(index: usize) -> (a: WindowAction)
    requires
        index < SLOT_COUNT,
    ensures
        a == default_action_at(index as int),
{
    if index == 0 {
        WindowAction::RightHalf
    } else if index == 1 {
        WindowAction::BottomRightQuarter
    } else if index == 2 {
        WindowAction::BottomHalf
    } else if index == 3 {
        WindowAction::BottomLeftQuarter
    } else if index == 4 {
        WindowAction::LeftHalf
    } else if index == 5 {
        WindowAction::TopLeftQuarter
    } else if index == 6 {
        WindowAction::TopHalf
    } else {
        WindowAction::TopRightQuarter
    }
}

/// The wedges tile the full turn: each is 45° wide, each starts where the
/// previous one ends, and the last ends a full turn after the first starts.
pub proof fn law_wedges_tile_the_circle()
    ensures
        forall|i: int| 0 <= i < 8 ==> #[trigger] wedge_to(i) - wedge_from(i) == 450,
        forall|i: int| 0 <= i < 7 ==> #[trigger] wedge_to(i) == wedge_from(i + 1),
        wedge_to(7) == wedge_from(0) + 3600,
{
}

/// The eight default actions are pairwise different.
pub proof fn law_default_actions_distinct()
    ensures
        forall|i: int, j: int|
            0 <= i < j < 8 ==> #[trigger] default_action_at(i) != #[trigger] default_action_at(j),
{
    assert forall|i: int, j: int| 0 <= i < j < 8 implies #[trigger] default_action_at(i)
        != #[trigger] default_action_at(j) by {
        assert(action_number(default_action_at(i)) != action_number(default_action_at(j)));
    }
}

} // verus!
