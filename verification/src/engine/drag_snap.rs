//! Title-bar drag snapping: edges and corners resolve to zones.

use vstd::prelude::*;
use super::actions::WindowAction;
use super::rect::{Point, Rect};

verus! {

/// Snap target for a drag near a monitor edge.
#[derive(Debug, Clone, Copy, PartialEq, Eq, Structural)]
pub enum DragSnapZone {
    LeftHalf,
    RightHalf,
    TopHalf,
    BottomHalf,
    TopLeftQuarter,
    TopRightQuarter,
    BottomLeftQuarter,
    BottomRightQuarter,
}

/// The placement action of a snap zone.
pub open spec fn zone_action(z: DragSnapZone) -> WindowAction {
    match z {
        DragSnapZone::LeftHalf => WindowAction::LeftHalf,
        DragSnapZone::RightHalf => WindowAction::RightHalf,
        DragSnapZone::TopHalf => WindowAction::TopHalf,
        DragSnapZone::BottomHalf => WindowAction::BottomHalf,
        DragSnapZone::TopLeftQuarter => WindowAction::TopLeftQuarter,
        DragSnapZone::TopRightQuarter => WindowAction::TopRightQuarter,
        DragSnapZone::BottomLeftQuarter => WindowAction::BottomLeftQuarter,
        DragSnapZone::BottomRightQuarter => WindowAction::BottomRightQuarter,
    }
}

impl DragSnapZone {
    pub fn action(self) -> (a: WindowAction)
        ensures
            a == zone_action(self),
    {
        match self {
            DragSnapZone::LeftHalf => WindowAction::LeftHalf,
            DragSnapZone::RightHalf => WindowAction::RightHalf,
            DragSnapZone::TopHalf => WindowAction::TopHalf,
            DragSnapZone::BottomHalf => WindowAction::BottomHalf,
            DragSnapZone::TopLeftQuarter => WindowAction::TopLeftQuarter,
            DragSnapZone::TopRightQuarter => WindowAction::TopRightQuarter,
            DragSnapZone::BottomLeftQuarter => WindowAction::BottomLeftQuarter,
            DragSnapZone::BottomRightQuarter => WindowAction::BottomRightQuarter,
        }
    }
}

/// The threshold clamped to `1..=256`.
pub open spec fn clamp_threshold(t: i32) -> int {
    if t < 1 {
        1
    } else if t > 256 {
        256
    } else {
        t as int
    }
}

/// Whether `try_resolve` evaluates without overflow.
pub open spec fn snap_defined(monitor: Rect, work_area: Rect) -> bool {
    monitor.emptiness_defined() && (!monitor.degenerate() ==> work_area.emptiness_defined())
}

/// The snap zone for a cursor within `threshold` of a monitor edge: a corner
/// when near exactly one vertical and one horizontal edge, otherwise the
/// half of the single near side (left/right before top/bottom).
pub open spec fn snap_zone_of(
    monitor: Rect,
    work_area: Rect,
    cursor: Point,
    threshold: i32,
) -> Option<DragSnapZone> {
    let t = clamp_threshold(threshold);
    if monitor.degenerate() || work_area.degenerate() || cursor.x < monitor.left || cursor.x
        > monitor.right || cursor.y < monitor.top || cursor.y > monitor.bottom {
        None
    } else {
        let nl = cursor.x - monitor.left <= t;
        let nr = monitor.right - cursor.x <= t;
        let nt = cursor.y - monitor.top <= t;
        let nb = monitor.bottom - cursor.y <= t;
        if nl && !nr && nt && !nb {
            Some(DragSnapZone::TopLeftQuarter)
        } else if !nl && nr && nt && !nb {
            Some(DragSnapZone::TopRightQuarter)
        } else if nl && !nr && !nt && nb {
            Some(DragSnapZone::BottomLeftQuarter)
        } else if !nl && nr && !nt && nb {
            Some(DragSnapZone::BottomRightQuarter)
        } else if nl && !nr {
            Some(DragSnapZone::LeftHalf)
        } else if !nl && nr {
            Some(DragSnapZone::RightHalf)
        } else if nt && !nb {
            Some(DragSnapZone::TopHalf)
        } else if !nt && nb {
            Some(DragSnapZone::BottomHalf)
        } else {
            None
        }
    }
}

/// Resolve a cursor position to a snap zone, if within `threshold` of an edge.
pub fn try_resolve(monitor: Rect, work_area: Rect, cursor: Point, threshold: i32) -> (z: Option<
    DragSnapZone,
>)
    requires
        snap_defined(monitor, work_area),
    ensures
        z == snap_zone_of(monitor, work_area, cursor, threshold),
{
    let threshold = if threshold < 1 {
        1
    } else if threshold > 256 {
        256
    } else {
        threshold
    };
    if monitor.is_empty() || work_area.is_empty() || cursor.x < monitor.left || cursor.x
        > monitor.right || cursor.y < monitor.top || cursor.y > monitor.bottom {
        return None;
    }
    let near_left = cursor.x - monitor.left <= threshold;
    let near_right = monitor.right - cursor.x <= threshold;
    let near_top = cursor.y - monitor.top <= threshold;
    let near_bottom = monitor.bottom - cursor.y <= threshold;
    if !(near_left || near_right || near_top || near_bottom) {
        return None;
    }
    if near_left && !near_right && near_top && !near_bottom {
        Some(DragSnapZone::TopLeftQuarter)
    } else if !near_left && near_right && near_top && !near_bottom {
        Some(DragSnapZone::TopRightQuarter)
    } else if near_left && !near_right && !near_top && near_bottom {
        Some(DragSnapZone::BottomLeftQuarter)
    } else if !near_left && near_right && !near_top && near_bottom {
        Some(DragSnapZone::BottomRightQuarter)
    } else if near_left && !near_right {
        Some(DragSnapZone::LeftHalf)
    } else if !near_left && near_right {
        Some(DragSnapZone::RightHalf)
    } else if near_top && !near_bottom {
        Some(DragSnapZone::TopHalf)
    } else if !near_top && near_bottom {
        Some(DragSnapZone::BottomHalf)
    } else {
        None
    }
}

/// A snap only happens on the monitor and near one of its edges: a cursor
/// farther than the (clamped) threshold from every edge never snaps, and a
/// corner zone is only chosen near both of its edges.
pub proof fn law_snap_needs_an_edge(monitor: Rect, work_area: Rect, cursor: Point, threshold: i32)
    ensures
        ({
            let t = clamp_threshold(threshold);
            let z = snap_zone_of(monitor, work_area, cursor, threshold);
            &&& z is Some ==> monitor.left <= cursor.x <= monitor.right && monitor.top <= cursor.y
                <= monitor.bottom
            &&& (cursor.x - monitor.left > t && monitor.right - cursor.x > t && cursor.y
                - monitor.top > t && monitor.bottom - cursor.y > t) ==> z is None
            &&& z == Some(DragSnapZone::TopLeftQuarter) ==> cursor.x - monitor.left <= t
                && cursor.y - monitor.top <= t
            &&& z == Some(DragSnapZone::BottomRightQuarter) ==> monitor.right - cursor.x <= t
                && monitor.bottom - cursor.y <= t
        }),
{
}

/// Nothing snaps on a monitor or work area without an interior.
pub proof fn law_no_snap_without_area(monitor: Rect, work_area: Rect, cursor: Point, threshold: i32)
    requires
        monitor.right <= monitor.left || monitor.bottom <= monitor.top || work_area.right
            <= work_area.left || work_area.bottom <= work_area.top,
    ensures
        snap_zone_of(monitor, work_area, cursor, threshold) is None,
{
}

/// Which zone a cursor on the monitor snaps to, by the edges it is near
/// (within the clamped threshold): near exactly one vertical edge and
/// exactly one horizontal edge gives the corner quarter of those two edges;
/// near exactly one vertical edge otherwise gives that side's half; near
/// exactly one horizontal edge otherwise gives that side's half; near
/// neither or both of each pair gives nothing.
pub proof fn law_snap_zone_by_edges(monitor: Rect, work_area: Rect, cursor: Point, threshold: i32)
    requires
        monitor.left < monitor.right,
        monitor.top < monitor.bottom,
        work_area.left < work_area.right,
        work_area.top < work_area.bottom,
        monitor.left <= cursor.x <= monitor.right,
        monitor.top <= cursor.y <= monitor.bottom,
    ensures
        ({
            let t = if threshold < 1 {
                1
            } else if threshold > 256 {
                256
            } else {
                threshold as int
            };
            let nl = cursor.x - monitor.left <= t;
            let nr = monitor.right - cursor.x <= t;
            let nt = cursor.y - monitor.top <= t;
            let nb = monitor.bottom - cursor.y <= t;
            let z = snap_zone_of(monitor, work_area, cursor, threshold);
            &&& (z == Some(DragSnapZone::TopLeftQuarter)) == (nl && !nr && nt && !nb)
            &&& (z == Some(DragSnapZone::TopRightQuarter)) == (!nl && nr && nt && !nb)
            &&& (z == Some(DragSnapZone::BottomLeftQuarter)) == (nl && !nr && !nt && nb)
            &&& (z == Some(DragSnapZone::BottomRightQuarter)) == (!nl && nr && !nt && nb)
            &&& (z == Some(DragSnapZone::LeftHalf)) == (nl && !nr && nt == nb)
            &&& (z == Some(DragSnapZone::RightHalf)) == (!nl && nr && nt == nb)
            &&& (z == Some(DragSnapZone::TopHalf)) == (nl == nr && nt && !nb)
            &&& (z == Some(DragSnapZone::BottomHalf)) == (nl == nr && !nt && nb)
            &&& (z is None) == (nl == nr && nt == nb)
        }),
{
}

} // verus!
