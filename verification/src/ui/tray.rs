//! Placement of the tray menu window.

use vstd::prelude::*;
use crate::engine::rect::{Point, Rect, fits_i32};

verus! {

/// Logical width of the tray menu.
pub const TRAY_MENU_WIDTH: i32 = 224;

/// Logical height of the tray menu.
pub const TRAY_MENU_HEIGHT: i32 = 156;

/// `v` clamped into `lo..=max(hi, lo)`.
pub open spec fn clamp_up(v: int, lo: int, hi: int) -> int {
    let top = if hi < lo { lo } else { hi };
    if v < lo {
        lo
    } else if v > top {
        top
    } else {
        v
    }
}

/// The tray menu frame for a menu of physical size `width` x `height`
/// opened at `position` on a monitor with work area `monitor`: above and
/// to the left of the cursor, flipped below or right when that would leave
/// the monitor, then kept inside it.
pub open spec fn tray_frame_of(position: Point, monitor: Rect, width: int, height: int) -> Rect {
    let left0 = if position.x - width < monitor.left {
        position.x as int
    } else {
        position.x - width
    };
    let top0 = if position.y - height < monitor.top {
        position.y as int
    } else {
        position.y - height
    };
    let left = clamp_up(left0, monitor.left as int, monitor.right - width);
    let top = clamp_up(top0, monitor.top as int, monitor.bottom - height);
    Rect { left: left as i32, top: top as i32, right: (left + width) as i32, bottom: (top + height) as i32 }
}

/// Every intermediate value of the placement fits an `i32`.
pub open spec fn tray_frame_defined(position: Point, monitor: Rect, width: int, height: int) -> bool {
    &&& fits_i32(position.x - width)
    &&& fits_i32(position.y - height)
    &&& fits_i32(monitor.right - width)
    &&& fits_i32(monitor.bottom - height)
    &&& fits_i32(monitor.left + width)
    &&& fits_i32(monitor.top + height)
    &&& fits_i32(monitor.right as int)
    &&& fits_i32(position.x + width)
    &&& fits_i32(position.y + height)
    &&& width >= 0
    &&& height >= 0
}

/// Place the tray menu, given its size already scaled to physical pixels.
pub fn tray_menu_frame_by(position: Point, monitor: Rect, width: i32, height: i32) -> (r: Rect)
    requires
        tray_frame_defined(position, monitor, width as int, height as int),
    ensures
        r == tray_frame_of(position, monitor, width as int, height as int),
{
    let mut left = position.x - width;
    let mut top = position.y - height;
    if top < monitor.top {
        top = position.y;
    }
    if left < monitor.left {
        left = position.x;
    }
    let right_limit = if monitor.right - width < monitor.left {
        monitor.left
    } else {
        monitor.right - width
    };
    let bottom_limit = if monitor.bottom - height < monitor.top {
        monitor.top
    } else {
        monitor.bottom - height
    };
    if left < monitor.left {
        left = monitor.left;
    } else if left > right_limit {
        left = right_limit;
    }
    if top < monitor.top {
        top = monitor.top;
    } else if top > bottom_limit {
        top = bottom_limit;
    }
    Rect::new(left, top, left + width, top + height)
}

} // verus!
