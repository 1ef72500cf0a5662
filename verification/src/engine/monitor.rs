//! Monitor snapshots and screen padding. Live enumeration and the DPI
//! scaling of cross-monitor moves stay with the platform layer.

use vstd::prelude::*;
use super::rect::{Rect, fits_i32};
use super::frame_math::{max_i, min_i};

verus! {

/// How a window keeps its size when moved across monitors.
#[derive(Debug, Clone, Copy, PartialEq, Eq, Structural)]
pub enum MonitorMoveSizePolicy {
    PreservePixels,
    PreserveLogicalSize,
}

impl Default for MonitorMoveSizePolicy {
    fn default() -> (p: Self)
        ensures
            p == MonitorMoveSizePolicy::PreservePixels,
    {
        MonitorMoveSizePolicy::PreservePixels
    }
}

impl MonitorMoveSizePolicy {
    /// Persisted number of a policy.
    pub fn discriminant(self) -> (d: u8)
        ensures
            d == (if self == MonitorMoveSizePolicy::PreservePixels { 0u8 } else { 1u8 }),
    {
        match self {
            MonitorMoveSizePolicy::PreservePixels => 0,
            MonitorMoveSizePolicy::PreserveLogicalSize => 1,
        }
    }

    /// The policy stored under a persisted number, if there is one.
    pub fn from_discriminant(d: u8) -> (p: Option<MonitorMoveSizePolicy>)
        ensures
            p == (if d == 0 {
                Some(MonitorMoveSizePolicy::PreservePixels)
            } else if d == 1 {
                Some(MonitorMoveSizePolicy::PreserveLogicalSize)
            } else {
                None
            }),
    {
        match d {
            0 => Some(MonitorMoveSizePolicy::PreservePixels),
            1 => Some(MonitorMoveSizePolicy::PreserveLogicalSize),
            _ => None,
        }
    }
}

/// Padded work area plus DPI for one monitor. The DPI values are IEEE-754
/// double bit patterns (`f64::to_bits`), carried unchanged.
#[derive(Debug, Clone, Copy, PartialEq, Eq, Structural)]
pub struct MonitorSnapshot {
    pub monitor: Rect,
    pub work: Rect,
    pub dpi_x_bits: u64,
    pub dpi_y_bits: u64,
}

/// Effective padding on one edge before clamping: global plus edge, at
/// least zero.
pub open spec fn raw_pad(global: i32, edge: i32) -> int {
    max_i(global + edge, 0)
}

/// The four clamped paddings `(left, top, right, bottom)`: left/top keep at
/// least one pixel of the axis, right/bottom keep at least one pixel after
/// left/top.
pub open spec fn clamped_pads(work: Rect, global: i32, left: i32, top: i32, right: i32, bottom: i32) -> (int, int, int, int) {
    let l = min_i(raw_pad(global, left), max_i(0, work.w() - 1));
    let r = min_i(raw_pad(global, right), max_i(0, work.w() - l - 1));
    let t = min_i(raw_pad(global, top), max_i(0, work.h() - 1));
    let b = min_i(raw_pad(global, bottom), max_i(0, work.h() - t - 1));
    (l, t, r, b)
}

/// The padded work area.
pub open spec fn padded_of(work: Rect, global: i32, left: i32, top: i32, right: i32, bottom: i32) -> Rect {
    let (l, t, r, b) = clamped_pads(work, global, left, top, right, bottom);
    let horizontal = max_i(1, work.w() - l - r);
    let vertical = max_i(1, work.h() - t - b);
    Rect {
        left: (work.left + l) as i32,
        top: (work.top + t) as i32,
        right: (work.left + l + horizontal) as i32,
        bottom: (work.top + t + vertical) as i32,
    }
}

/// Whether `apply_padding` evaluates without overflow.
pub open spec fn padding_defined(work: Rect, global: i32, left: i32, top: i32, right: i32, bottom: i32) -> bool {
    let (l, t, r, b) = clamped_pads(work, global, left, top, right, bottom);
    &&& fits_i32(global + left)
    &&& fits_i32(global + top)
    &&& fits_i32(global + right)
    &&& fits_i32(global + bottom)
    &&& fits_i32(work.w())
    &&& fits_i32(work.h())
    &&& fits_i32(work.w() - 1)
    &&& fits_i32(work.h() - 1)
    &&& fits_i32(work.left + l)
    &&& fits_i32(work.top + t)
    &&& fits_i32(work.left + l + max_i(1, work.w() - l - r))
    &&& fits_i32(work.top + t + max_i(1, work.h() - t - b))
}

/// Combine global + per-edge padding and clamp it inside `work`.
pub fn apply_padding(work: Rect, global: i32, left: i32, top: i32, right: i32, bottom: i32) -> (r:
    Rect)
    requires
        padding_defined(work, global, left, top, right, bottom),
    ensures
        r == padded_of(work, global, left, top, right, bottom),
{
    let gl = global + left;
    let gt = global + top;
    let gr = global + right;
    let gb = global + bottom;
    let left = if gl >= 0 { gl } else { 0 };
    let top = if gt >= 0 { gt } else { 0 };
    let right = if gr >= 0 { gr } else { 0 };
    let bottom = if gb >= 0 { gb } else { 0 };
    let w = work.width();
    let h = work.height();
    let cap_l = if w - 1 >= 0 { w - 1 } else { 0 };
    let left = if left <= cap_l { left } else { cap_l };
    let cap_r = if w - left - 1 >= 0 { w - left - 1 } else { 0 };
    let right = if right <= cap_r { right } else { cap_r };
    let cap_t = if h - 1 >= 0 { h - 1 } else { 0 };
    let top = if top <= cap_t { top } else { cap_t };
    let cap_b = if h - top - 1 >= 0 { h - top - 1 } else { 0 };
    let bottom = if bottom <= cap_b { bottom } else { cap_b };
    let horizontal = if w - left - right >= 1 { w - left - right } else { 1 };
    let vertical = if h - top - bottom >= 1 { h - top - bottom } else { 1 };
    Rect::new(
        work.left + left,
        work.top + top,
        work.left + left + horizontal,
        work.top + top + vertical,
    )
}

/// Padding keeps a usable area: on a work area at least one pixel in each
/// direction, the padded area lies inside it and keeps at least one pixel of
/// width and height; when the requested paddings fit, each edge moves in by
/// exactly global plus its own padding.
pub proof fn law_padding_stays_inside(work: Rect, global: i32, left: i32, top: i32, right: i32, bottom: i32)
    requires
        padding_defined(work, global, left, top, right, bottom),
        work.w() >= 1,
        work.h() >= 1,
    ensures
        ({
            let p = padded_of(work, global, left, top, right, bottom);
            &&& work.left <= p.left < p.right <= work.right
            &&& work.top <= p.top < p.bottom <= work.bottom
            &&& raw_pad(global, left) + raw_pad(global, right) < work.w() ==> p.left == work.left
                + raw_pad(global, left) && p.right == work.right - raw_pad(global, right)
            &&& raw_pad(global, top) + raw_pad(global, bottom) < work.h() ==> p.top == work.top
                + raw_pad(global, top) && p.bottom == work.bottom - raw_pad(global, bottom)
        }),
{
}

} // verus!
