//! Stash frame rebasing across work-area / monitor changes, and the choice
//! of the monitor to restore onto. Only the saved normal position is
//! rebased; the DPI scaling between different monitors is floating-point
//! work left to the caller, which this module tells when it is needed.

use vstd::prelude::*;
use super::frame_math::tdiv;
use super::monitor::MonitorSnapshot;
use super::nav::abs_i;
use super::rect::{Rect, fits_i32};
use super::stash::{StashMonitor, as_rect};

verus! {

/// How a saved frame moves from the recorded monitor to the current one.
#[derive(Debug, Clone, Copy, PartialEq, Eq, Structural)]
pub enum RebaseStep {
    /// Keep the frame as saved.
    Keep,
    /// Same monitor, moved work area: shift by the work-origin delta.
    Translate { dx: i32, dy: i32 },
    /// Different monitor: scale by the DPI ratio around the work origins.
    ScaleByDpi,
}

/// A rectangle with positive width and height.
pub open spec fn usable(r: Rect) -> bool {
    r.right > r.left && r.bottom > r.top
}

/// The rebase step for a recorded and a current monitor: frames whose
/// recorded or current work area is unusable, or whose monitor and work area
/// are unchanged, stay put; the same usable monitor with another work area
/// translates; anything else scales by DPI.
pub open spec fn rebase_step_of(original: StashMonitor, target: StashMonitor) -> RebaseStep {
    let ow = as_rect(original.work);
    let tw = as_rect(target.work);
    let om = as_rect(original.monitor);
    let tm = as_rect(target.monitor);
    if !usable(ow) || !usable(tw) {
        RebaseStep::Keep
    } else if om == tm && ow == tw {
        RebaseStep::Keep
    } else if om == tm && usable(om) {
        RebaseStep::Translate {
            dx: (tw.left - ow.left) as i32,
            dy: (tw.top - ow.top) as i32,
        }
    } else {
        RebaseStep::ScaleByDpi
    }
}

/// Whether `rebase_step` evaluates without overflow.
pub open spec fn rebase_defined(original: StashMonitor, target: StashMonitor) -> bool {
    fits_i32(target.work.left - original.work.left) && fits_i32(target.work.top - original.work.top)
}

fn is_usable(rect: Rect) -> (b: bool)
    ensures
        b == usable(rect),
{
    rect.right > rect.left && rect.bottom > rect.top
}

/// Decide how a saved frame is rebased onto the current monitor.
pub fn rebase_step(original: &StashMonitor, target: &StashMonitor) -> (s: RebaseStep)
    requires
        rebase_defined(*original, *target),
    ensures
        s == rebase_step_of(*original, *target),
{
    let orig_work = Rect::from(original.work);
    let target_work = Rect::from(target.work);
    if !is_usable(orig_work) || !is_usable(target_work) {
        return RebaseStep::Keep;
    }
    let orig_monitor = Rect::from(original.monitor);
    let target_monitor = Rect::from(target.monitor);
    if orig_monitor == target_monitor && orig_work == target_work {
        return RebaseStep::Keep;
    }
    if orig_monitor == target_monitor && is_usable(orig_monitor) {
        return RebaseStep::Translate {
            dx: target_work.left - orig_work.left,
            dy: target_work.top - orig_work.top,
        };
    }
    RebaseStep::ScaleByDpi
}

/// Shift a frame by `(dx, dy)`.
pub fn translate_rect(frame: Rect, dx: i32, dy: i32) -> (r: Rect)
    requires
        fits_i32(frame.left + dx),
        fits_i32(frame.top + dy),
        fits_i32(frame.right + dx),
        fits_i32(frame.bottom + dy),
    ensures
        r == (Rect {
            left: (frame.left + dx) as i32,
            top: (frame.top + dy) as i32,
            right: (frame.right + dx) as i32,
            bottom: (frame.bottom + dy) as i32,
        }),
{
    Rect::new(frame.left + dx, frame.top + dy, frame.right + dx, frame.bottom + dy)
}

/// A translated frame keeps its size and its offset from the work origin.
pub proof fn law_translate_keeps_work_offset(frame: Rect, original: StashMonitor, target: StashMonitor)
    requires
        rebase_defined(original, target),
        rebase_step_of(original, target) is Translate,
    ensures
        ({
            let (dx, dy) = match rebase_step_of(original, target) {
                RebaseStep::Translate { dx, dy } => (dx as int, dy as int),
                _ => (0, 0),
            };
            &&& (frame.left + dx) - target.work.left == frame.left - original.work.left
            &&& (frame.top + dy) - target.work.top == frame.top - original.work.top
        }),
{
}

/// Center of a rectangle (truncating halves).
pub open spec fn mid(r: Rect) -> (int, int) {
    (r.left + tdiv(r.w(), 2), r.top + tdiv(r.h(), 2))
}

/// Manhattan distance between the centers of two rectangles.
pub open spec fn center_distance(a: Rect, b: Rect) -> int {
    abs_i(mid(a).0 - mid(b).0) + abs_i(mid(a).1 - mid(b).1)
}

/// A snapshot is the recorded monitor: same full rectangle or same work
/// area.
pub open spec fn exact_match(s: MonitorSnapshot, original: StashMonitor) -> bool {
    s.monitor == as_rect(original.monitor) || s.work == as_rect(original.work)
}

/// Whether `find_restore_monitor` evaluates without overflow.
pub open spec fn restore_defined(original: StashMonitor, current: Seq<MonitorSnapshot>) -> bool {
    let om = as_rect(original.monitor);
    (forall|i: int| 0 <= i < current.len() ==> !exact_match(#[trigger] current[i], original))
        && usable(om) ==> {
        &&& fits_i32(om.w()) && fits_i32(om.h())
        &&& forall|i: int|
            0 <= i < current.len() ==> {
                let m = (#[trigger] current[i]).monitor;
                &&& fits_i32(m.w()) && fits_i32(m.h())
                &&& fits_i32(mid(m).0 - mid(om).0) && fits_i32(abs_i(mid(m).0 - mid(om).0))
                &&& fits_i32(mid(m).1 - mid(om).1) && fits_i32(abs_i(mid(m).1 - mid(om).1))
            }
    }
}

/// The monitor to restore onto: the first exact match; otherwise, when the
/// recorded monitor is usable, the first monitor nearest to it by center
/// distance; otherwise none.
pub open spec fn restore_ok(original: StashMonitor, current: Seq<MonitorSnapshot>, r: Option<int>) -> bool {
    let om = as_rect(original.monitor);
    let any_exact = exists|i: int| 0 <= i < current.len() && exact_match(#[trigger] current[i], original);
    match r {
        None => !any_exact && (!usable(om) || current.len() == 0),
        Some(k) => {
            &&& 0 <= k < current.len()
            &&& if any_exact {
                &&& exact_match(current[k], original)
                &&& forall|j: int| 0 <= j < k ==> !exact_match(#[trigger] current[j], original)
            } else {
                &&& usable(om)
                &&& forall|j: int|
                    0 <= j < current.len() ==> center_distance(current[k].monitor, om)
                        <= center_distance((#[trigger] current[j]).monitor, om)
                &&& forall|j: int|
                    0 <= j < k ==> center_distance(current[k].monitor, om) < center_distance(
                        (#[trigger] current[j]).monitor,
                        om,
                    )
            }
        },
    }
}

fn center(rect: Rect) -> (c: (i32, i32))
    requires
        fits_i32(rect.w()),
        fits_i32(rect.h()),
    ensures
        c.0 == mid(rect).0,
        c.1 == mid(rect).1,
{
    let w = rect.width();
    let h = rect.height();
    assert(fits_i32(rect.left + tdiv(w as int, 2))) by {
        if w >= 0 {
            assert(0 <= tdiv(w as int, 2) <= w);
        } else {
            assert(w <= tdiv(w as int, 2) <= 0);
        }
    }
    assert(fits_i32(rect.top + tdiv(h as int, 2))) by {
        if h >= 0 {
            assert(0 <= tdiv(h as int, 2) <= h);
        } else {
            assert(h <= tdiv(h as int, 2) <= 0);
        }
    }
    (rect.left + w / 2, rect.top + h / 2)
}

fn abs_i32(x: i32) -> (a: i32)
    requires
        fits_i32(abs_i(x as int)),
    ensures
        a == abs_i(x as int),
{
    if x < 0 {
        -x
    } else {
        x
    }
}

/// Pick the monitor to restore onto: exact full-or-work match wins,
/// otherwise the nearest monitor by Manhattan center distance.
pub fn find_restore_monitor<'a>(original: &StashMonitor, current: &'a [MonitorSnapshot]) -> (r:
    Option<&'a MonitorSnapshot>)
    requires
        restore_defined(*original, current@),
    ensures
        match r {
            None => restore_ok(*original, current@, None),
            Some(s) => exists|i: int|
                restore_ok(*original, current@, Some(i)) && *s == #[trigger] current@[i],
        },
{
    let orig_monitor = Rect::from(original.monitor);
    let orig_work = Rect::from(original.work);
    let mut i: usize = 0;
    while i < current.len()
        invariant
            i <= current.len(),
            orig_monitor == as_rect(original.monitor),
            orig_work == as_rect(original.work),
            forall|j: int| 0 <= j < i ==> !exact_match(#[trigger] current@[j], *original),
        decreases current.len() - i,
    {
        let snapshot = &current[i];
        if snapshot.monitor == orig_monitor || snapshot.work == orig_work {
            assert(exact_match(current@[i as int], *original));
            assert(restore_ok(*original, current@, Some(i as int)));
            return Some(snapshot);
        }
        i = i + 1;
    }
    if !is_usable(orig_monitor) {
        assert(restore_ok(*original, current@, None));
        return None;
    }
    if current.len() == 0 {
        assert(restore_ok(*original, current@, None));
        return None;
    }
    let (ox, oy) = center(orig_monitor);
    let mut best: usize = 0;
    let mut best_d: i64 = 0;
    let mut n: usize = 0;
    while n < current.len()
        invariant
            0 < current.len(),
            n <= current.len(),
            usable(orig_monitor),
            orig_monitor == as_rect(original.monitor),
            forall|j: int| 0 <= j < current.len() ==> !exact_match(#[trigger] current@[j], *original),
            restore_defined(*original, current@),
            ox == mid(orig_monitor).0,
            oy == mid(orig_monitor).1,
            n > 0 ==> best < n,
            n > 0 ==> best_d == center_distance(current@[best as int].monitor, orig_monitor),
            forall|j: int|
                0 <= j < n ==> best_d <= center_distance((#[trigger] current@[j]).monitor, orig_monitor),
            forall|j: int|
                0 <= j < best ==> best_d < center_distance((#[trigger] current@[j]).monitor, orig_monitor),
            n == 0 ==> best == 0,
        decreases current.len() - n,
    {
        let m = current[n].monitor;
        assert(fits_i32(m.w()) && fits_i32(m.h()));
        let (cx, cy) = center(m);
        let d: i64 = abs_i32(cx - ox) as i64 + abs_i32(cy - oy) as i64;
        assert(d == center_distance(current@[n as int].monitor, orig_monitor));
        if n == 0 || d < best_d {
            best = n;
            best_d = d;
        }
        n = n + 1;
    }
    assert(restore_ok(*original, current@, Some(best as int)));
    Some(&current[best])
}

} // verus!
