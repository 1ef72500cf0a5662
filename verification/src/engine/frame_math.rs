//! Window frame math: zones, axis maximize, fill, center, nudge, fit.
//!
//! All functions are pure; DPI enters through explicit pixel parameters.

use vstd::prelude::*;
use super::actions::WindowAction;
use super::rect::{Rect, fits_i32};

verus! {

/// Rust's `/` on integers: division truncating toward zero (`b > 0`).
pub open spec fn tdiv(a: int, b: int) -> int {
    if a >= 0 {
        a / b
    } else {
        -((-a) / b)
    }
}

pub open spec fn min_i(a: int, b: int) -> int {
    if a <= b {
        a
    } else {
        b
    }
}

pub open spec fn max_i(a: int, b: int) -> int {
    if a >= b {
        a
    } else {
        b
    }
}

/// Whether `zone_frame` evaluates without overflow.
pub open spec fn zone_defined(work: Rect, action: WindowAction) -> bool {
    let w = work.w();
    let h = work.h();
    &&& fits_i32(w)
    &&& fits_i32(h)
    &&& fits_i32(w * 2)
    &&& fits_i32(h * 2)
    &&& (action == WindowAction::HorizontalCenterHalf || action == WindowAction::ThirdFourth
        || action == WindowAction::FourthFourth || action == WindowAction::LeftThreeFourths)
        ==> fits_i32(w * 3)
    &&& action == WindowAction::VerticalCenterHalf ==> fits_i32(h * 3)
}

/// The zone rectangle of a placement action inside `work`; actions without a
/// zone give the work area itself.
pub open spec fn zone_of(work: Rect, action: WindowAction) -> Rect {
    let (l, t, r, b) = (work.left as int, work.top as int, work.right as int, work.bottom as int);
    let w = work.w();
    let h = work.h();
    let mid_x = l + tdiv(w, 2);
    let mid_y = t + tdiv(h, 2);
    let third_w = tdiv(w, 3);
    let two_third_w = tdiv(w * 2, 3);
    let third_h = tdiv(h, 3);
    let two_third_h = tdiv(h * 2, 3);
    let (zl, zt, zr, zb): (int, int, int, int) = match action {
        WindowAction::LeftHalf => (l, t, mid_x, b),
        WindowAction::RightHalf => (mid_x, t, r, b),
        WindowAction::TopHalf => (l, t, r, mid_y),
        WindowAction::BottomHalf => (l, mid_y, r, b),
        WindowAction::TopLeftQuarter => (l, t, mid_x, mid_y),
        WindowAction::TopRightQuarter => (mid_x, t, r, mid_y),
        WindowAction::BottomLeftQuarter => (l, mid_y, mid_x, b),
        WindowAction::BottomRightQuarter => (mid_x, mid_y, r, b),
        WindowAction::HorizontalCenterHalf => (l + tdiv(w, 4), t, l + tdiv(w * 3, 4), b),
        WindowAction::VerticalCenterHalf => (l, t + tdiv(h, 4), r, t + tdiv(h * 3, 4)),
        WindowAction::LeftThird => (l, t, l + third_w, b),
        WindowAction::LeftTwoThirds => (l, t, l + two_third_w, b),
        WindowAction::HorizontalCenterThird => (l + third_w, t, l + two_third_w, b),
        WindowAction::RightTwoThirds => (l + third_w, t, r, b),
        WindowAction::RightThird => (l + two_third_w, t, r, b),
        WindowAction::TopThird => (l, t, r, t + third_h),
        WindowAction::TopTwoThirds => (l, t, r, t + two_third_h),
        WindowAction::VerticalCenterThird => (l, t + third_h, r, t + two_third_h),
        WindowAction::BottomTwoThirds => (l, t + third_h, r, b),
        WindowAction::BottomThird => (l, t + two_third_h, r, b),
        WindowAction::FirstFourth => (l, t, l + tdiv(w, 4), b),
        WindowAction::SecondFourth => (l + tdiv(w, 4), t, l + tdiv(w, 2), b),
        WindowAction::ThirdFourth => (l + tdiv(w, 2), t, l + tdiv(w * 3, 4), b),
        WindowAction::FourthFourth => (l + tdiv(w * 3, 4), t, r, b),
        WindowAction::LeftThreeFourths => (l, t, l + tdiv(w * 3, 4), b),
        WindowAction::RightThreeFourths => (l + tdiv(w, 4), t, r, b),
        _ => (l, t, r, b),
    };
    Rect { left: zl as i32, top: zt as i32, right: zr as i32, bottom: zb as i32 }
}

proof fn lemma_tdiv_between(base: int, w: int, num: int, den: int)
    requires
        0 <= num <= den,
        den > 0,
        fits_i32(base),
        fits_i32(base + w),
        fits_i32(w * num),
    ensures
        fits_i32(base + tdiv(w * num, den)),
        w >= 0 ==> 0 <= tdiv(w * num, den) <= w,
        w < 0 ==> w <= tdiv(w * num, den) <= 0,
{
    if w >= 0 {
        assert(0 <= w * num <= w * den) by (nonlinear_arith)
            requires
                w >= 0,
                0 <= num <= den,
        ;
        assert((w * num) / den <= w) by (nonlinear_arith)
            requires
                0 <= w * num <= w * den,
                den > 0,
        ;
    } else {
        assert(0 <= (-w) * num <= (-w) * den) by (nonlinear_arith)
            requires
                w < 0,
                0 <= num <= den,
        ;
        assert(-(w * num) == (-w) * num) by (nonlinear_arith);
        assert(((-w) * num) / den <= -w) by (nonlinear_arith)
            requires
                0 <= (-w) * num <= (-w) * den,
                den > 0,
        ;
    }
}

/// Zone frame for halves, quarters, thirds, fourths and centered strips.
pub fn zone_frame(work: Rect, action: WindowAction) -> (r: Rect)
    requires
        zone_defined(work, action),
    ensures
        r == zone_of(work, action),
{
    let (left, top, right, bottom) = (work.left, work.top, work.right, work.bottom);
    proof {
        let w = work.w();
        let h = work.h();
        lemma_tdiv_between(left as int, w, 1, 2);
        lemma_tdiv_between(top as int, h, 1, 2);
        lemma_tdiv_between(left as int, w, 1, 3);
        lemma_tdiv_between(left as int, w, 2, 3);
        lemma_tdiv_between(top as int, h, 1, 3);
        lemma_tdiv_between(top as int, h, 2, 3);
        lemma_tdiv_between(left as int, w, 1, 4);
        lemma_tdiv_between(top as int, h, 1, 4);
        if fits_i32(w * 3) {
            lemma_tdiv_between(left as int, w, 3, 4);
        }
        if fits_i32(h * 3) {
            lemma_tdiv_between(top as int, h, 3, 4);
        }
    }
    let mid_x = left + work.width() / 2;
    let mid_y = top + work.height() / 2;
    let third_w = work.width() / 3;
    let two_third_w = work.width() * 2 / 3;
    let third_h = work.height() / 3;
    let two_third_h = work.height() * 2 / 3;
    match action {
        WindowAction::LeftHalf => Rect::new(left, top, mid_x, bottom),
        WindowAction::RightHalf => Rect::new(mid_x, top, right, bottom),
        WindowAction::TopHalf => Rect::new(left, top, right, mid_y),
        WindowAction::BottomHalf => Rect::new(left, mid_y, right, bottom),
        WindowAction::TopLeftQuarter => Rect::new(left, top, mid_x, mid_y),
        WindowAction::TopRightQuarter => Rect::new(mid_x, top, right, mid_y),
        WindowAction::BottomLeftQuarter => Rect::new(left, mid_y, mid_x, bottom),
        WindowAction::BottomRightQuarter => Rect::new(mid_x, mid_y, right, bottom),
        WindowAction::HorizontalCenterHalf => Rect::new(
            left + work.width() / 4,
            top,
            left + work.width() * 3 / 4,
            bottom,
        ),
        WindowAction::VerticalCenterHalf => Rect::new(
            left,
            top + work.height() / 4,
            right,
            top + work.height() * 3 / 4,
        ),
        WindowAction::LeftThird => Rect::new(left, top, left + third_w, bottom),
        WindowAction::LeftTwoThirds => Rect::new(left, top, left + two_third_w, bottom),
        WindowAction::HorizontalCenterThird => Rect::new(
            left + third_w,
            top,
            left + two_third_w,
            bottom,
        ),
        WindowAction::RightTwoThirds => Rect::new(left + third_w, top, right, bottom),
        WindowAction::RightThird => Rect::new(left + two_third_w, top, right, bottom),
        WindowAction::TopThird => Rect::new(left, top, right, top + third_h),
        WindowAction::TopTwoThirds => Rect::new(left, top, right, top + two_third_h),
        WindowAction::VerticalCenterThird => Rect::new(
            left,
            top + third_h,
            right,
            top + two_third_h,
        ),
        WindowAction::BottomTwoThirds => Rect::new(left, top + third_h, right, bottom),
        WindowAction::BottomThird => Rect::new(left, top + two_third_h, right, bottom),
        WindowAction::FirstFourth => Rect::new(left, top, left + work.width() / 4, bottom),
        WindowAction::SecondFourth => Rect::new(
            left + work.width() / 4,
            top,
            left + work.width() / 2,
            bottom,
        ),
        WindowAction::ThirdFourth => Rect::new(
            left + work.width() / 2,
            top,
            left + work.width() * 3 / 4,
            bottom,
        ),
        WindowAction::FourthFourth => Rect::new(left + work.width() * 3 / 4, top, right, bottom),
        WindowAction::LeftThreeFourths => Rect::new(
            left,
            top,
            left + work.width() * 3 / 4,
            bottom,
        ),
        WindowAction::RightThreeFourths => Rect::new(left + work.width() / 4, top, right, bottom),
        _ => work,
    }
}

/// A rectangle lies inside another and is not inverted.
pub open spec fn within(inner: Rect, outer: Rect) -> bool {
    &&& outer.left <= inner.left <= inner.right <= outer.right
    &&& outer.top <= inner.top <= inner.bottom <= outer.bottom
}

/// Left and right halves meet at the midline and together span the work
/// area; likewise top and bottom; each quarter is the overlap of the two
/// halves it names.
pub proof fn law_halves_tile(work: Rect)
    requires
        zone_defined(work, WindowAction::LeftHalf),
        work.w() >= 0,
        work.h() >= 0,
    ensures
        ({
            let lh = zone_of(work, WindowAction::LeftHalf);
            let rh = zone_of(work, WindowAction::RightHalf);
            let th = zone_of(work, WindowAction::TopHalf);
            let bh = zone_of(work, WindowAction::BottomHalf);
            &&& lh.left == work.left && lh.right == rh.left && rh.right == work.right
            &&& lh.top == work.top && lh.bottom == work.bottom
            &&& rh.top == work.top && rh.bottom == work.bottom
            &&& th.top == work.top && th.bottom == bh.top && bh.bottom == work.bottom
            &&& th.left == work.left && th.right == work.right
            &&& zone_of(work, WindowAction::TopLeftQuarter) == lh.meet(th)
            &&& zone_of(work, WindowAction::TopRightQuarter) == rh.meet(th)
            &&& zone_of(work, WindowAction::BottomLeftQuarter) == lh.meet(bh)
            &&& zone_of(work, WindowAction::BottomRightQuarter) == rh.meet(bh)
        }),
{
    lemma_tdiv_between(work.left as int, work.w(), 1, 2);
    lemma_tdiv_between(work.top as int, work.h(), 1, 2);
}

/// Left, center and right thirds tile the work area without gaps; the
/// two-thirds zones are unions of adjacent thirds; the same holds
/// vertically.
pub proof fn law_thirds_tile(work: Rect)
    requires
        zone_defined(work, WindowAction::LeftThird),
    ensures
        ({
            let l = zone_of(work, WindowAction::LeftThird);
            let c = zone_of(work, WindowAction::HorizontalCenterThird);
            let r = zone_of(work, WindowAction::RightThird);
            let l2 = zone_of(work, WindowAction::LeftTwoThirds);
            let r2 = zone_of(work, WindowAction::RightTwoThirds);
            let t = zone_of(work, WindowAction::TopThird);
            let m = zone_of(work, WindowAction::VerticalCenterThird);
            let b = zone_of(work, WindowAction::BottomThird);
            let t2 = zone_of(work, WindowAction::TopTwoThirds);
            let b2 = zone_of(work, WindowAction::BottomTwoThirds);
            &&& l.left == work.left && l.right == c.left && c.right == r.left && r.right
                == work.right
            &&& l2.left == l.left && l2.right == c.right
            &&& r2.left == c.left && r2.right == r.right
            &&& t.top == work.top && t.bottom == m.top && m.bottom == b.top && b.bottom
                == work.bottom
            &&& t2.top == t.top && t2.bottom == m.bottom
            &&& b2.top == m.top && b2.bottom == b.bottom
        }),
{
    lemma_tdiv_between(work.left as int, work.w(), 1, 3);
    lemma_tdiv_between(work.left as int, work.w(), 2, 3);
    lemma_tdiv_between(work.top as int, work.h(), 1, 3);
    lemma_tdiv_between(work.top as int, work.h(), 2, 3);
}

/// The four fourths tile the work area left to right; the three-fourths
/// zones cover the matching three fourths.
pub proof fn law_fourths_tile(work: Rect)
    requires
        zone_defined(work, WindowAction::FourthFourth),
    ensures
        ({
            let f1 = zone_of(work, WindowAction::FirstFourth);
            let f2 = zone_of(work, WindowAction::SecondFourth);
            let f3 = zone_of(work, WindowAction::ThirdFourth);
            let f4 = zone_of(work, WindowAction::FourthFourth);
            &&& f1.left == work.left && f1.right == f2.left && f2.right == f3.left && f3.right
                == f4.left && f4.right == work.right
            &&& zone_of(work, WindowAction::LeftThreeFourths).right == f3.right
            &&& zone_of(work, WindowAction::RightThreeFourths).left == f2.left
            &&& zone_of(work, WindowAction::HorizontalCenterHalf).left == f2.left
            &&& zone_of(work, WindowAction::HorizontalCenterHalf).right == f3.right
        }),
{
    lemma_tdiv_between(work.left as int, work.w(), 1, 4);
    lemma_tdiv_between(work.left as int, work.w(), 1, 2);
    lemma_tdiv_between(work.left as int, work.w(), 3, 4);
}

/// `x` is `num / den` of `w`, rounded down: `den * x <= num * w < den * (x + 1)`.
pub open spec fn is_floor_share(x: int, w: int, num: int, den: int) -> bool {
    den * x <= num * w < den * x + den
}

proof fn lemma_floor_share(w: int, num: int, den: int)
    requires
        w >= 0,
        1 <= num <= 3,
        2 <= den <= 4,
    ensures
        is_floor_share(tdiv(w * num, den), w, num, den),
{
    assert(w * num >= 0) by (nonlinear_arith)
        requires
            w >= 0,
            num >= 1,
    ;
    let a = w * num;
    assert(num * w == a) by (nonlinear_arith)
        requires
            a == w * num,
    ;
    let q = tdiv(a, den);
    if den == 2 {
        assert(2 * (a / 2) <= a < 2 * (a / 2) + 2);
        assert(den * q == 2 * (a / 2));
    } else if den == 3 {
        assert(3 * (a / 3) <= a < 3 * (a / 3) + 3);
        assert(den * q == 3 * (a / 3));
    } else {
        assert(4 * (a / 4) <= a < 4 * (a / 4) + 4);
        assert(den * q == 4 * (a / 4));
    }
}

/// Halves and quarters are exactly half the work area on their side: the
/// outer edges are the work area's, and the inner edge is half the width
/// (or height) from the left (or top), rounded down.
pub proof fn law_halves_and_quarters_exact(work: Rect)
    requires
        zone_defined(work, WindowAction::LeftHalf),
        work.w() >= 0,
        work.h() >= 0,
    ensures
        ({
            let (wl, wt, wr, wb) = (work.left as int, work.top as int, work.right as int, work.bottom as int);
            let (w, h) = (work.w(), work.h());
            let lh = zone_of(work, WindowAction::LeftHalf);
            let rh = zone_of(work, WindowAction::RightHalf);
            let th = zone_of(work, WindowAction::TopHalf);
            let bh = zone_of(work, WindowAction::BottomHalf);
            let tl = zone_of(work, WindowAction::TopLeftQuarter);
            let tr = zone_of(work, WindowAction::TopRightQuarter);
            let bl = zone_of(work, WindowAction::BottomLeftQuarter);
            let br = zone_of(work, WindowAction::BottomRightQuarter);
            &&& lh.left == wl && lh.top == wt && lh.bottom == wb && is_floor_share(lh.right - wl, w, 1, 2)
            &&& rh.right == wr && rh.top == wt && rh.bottom == wb && is_floor_share(rh.left - wl, w, 1, 2)
            &&& th.left == wl && th.right == wr && th.top == wt && is_floor_share(th.bottom - wt, h, 1, 2)
            &&& bh.left == wl && bh.right == wr && bh.bottom == wb && is_floor_share(bh.top - wt, h, 1, 2)
            &&& tl.left == wl && tl.top == wt && is_floor_share(tl.right - wl, w, 1, 2)
                && is_floor_share(tl.bottom - wt, h, 1, 2)
            &&& tr.right == wr && tr.top == wt && is_floor_share(tr.left - wl, w, 1, 2)
                && is_floor_share(tr.bottom - wt, h, 1, 2)
            &&& bl.left == wl && bl.bottom == wb && is_floor_share(bl.right - wl, w, 1, 2)
                && is_floor_share(bl.top - wt, h, 1, 2)
            &&& br.right == wr && br.bottom == wb && is_floor_share(br.left - wl, w, 1, 2)
                && is_floor_share(br.top - wt, h, 1, 2)
        }),
{
    lemma_tdiv_between(work.left as int, work.w(), 1, 2);
    lemma_tdiv_between(work.top as int, work.h(), 1, 2);
    lemma_floor_share(work.w(), 1, 2);
    lemma_floor_share(work.h(), 1, 2);
}

/// Thirds are exact: each third edge is one or two thirds of the width (or
/// height) from the left (or top), rounded down, and the other edges are
/// the work area's.
pub proof fn law_thirds_exact(work: Rect)
    requires
        zone_defined(work, WindowAction::LeftThird),
        work.w() >= 0,
        work.h() >= 0,
    ensures
        ({
            let (wl, wt, wr, wb) = (work.left as int, work.top as int, work.right as int, work.bottom as int);
            let (w, h) = (work.w(), work.h());
            let l = zone_of(work, WindowAction::LeftThird);
            let c = zone_of(work, WindowAction::HorizontalCenterThird);
            let r = zone_of(work, WindowAction::RightThird);
            let l2 = zone_of(work, WindowAction::LeftTwoThirds);
            let r2 = zone_of(work, WindowAction::RightTwoThirds);
            let t = zone_of(work, WindowAction::TopThird);
            let m = zone_of(work, WindowAction::VerticalCenterThird);
            let b = zone_of(work, WindowAction::BottomThird);
            let t2 = zone_of(work, WindowAction::TopTwoThirds);
            let b2 = zone_of(work, WindowAction::BottomTwoThirds);
            &&& l.left == wl && l.top == wt && l.bottom == wb && is_floor_share(l.right - wl, w, 1, 3)
            &&& c.top == wt && c.bottom == wb && is_floor_share(c.left - wl, w, 1, 3)
                && is_floor_share(c.right - wl, w, 2, 3)
            &&& r.right == wr && r.top == wt && r.bottom == wb && is_floor_share(r.left - wl, w, 2, 3)
            &&& l2.left == wl && l2.top == wt && l2.bottom == wb && is_floor_share(l2.right - wl, w, 2, 3)
            &&& r2.right == wr && r2.top == wt && r2.bottom == wb && is_floor_share(r2.left - wl, w, 1, 3)
            &&& t.top == wt && t.left == wl && t.right == wr && is_floor_share(t.bottom - wt, h, 1, 3)
            &&& m.left == wl && m.right == wr && is_floor_share(m.top - wt, h, 1, 3)
                && is_floor_share(m.bottom - wt, h, 2, 3)
            &&& b.bottom == wb && b.left == wl && b.right == wr && is_floor_share(b.top - wt, h, 2, 3)
            &&& t2.top == wt && t2.left == wl && t2.right == wr && is_floor_share(t2.bottom - wt, h, 2, 3)
            &&& b2.bottom == wb && b2.left == wl && b2.right == wr && is_floor_share(b2.top - wt, h, 1, 3)
        }),
{
    lemma_tdiv_between(work.left as int, work.w(), 1, 3);
    lemma_tdiv_between(work.left as int, work.w(), 2, 3);
    lemma_tdiv_between(work.top as int, work.h(), 1, 3);
    lemma_tdiv_between(work.top as int, work.h(), 2, 3);
    lemma_floor_share(work.w(), 1, 3);
    lemma_floor_share(work.w(), 2, 3);
    lemma_floor_share(work.h(), 1, 3);
    lemma_floor_share(work.h(), 2, 3);
}

/// Fourths and the centered halves are exact: their vertical (or
/// horizontal) edges sit one, two or three fourths into the work area,
/// rounded down, and their other edges are the work area's.
pub proof fn law_fourths_exact(work: Rect)
    requires
        zone_defined(work, WindowAction::FourthFourth),
        zone_defined(work, WindowAction::VerticalCenterHalf),
        work.w() >= 0,
        work.h() >= 0,
    ensures
        ({
            let (wl, wt, wr, wb) = (work.left as int, work.top as int, work.right as int, work.bottom as int);
            let (w, h) = (work.w(), work.h());
            let f1 = zone_of(work, WindowAction::FirstFourth);
            let f2 = zone_of(work, WindowAction::SecondFourth);
            let f3 = zone_of(work, WindowAction::ThirdFourth);
            let f4 = zone_of(work, WindowAction::FourthFourth);
            let l3 = zone_of(work, WindowAction::LeftThreeFourths);
            let r3 = zone_of(work, WindowAction::RightThreeFourths);
            let hc = zone_of(work, WindowAction::HorizontalCenterHalf);
            let vc = zone_of(work, WindowAction::VerticalCenterHalf);
            &&& f1.left == wl && f1.top == wt && f1.bottom == wb && is_floor_share(f1.right - wl, w, 1, 4)
            &&& f2.top == wt && f2.bottom == wb && is_floor_share(f2.left - wl, w, 1, 4)
                && is_floor_share(f2.right - wl, w, 1, 2)
            &&& f3.top == wt && f3.bottom == wb && is_floor_share(f3.left - wl, w, 1, 2)
                && is_floor_share(f3.right - wl, w, 3, 4)
            &&& f4.right == wr && f4.top == wt && f4.bottom == wb && is_floor_share(f4.left - wl, w, 3, 4)
            &&& l3.left == wl && l3.top == wt && l3.bottom == wb && is_floor_share(l3.right - wl, w, 3, 4)
            &&& r3.right == wr && r3.top == wt && r3.bottom == wb && is_floor_share(r3.left - wl, w, 1, 4)
            &&& hc.top == wt && hc.bottom == wb && is_floor_share(hc.left - wl, w, 1, 4)
                && is_floor_share(hc.right - wl, w, 3, 4)
            &&& vc.left == wl && vc.right == wr && is_floor_share(vc.top - wt, h, 1, 4)
                && is_floor_share(vc.bottom - wt, h, 3, 4)
        }),
{
    lemma_tdiv_between(work.left as int, work.w(), 1, 4);
    lemma_tdiv_between(work.left as int, work.w(), 1, 2);
    lemma_tdiv_between(work.left as int, work.w(), 3, 4);
    lemma_tdiv_between(work.top as int, work.h(), 1, 4);
    lemma_tdiv_between(work.top as int, work.h(), 3, 4);
    lemma_floor_share(work.w(), 1, 4);
    lemma_floor_share(work.w(), 1, 2);
    lemma_floor_share(work.w(), 3, 4);
    lemma_floor_share(work.h(), 1, 4);
    lemma_floor_share(work.h(), 3, 4);
}

/// The centered strips are centered: the gap on the far side is the gap on
/// the near side or one pixel more, and the strip is half (or a third) of
/// the work area, within a pixel.
pub proof fn law_center_strips_balanced(work: Rect)
    requires
        zone_defined(work, WindowAction::HorizontalCenterHalf),
        zone_defined(work, WindowAction::VerticalCenterHalf),
        work.w() >= 0,
        work.h() >= 0,
    ensures
        ({
            let hc = zone_of(work, WindowAction::HorizontalCenterHalf);
            let vc = zone_of(work, WindowAction::VerticalCenterHalf);
            let ht = zone_of(work, WindowAction::HorizontalCenterThird);
            let vt = zone_of(work, WindowAction::VerticalCenterThird);
            &&& hc.left - work.left <= work.right - hc.right <= hc.left - work.left + 1
            &&& vc.top - work.top <= work.bottom - vc.bottom <= vc.top - work.top + 1
            &&& ht.left - work.left <= work.right - ht.right <= ht.left - work.left + 1
            &&& vt.top - work.top <= work.bottom - vt.bottom <= vt.top - work.top + 1
            &&& work.w() - 1 <= 2 * hc.w() <= work.w() + 1
            &&& work.h() - 1 <= 2 * vc.h() <= work.h() + 1
            &&& work.w() - 2 <= 3 * ht.w() <= work.w() + 2
            &&& work.h() - 2 <= 3 * vt.h() <= work.h() + 2
        }),
{
    law_fourths_exact(work);
    law_thirds_exact(work);
}

/// What each grow, shrink, move and resize does to the current frame, edge
/// by edge: a grow moves the named edges out by exactly the step, a move
/// shifts the frame by the step, a shrink moves the named edge in by the
/// step but stops one pixel short of the opposite edge, a two-sided shrink
/// and a resize keep the (rounded-down) center and take the new size; every
/// other edge stays where it was.
pub proof fn law_manipulate_edges(action: WindowAction, current: Rect, step: i32, sw: i32, sh: i32)
    requires
        manipulate_defined(action, current, step, sw, sh),
    ensures
        ({
            let m = manipulated_of(action, current, step, sw, sh);
            let (l, t, r, b) = (current.left as int, current.top as int, current.right as int, current.bottom as int);
            let s = step as int;
            let (w, h) = (current.w(), current.h());
            let tenth_w = if tdiv(w, 10) >= 32 { tdiv(w, 10) } else { 32 };
            let tenth_h = if tdiv(h, 10) >= 32 { tdiv(h, 10) } else { 32 };
            let want_w = if action == WindowAction::Larger {
                w + tenth_w
            } else if action == WindowAction::Smaller {
                w - tenth_w
            } else {
                sw as int
            };
            let want_h = if action == WindowAction::Larger {
                h + tenth_h
            } else if action == WindowAction::Smaller {
                h - tenth_h
            } else {
                sh as int
            };
            &&& action == WindowAction::GrowLeft ==> m.left == l - s && m.top == t && m.right == r && m.bottom == b
            &&& action == WindowAction::GrowRight ==> m.left == l && m.top == t && m.right == r + s && m.bottom == b
            &&& action == WindowAction::GrowTop ==> m.left == l && m.top == t - s && m.right == r && m.bottom == b
            &&& action == WindowAction::GrowBottom ==> m.left == l && m.top == t && m.right == r && m.bottom == b + s
            &&& action == WindowAction::GrowHorizontal ==> m.left == l - s && m.top == t && m.right == r + s && m.bottom == b
            &&& action == WindowAction::GrowVertical ==> m.left == l && m.top == t - s && m.right == r && m.bottom == b + s
            &&& action == WindowAction::MoveLeft ==> m.left == l - s && m.top == t && m.right == r - s && m.bottom == b
            &&& action == WindowAction::MoveRight ==> m.left == l + s && m.top == t && m.right == r + s && m.bottom == b
            &&& action == WindowAction::MoveUp ==> m.left == l && m.top == t - s && m.right == r && m.bottom == b - s
            &&& action == WindowAction::MoveDown ==> m.left == l && m.top == t + s && m.right == r && m.bottom == b + s
            &&& action == WindowAction::ShrinkLeft ==> m.top == t && m.right == r && m.bottom == b
                && m.left == (if l + s < r { l + s } else { r - 1 })
            &&& action == WindowAction::ShrinkRight ==> m.left == l && m.top == t && m.bottom == b
                && m.right == (if r - s > l { r - s } else { l + 1 })
            &&& action == WindowAction::ShrinkTop ==> m.left == l && m.right == r && m.bottom == b
                && m.top == (if t + s < b { t + s } else { b - 1 })
            &&& action == WindowAction::ShrinkBottom ==> m.left == l && m.top == t && m.right == r
                && m.bottom == (if b - s > t { b - s } else { t + 1 })
            &&& action == WindowAction::ShrinkHorizontal ==> m.top == t && m.bottom == b
                && m.w() == (if w - 2 * s >= 1 { w - 2 * s } else { 1 })
                && m.left + tdiv(m.w(), 2) == l + tdiv(w, 2)
            &&& action == WindowAction::ShrinkVertical ==> m.left == l && m.right == r
                && m.h() == (if h - 2 * s >= 1 { h - 2 * s } else { 1 })
                && m.top + tdiv(m.h(), 2) == t + tdiv(h, 2)
            &&& (action == WindowAction::Larger || action == WindowAction::Smaller || action
                == WindowAction::ScaleUp || action == WindowAction::ScaleDown) ==> {
                &&& m.w() == (if want_w >= s { want_w } else { s })
                &&& m.h() == (if want_h >= s { want_h } else { s })
                &&& m.left + tdiv(m.w(), 2) == l + tdiv(w, 2)
                &&& m.top + tdiv(m.h(), 2) == t + tdiv(h, 2)
            }
            &&& !(action == WindowAction::GrowLeft || action == WindowAction::GrowRight || action
                == WindowAction::GrowTop || action == WindowAction::GrowBottom || action
                == WindowAction::GrowHorizontal || action == WindowAction::GrowVertical || action
                == WindowAction::MoveLeft || action == WindowAction::MoveRight || action
                == WindowAction::MoveUp || action == WindowAction::MoveDown || action
                == WindowAction::ShrinkLeft || action == WindowAction::ShrinkRight || action
                == WindowAction::ShrinkTop || action == WindowAction::ShrinkBottom || action
                == WindowAction::ShrinkHorizontal || action == WindowAction::ShrinkVertical
                || action == WindowAction::Larger || action == WindowAction::Smaller || action
                == WindowAction::ScaleUp || action == WindowAction::ScaleDown) ==> m == current
        }),
{
}

/// Actions that are not zones (maximize, center, moves, resizes, screens,
/// and the rest) place into the whole work area.
pub proof fn law_non_zone_actions_fill_work(work: Rect, action: WindowAction)
    requires
        !(action == WindowAction::LeftHalf || action == WindowAction::RightHalf || action
            == WindowAction::TopHalf || action == WindowAction::BottomHalf || action
            == WindowAction::TopLeftQuarter || action == WindowAction::TopRightQuarter || action
            == WindowAction::BottomLeftQuarter || action == WindowAction::BottomRightQuarter
            || action == WindowAction::HorizontalCenterHalf || action
            == WindowAction::VerticalCenterHalf || action == WindowAction::LeftThird || action
            == WindowAction::LeftTwoThirds || action == WindowAction::HorizontalCenterThird
            || action == WindowAction::RightTwoThirds || action == WindowAction::RightThird
            || action == WindowAction::TopThird || action == WindowAction::TopTwoThirds || action
            == WindowAction::VerticalCenterThird || action == WindowAction::BottomTwoThirds
            || action == WindowAction::BottomThird || action == WindowAction::FirstFourth || action
            == WindowAction::SecondFourth || action == WindowAction::ThirdFourth || action
            == WindowAction::FourthFourth || action == WindowAction::LeftThreeFourths || action
            == WindowAction::RightThreeFourths),
    ensures
        zone_of(work, action) == work,
{
}

/// Every zone of a work area with non-negative size lies inside it.
pub proof fn law_zone_within_work(work: Rect, action: WindowAction)
    requires
        zone_defined(work, action),
        work.w() >= 0,
        work.h() >= 0,
    ensures
        within(zone_of(work, action), work),
{
    let w = work.w();
    let h = work.h();
    lemma_tdiv_between(work.left as int, w, 1, 2);
    lemma_tdiv_between(work.top as int, h, 1, 2);
    lemma_tdiv_between(work.left as int, w, 1, 3);
    lemma_tdiv_between(work.left as int, w, 2, 3);
    lemma_tdiv_between(work.top as int, h, 1, 3);
    lemma_tdiv_between(work.top as int, h, 2, 3);
    lemma_tdiv_between(work.left as int, w, 1, 4);
    lemma_tdiv_between(work.top as int, h, 1, 4);
    assert(tdiv(w, 3) <= tdiv(w * 2, 3)) by (nonlinear_arith)
        requires w >= 0;
    assert(tdiv(h, 3) <= tdiv(h * 2, 3)) by (nonlinear_arith)
        requires h >= 0;
    assert(tdiv(w, 4) <= tdiv(w, 2)) by (nonlinear_arith)
        requires w >= 0;
    if fits_i32(w * 3) {
        lemma_tdiv_between(work.left as int, w, 3, 4);
        assert(tdiv(w, 2) <= tdiv(w * 3, 4)) by (nonlinear_arith)
            requires w >= 0;
    }
    if fits_i32(h * 3) {
        lemma_tdiv_between(work.top as int, h, 3, 4);
        assert(tdiv(h, 4) <= tdiv(h * 3, 4)) by (nonlinear_arith)
            requires h >= 0;
    }
}

/// Whether `maximize_height_frame` evaluates without overflow.
pub open spec fn max_height_defined(work: Rect, current: Rect) -> bool {
    &&& fits_i32(current.w())
    &&& fits_i32(work.w())
    &&& fits_i32(work.right - min_i(current.w(), work.w()))
    &&& fits_i32(
        max_i(work.left as int, min_i(current.left as int, work.right - min_i(current.w(), work.w())))
            + min_i(current.w(), work.w()),
    )
}

/// Current width (capped at the work width), slid horizontally to fit, full
/// work height.
pub open spec fn max_height_of(work: Rect, current: Rect) -> Rect {
    let width = min_i(current.w(), work.w());
    let left = max_i(work.left as int, min_i(current.left as int, work.right - width));
    Rect { left: left as i32, top: work.top, right: (left + width) as i32, bottom: work.bottom }
}

/// Keep the current width, stretch vertically across the work area.
pub fn maximize_height_frame(work: Rect, current: Rect) -> (r: Rect)
    requires
        max_height_defined(work, current),
    ensures
        r == max_height_of(work, current),
{
    let cw = current.width();
    let ww = work.width();
    let width = if cw <= ww { cw } else { ww };
    let limit = work.right - width;
    let inner = if current.left <= limit { current.left } else { limit };
    let left = if work.left >= inner { work.left } else { inner };
    Rect::new(left, work.top, left + width, work.bottom)
}

/// Whether `maximize_width_frame` evaluates without overflow.
pub open spec fn max_width_defined(work: Rect, current: Rect) -> bool {
    &&& fits_i32(current.h())
    &&& fits_i32(work.h())
    &&& fits_i32(work.bottom - min_i(current.h(), work.h()))
    &&& fits_i32(
        max_i(work.top as int, min_i(current.top as int, work.bottom - min_i(current.h(), work.h())))
            + min_i(current.h(), work.h()),
    )
}

/// Current height (capped at the work height), slid vertically to fit, full
/// work width.
pub open spec fn max_width_of(work: Rect, current: Rect) -> Rect {
    let height = min_i(current.h(), work.h());
    let top = max_i(work.top as int, min_i(current.top as int, work.bottom - height));
    Rect { left: work.left, top: top as i32, right: work.right, bottom: (top + height) as i32 }
}

/// Keep the current height, stretch horizontally across the work area.
pub fn maximize_width_frame(work: Rect, current: Rect) -> (r: Rect)
    requires
        max_width_defined(work, current),
    ensures
        r == max_width_of(work, current),
{
    let ch = current.height();
    let wh = work.height();
    let height = if ch <= wh { ch } else { wh };
    let limit = work.bottom - height;
    let inner = if current.top <= limit { current.top } else { limit };
    let top = if work.top >= inner { work.top } else { inner };
    Rect::new(work.left, top, work.right, top + height)
}

/// Axis maximize keeps the other dimension: for a current frame no wider
/// than a non-degenerate work area, height-maximize keeps the width and
/// spans the work area vertically, and the result lies inside the work area
/// (and symmetrically for width-maximize).
pub proof fn law_axis_maximize_keeps_other_dimension(work: Rect, current: Rect)
    requires
        max_height_defined(work, current),
        max_width_defined(work, current),
        0 <= current.w() <= work.w(),
        0 <= current.h() <= work.h(),
    ensures
        max_height_of(work, current).w() == current.w(),
        max_height_of(work, current).top == work.top,
        max_height_of(work, current).bottom == work.bottom,
        within(max_height_of(work, current), work),
        max_width_of(work, current).h() == current.h(),
        max_width_of(work, current).left == work.left,
        max_width_of(work, current).right == work.right,
        within(max_width_of(work, current), work),
{
}

/// Whether `center_frame` evaluates without overflow.
pub open spec fn center_defined(work: Rect, current: Rect) -> bool {
    let width = min_i(current.w(), work.w());
    let height = min_i(current.h(), work.h());
    &&& fits_i32(current.w())
    &&& fits_i32(work.w())
    &&& fits_i32(current.h())
    &&& fits_i32(work.h())
    &&& fits_i32(work.w() - width)
    &&& fits_i32(work.h() - height)
    &&& fits_i32(work.left + tdiv(work.w() - width, 2))
    &&& fits_i32(work.top + tdiv(work.h() - height, 2))
    &&& fits_i32(work.left + tdiv(work.w() - width, 2) + width)
    &&& fits_i32(work.top + tdiv(work.h() - height, 2) + height)
}

/// The current size (capped at the work size) centered in the work area.
pub open spec fn center_of(work: Rect, current: Rect) -> Rect {
    let width = min_i(current.w(), work.w());
    let height = min_i(current.h(), work.h());
    let left = work.left + tdiv(work.w() - width, 2);
    let top = work.top + tdiv(work.h() - height, 2);
    Rect {
        left: left as i32,
        top: top as i32,
        right: (left + width) as i32,
        bottom: (top + height) as i32,
    }
}

/// Center the current size inside the work area.
pub fn center_frame(work: Rect, current: Rect) -> (r: Rect)
    requires
        center_defined(work, current),
    ensures
        r == center_of(work, current),
{
    let cw = current.width();
    let ww = work.width();
    let ch = current.height();
    let wh = work.height();
    let width = if cw <= ww { cw } else { ww };
    let height = if ch <= wh { ch } else { wh };
    let left = work.left + (ww - width) / 2;
    let top = work.top + (wh - height) / 2;
    Rect::new(left, top, left + width, top + height)
}

/// A frame that fits is centered: the leftover space is split so that the
/// near-side gap is at most the far-side gap and at most one pixel smaller.
pub proof fn law_center_is_balanced(work: Rect, current: Rect)
    requires
        center_defined(work, current),
        0 <= current.w() <= work.w(),
        0 <= current.h() <= work.h(),
    ensures
        ({
            let c = center_of(work, current);
            &&& c.w() == current.w() && c.h() == current.h()
            &&& c.left - work.left <= work.right - c.right <= c.left - work.left + 1
            &&& c.top - work.top <= work.bottom - c.bottom <= c.top - work.top + 1
        }),
{
}

/// The larger of two coordinates.
pub open spec fn imax(a: i32, b: i32) -> i32 {
    if a >= b {
        a
    } else {
        b
    }
}

/// The smaller of two coordinates.
pub open spec fn imin(a: i32, b: i32) -> i32 {
    if a <= b {
        a
    } else {
        b
    }
}

/// Area of a rectangle as a mathematical integer.
pub open spec fn area_of(c: Rect) -> int {
    c.w() * c.h()
}

/// `outer` contains `inner` (edges may coincide).
pub open spec fn encloses(outer: Rect, inner: Rect) -> bool {
    &&& outer.left <= inner.left
    &&& inner.right <= outer.right
    &&& outer.top <= inner.top
    &&& inner.bottom <= outer.bottom
}

/// An obstacle that matters for filling: it keeps clear of the current
/// frame, and its part inside the work area has an interior.
pub open spec fn relevant_obstacle(o: Rect, work: Rect, current: Rect) -> bool {
    !o.overlaps(current) && !o.meet(work).degenerate()
}

/// `r` overlaps no relevant obstacle's part inside the work area.
pub open spec fn clear_of_obstacles(r: Rect, obs: Seq<Rect>, work: Rect, current: Rect) -> bool {
    forall|i: int|
        0 <= i < obs.len() && relevant_obstacle(#[trigger] obs[i], work, current) ==> !r.overlaps(
            obs[i].meet(work),
        )
}

/// A rectangle the fill may produce: inside the work area, around the
/// current frame, and clear of every relevant obstacle.
pub open spec fn fill_fits(r: Rect, work: Rect, current: Rect, obs: Seq<Rect>) -> bool {
    &&& within(r, work)
    &&& encloses(r, current)
    &&& clear_of_obstacles(r, obs, work, current)
}

/// Filling applies when the current frame lies inside the work area.
pub open spec fn fill_possible(work: Rect, current: Rect) -> bool {
    within(current, work)
}

/// The fill result: when the current frame lies inside the work area, a
/// largest rectangle that fits (see [`fill_fits`]); otherwise the current
/// frame unchanged.
pub open spec fn fill_result_ok(r: Rect, work: Rect, current: Rect, obs: Seq<Rect>) -> bool {
    if fill_possible(work, current) {
        &&& fill_fits(r, work, current, obs)
        &&& forall|x: Rect| #[trigger]
            fill_fits(x, work, current, obs) ==> area_of(x) <= area_of(r)
    } else {
        r == current
    }
}

/// The relevant obstacles' parts inside the work area, in order.
pub open spec fn relevant_clips(obs: Seq<Rect>, work: Rect, current: Rect) -> Seq<Rect>
    decreases obs.len(),
{
    if obs.len() == 0 {
        Seq::empty()
    } else {
        let rest = relevant_clips(obs.drop_last(), work, current);
        if relevant_obstacle(obs.last(), work, current) {
            rest.push(obs.last().meet(work))
        } else {
            rest
        }
    }
}

/// `r` overlaps none of `cs`.
pub open spec fn clear_of(r: Rect, cs: Seq<Rect>) -> bool {
    forall|k: int| 0 <= k < cs.len() ==> !r.overlaps(#[trigger] cs[k])
}

/// Every clip has an interior and keeps clear of the current frame.
pub open spec fn clips_ok(cs: Seq<Rect>, current: Rect) -> bool {
    forall|k: int|
        0 <= k < cs.len() ==> {
            &&& (#[trigger] cs[k]).left < cs[k].right
            &&& cs[k].top < cs[k].bottom
            &&& !cs[k].overlaps(current)
        }
}

proof fn lemma_relevant_clips(obs: Seq<Rect>, work: Rect, current: Rect, r: Rect)
    ensures
        clips_ok(relevant_clips(obs, work, current), current),
        clear_of_obstacles(r, obs, work, current) == clear_of(r, relevant_clips(obs, work, current)),
    decreases obs.len(),
{
    if obs.len() > 0 {
        let p = obs.drop_last();
        let o = obs.last();
        lemma_relevant_clips(p, work, current, r);
        let rest = relevant_clips(p, work, current);
        let cs = relevant_clips(obs, work, current);
        if relevant_obstacle(o, work, current) {
            let c = o.meet(work);
            assert(cs == rest.push(c));
            assert forall|k: int| 0 <= k < cs.len() implies {
                &&& (#[trigger] cs[k]).left < cs[k].right
                &&& cs[k].top < cs[k].bottom
                &&& !cs[k].overlaps(current)
            } by {
                if k < rest.len() {
                    assert(cs[k] == rest[k]);
                }
            }
        }
        if clear_of_obstacles(r, obs, work, current) {
            assert forall|i: int|
                0 <= i < p.len() && relevant_obstacle(#[trigger] p[i], work, current) implies !r.overlaps(
                p[i].meet(work),
            ) by {
                assert(p[i] == obs[i]);
            }
            assert(relevant_obstacle(obs[obs.len() - 1], work, current) ==> !r.overlaps(
                obs[obs.len() - 1].meet(work),
            ));
            assert forall|k: int| 0 <= k < cs.len() implies !r.overlaps(#[trigger] cs[k]) by {
                if k < rest.len() {
                    assert(cs[k] == rest[k]);
                }
            }
        }
        if clear_of(r, cs) {
            assert forall|k: int| 0 <= k < rest.len() implies !r.overlaps(#[trigger] rest[k]) by {
                assert(cs[k] == rest[k]);
            }
            assert forall|i: int|
                0 <= i < obs.len() && relevant_obstacle(#[trigger] obs[i], work, current) implies !r.overlaps(
                obs[i].meet(work),
            ) by {
                if i < p.len() {
                    assert(p[i] == obs[i]);
                } else {
                    assert(cs[cs.len() - 1] == o.meet(work));
                }
            }
        }
    }
}

/// The clip crosses the columns between `l` and `r`.
pub open spec fn crosses_columns(c: Rect, l: i32, r: i32) -> bool {
    c.left < r && c.right > l
}

/// The clip crosses the rows of the current frame.
pub open spec fn crosses_rows(c: Rect, current: Rect) -> bool {
    c.top < current.bottom && c.bottom > current.top
}

/// For the columns `l..r`: whether a clip in them crosses the current
/// frame's rows (no rectangle around the current frame can use those
/// columns), and the lowest bottom above and the highest top below the
/// current frame, starting from the work area's edges.
pub open spec fn span_scan(cs: Seq<Rect>, l: i32, r: i32, work: Rect, current: Rect) -> (
    bool,
    i32,
    i32,
)
    decreases cs.len(),
{
    if cs.len() == 0 {
        (false, work.top, work.bottom)
    } else {
        let (blocked, t, b) = span_scan(cs.drop_last(), l, r, work, current);
        let c = cs.last();
        if !crosses_columns(c, l, r) {
            (blocked, t, b)
        } else if crosses_rows(c, current) {
            (true, t, b)
        } else if c.bottom <= current.top {
            (blocked, imax(t, c.bottom), b)
        } else {
            (blocked, t, imin(b, c.top))
        }
    }
}

/// The tallest rectangle over the columns `l..r` around the current frame,
/// if those columns can hold one.
pub open spec fn span_candidate(cs: Seq<Rect>, l: i32, r: i32, work: Rect, current: Rect) -> Option<
    Rect,
> {
    let (blocked, t, b) = span_scan(cs, l, r, work, current);
    if work.left <= l && l <= current.left && current.right <= r && r <= work.right && !blocked {
        Some(Rect { left: l, top: t, right: r, bottom: b })
    } else {
        None
    }
}

/// Candidate left edges: the work area's, the current frame's, then each
/// clip's right edge.
pub open spec fn left_edge(i: int, cs: Seq<Rect>, work: Rect, current: Rect) -> i32 {
    if i == 0 {
        work.left
    } else if i == 1 {
        current.left
    } else {
        cs[i - 2].right
    }
}

/// Candidate right edges: the work area's, the current frame's, then each
/// clip's left edge.
pub open spec fn right_edge(j: int, cs: Seq<Rect>, work: Rect, current: Rect) -> i32 {
    if j == 0 {
        work.right
    } else if j == 1 {
        current.right
    } else {
        cs[j - 2].left
    }
}

/// The candidate for the `i`-th left edge and the `j`-th right edge.
pub open spec fn edge_candidate(cs: Seq<Rect>, i: int, j: int, work: Rect, current: Rect) -> Option<
    Rect,
> {
    span_candidate(cs, left_edge(i, cs, work, current), right_edge(j, cs, work, current), work, current)
}

proof fn lemma_span_scan(cs: Seq<Rect>, l: i32, r: i32, work: Rect, current: Rect)
    requires
        fill_possible(work, current),
        clips_ok(cs, current),
    ensures
        ({
            let (blocked, t, b) = span_scan(cs, l, r, work, current);
            &&& work.top <= t <= current.top
            &&& current.bottom <= b <= work.bottom
            &&& blocked == exists|k: int|
                0 <= k < cs.len() && crosses_columns(#[trigger] cs[k], l, r) && crosses_rows(
                    cs[k],
                    current,
                )
            &&& !blocked ==> forall|k: int|
                0 <= k < cs.len() && crosses_columns(#[trigger] cs[k], l, r) ==> cs[k].bottom <= t
                    || cs[k].top >= b
            &&& t == work.top || exists|k: int|
                0 <= k < cs.len() && crosses_columns(#[trigger] cs[k], l, r) && cs[k].bottom
                    <= current.top && t == cs[k].bottom
            &&& b == work.bottom || exists|k: int|
                0 <= k < cs.len() && crosses_columns(#[trigger] cs[k], l, r) && cs[k].top
                    >= current.bottom && b == cs[k].top
        }),
    decreases cs.len(),
{
    if cs.len() > 0 {
        let p = cs.drop_last();
        assert(clips_ok(p, current)) by {
            assert forall|k: int| 0 <= k < p.len() implies {
                &&& (#[trigger] p[k]).left < p[k].right
                &&& p[k].top < p[k].bottom
                &&& !p[k].overlaps(current)
            } by {
                assert(p[k] == cs[k]);
            }
        }
        lemma_span_scan(p, l, r, work, current);
        let n = cs.len() - 1;
        let c = cs[n];
        assert(c == cs.last());
        assert(c.top < c.bottom);
        let (blocked0, t0, b0) = span_scan(p, l, r, work, current);
        let (blocked, t, b) = span_scan(cs, l, r, work, current);
        assert forall|k: int| 0 <= k < p.len() implies #[trigger] p[k] == cs[k] by {}
        if blocked0 {
            let k0 = choose|k: int|
                0 <= k < p.len() && crosses_columns(#[trigger] p[k], l, r) && crosses_rows(
                    p[k],
                    current,
                );
            assert(cs[k0] == p[k0]);
        }
        if blocked {
            if !blocked0 {
                assert(crosses_columns(cs[n], l, r) && crosses_rows(cs[n], current));
            }
        } else {
            assert forall|k: int|
                0 <= k < cs.len() && crosses_columns(#[trigger] cs[k], l, r) implies cs[k].bottom
                <= t || cs[k].top >= b by {
                if k < n {
                    assert(cs[k] == p[k]);
                }
            }
        }
        if t != work.top {
            if t == t0 {
                let k0 = choose|k: int|
                    0 <= k < p.len() && crosses_columns(#[trigger] p[k], l, r) && p[k].bottom
                        <= current.top && t0 == p[k].bottom;
                assert(cs[k0] == p[k0]);
            } else {
                assert(crosses_columns(cs[n], l, r) && cs[n].bottom <= current.top && t
                    == cs[n].bottom);
            }
        }
        if b != work.bottom {
            if b == b0 {
                let k0 = choose|k: int|
                    0 <= k < p.len() && crosses_columns(#[trigger] p[k], l, r) && p[k].top
                        >= current.bottom && b0 == p[k].top;
                assert(cs[k0] == p[k0]);
            } else {
                assert(crosses_columns(cs[n], l, r) && cs[n].top >= current.bottom && b
                    == cs[n].top);
            }
        }
    }
}

proof fn lemma_span_candidate_fits(cs: Seq<Rect>, l: i32, r: i32, work: Rect, current: Rect)
    requires
        fill_possible(work, current),
        clips_ok(cs, current),
        span_candidate(cs, l, r, work, current) is Some,
    ensures
        ({
            let y = span_candidate(cs, l, r, work, current)->0;
            &&& within(y, work)
            &&& encloses(y, current)
            &&& clear_of(y, cs)
            &&& 0 <= y.w()
            &&& 0 <= y.h()
        }),
{
    lemma_span_scan(cs, l, r, work, current);
    let y = span_candidate(cs, l, r, work, current)->0;
    assert forall|k: int| 0 <= k < cs.len() implies !y.overlaps(#[trigger] cs[k]) by {
        if crosses_columns(cs[k], l, r) {
            assert(cs[k].bottom <= y.top || cs[k].top >= y.bottom);
        }
    }
}

/// The furthest left the rectangle `x` can stretch: the work area's left
/// edge or the rightmost clip edge that blocks `x`'s rows on its left.
pub open spec fn left_stop(cs: Seq<Rect>, x: Rect, work: Rect) -> i32
    decreases cs.len(),
{
    if cs.len() == 0 {
        work.left
    } else {
        let m = left_stop(cs.drop_last(), x, work);
        let c = cs.last();
        if c.top < x.bottom && c.bottom > x.top && c.right <= x.left && c.right > m {
            c.right
        } else {
            m
        }
    }
}

/// The furthest right the rectangle `x` can stretch.
pub open spec fn right_stop(cs: Seq<Rect>, x: Rect, work: Rect) -> i32
    decreases cs.len(),
{
    if cs.len() == 0 {
        work.right
    } else {
        let m = right_stop(cs.drop_last(), x, work);
        let c = cs.last();
        if c.top < x.bottom && c.bottom > x.top && c.left >= x.right && c.left < m {
            c.left
        } else {
            m
        }
    }
}

proof fn lemma_stops(cs: Seq<Rect>, x: Rect, work: Rect)
    requires
        work.left <= x.left,
        x.right <= work.right,
    ensures
        work.left <= left_stop(cs, x, work) <= x.left,
        x.right <= right_stop(cs, x, work) <= work.right,
        left_stop(cs, x, work) == work.left || exists|k: int|
            0 <= k < cs.len() && left_stop(cs, x, work) == (#[trigger] cs[k]).right,
        right_stop(cs, x, work) == work.right || exists|k: int|
            0 <= k < cs.len() && right_stop(cs, x, work) == (#[trigger] cs[k]).left,
        forall|k: int|
            0 <= k < cs.len() && (#[trigger] cs[k]).top < x.bottom && cs[k].bottom > x.top
                && cs[k].right <= x.left ==> cs[k].right <= left_stop(cs, x, work),
        forall|k: int|
            0 <= k < cs.len() && (#[trigger] cs[k]).top < x.bottom && cs[k].bottom > x.top
                && cs[k].left >= x.right ==> cs[k].left >= right_stop(cs, x, work),
    decreases cs.len(),
{
    if cs.len() > 0 {
        let p = cs.drop_last();
        lemma_stops(p, x, work);
        let n = cs.len() - 1;
        assert(cs[n] == cs.last());
        assert forall|k: int| 0 <= k < p.len() implies #[trigger] p[k] == cs[k] by {}
        assert forall|k: int|
            0 <= k < cs.len() && (#[trigger] cs[k]).top < x.bottom && cs[k].bottom > x.top
                && cs[k].right <= x.left implies cs[k].right <= left_stop(cs, x, work) by {
            if k < n {
                assert(p[k] == cs[k]);
            }
        }
        assert forall|k: int|
            0 <= k < cs.len() && (#[trigger] cs[k]).top < x.bottom && cs[k].bottom > x.top
                && cs[k].left >= x.right implies cs[k].left >= right_stop(cs, x, work) by {
            if k < n {
                assert(p[k] == cs[k]);
            }
        }
        if left_stop(cs, x, work) != work.left && left_stop(cs, x, work) == left_stop(p, x, work) {
            let k0 = choose|k: int| 0 <= k < p.len() && left_stop(p, x, work) == (#[trigger] p[k]).right;
            assert(cs[k0] == p[k0]);
        }
        if right_stop(cs, x, work) != work.right && right_stop(cs, x, work) == right_stop(
            p,
            x,
            work,
        ) {
            let k0 = choose|k: int| 0 <= k < p.len() && right_stop(p, x, work) == (#[trigger] p[k]).left;
            assert(cs[k0] == p[k0]);
        }
    }
}

proof fn lemma_area_grows(a: int, b: int, c: int, d: int)
    requires
        0 <= a <= c,
        0 <= b <= d,
    ensures
        a * b <= c * d,
{
    assert(a * b <= c * d) by (nonlinear_arith)
        requires
            0 <= a <= c,
            0 <= b <= d,
    ;
}

/// Some candidate is at least as large as any rectangle that fits.
proof fn lemma_fill_maximal(cs: Seq<Rect>, work: Rect, current: Rect, x: Rect)
    requires
        fill_possible(work, current),
        clips_ok(cs, current),
        within(x, work),
        encloses(x, current),
        clear_of(x, cs),
    ensures
        exists|i: int, j: int|
            0 <= i < cs.len() + 2 && 0 <= j < cs.len() + 2 && (#[trigger] edge_candidate(
                cs,
                i,
                j,
                work,
                current,
            )) is Some && area_of(x) <= area_of(edge_candidate(cs, i, j, work, current)->0),
{
    lemma_stops(cs, x, work);
    let ls = left_stop(cs, x, work);
    let rs = right_stop(cs, x, work);
    let yy = Rect { left: ls, top: x.top, right: rs, bottom: x.bottom };
    // Stretching `x` sideways to the stops keeps it clear.
    assert forall|k: int| 0 <= k < cs.len() implies !yy.overlaps(#[trigger] cs[k]) by {
        let c = cs[k];
        if yy.overlaps(c) {
            assert(!x.overlaps(c));
        }
    }
    let i = if ls == work.left {
        0
    } else {
        let k = choose|k: int| 0 <= k < cs.len() && ls == (#[trigger] cs[k]).right;
        k + 2
    };
    let j = if rs == work.right {
        0
    } else {
        let k = choose|k: int| 0 <= k < cs.len() && rs == (#[trigger] cs[k]).left;
        k + 2
    };
    assert(left_edge(i, cs, work, current) == ls);
    assert(right_edge(j, cs, work, current) == rs);
    lemma_span_scan(cs, ls, rs, work, current);
    let (blocked, t, b) = span_scan(cs, ls, rs, work, current);
    if blocked {
        let k = choose|k: int|
            0 <= k < cs.len() && crosses_columns(#[trigger] cs[k], ls, rs) && crosses_rows(
                cs[k],
                current,
            );
        assert(yy.overlaps(cs[k]));
    }
    assert(edge_candidate(cs, i, j, work, current) == Some(
        Rect { left: ls, top: t, right: rs, bottom: b },
    ));
    if t != work.top {
        let k = choose|k: int|
            0 <= k < cs.len() && crosses_columns(#[trigger] cs[k], ls, rs) && cs[k].bottom
                <= current.top && t == cs[k].bottom;
        assert(!yy.overlaps(cs[k]));
    }
    if b != work.bottom {
        let k = choose|k: int|
            0 <= k < cs.len() && crosses_columns(#[trigger] cs[k], ls, rs) && cs[k].top
                >= current.bottom && b == cs[k].top;
        assert(!yy.overlaps(cs[k]));
    }
    lemma_area_grows(x.w(), x.h(), rs - ls, b - t);
}

/// The candidate for one pair of edges, computed.
fn span_candidate_exec(cs: &Vec<Rect>, l: i32, r: i32, work: Rect, current: Rect) -> (o: Option<
    Rect,
>)
    ensures
        o == span_candidate(cs@, l, r, work, current),
{
    if !(work.left <= l && l <= current.left && current.right <= r && r <= work.right) {
        return None;
    }
    let mut blocked = false;
    let mut t = work.top;
    let mut b = work.bottom;
    let mut k: usize = 0;
    while k < cs.len()
        invariant
            k <= cs.len(),
            (blocked, t, b) == span_scan(cs@.subrange(0, k as int), l, r, work, current),
        decreases cs.len() - k,
    {
        proof {
            let s = cs@.subrange(0, k as int + 1);
            assert(s.drop_last() =~= cs@.subrange(0, k as int));
            assert(s.last() == cs@[k as int]);
        }
        let c = cs[k];
        if c.left < r && c.right > l {
            if c.top < current.bottom && c.bottom > current.top {
                blocked = true;
            } else if c.bottom <= current.top {
                if c.bottom > t {
                    t = c.bottom;
                }
            } else if c.top < b {
                b = c.top;
            }
        }
        k = k + 1;
    }
    assert(cs@.subrange(0, cs@.len() as int) =~= cs@);
    if blocked {
        None
    } else {
        Some(Rect::new(l, t, r, b))
    }
}

/// The area of a rectangle that is not inverted.
fn area_wide(c: Rect) -> (a: i128)
    requires
        c.left <= c.right,
        c.top <= c.bottom,
    ensures
        a == area_of(c),
{
    let w: i128 = c.right as i128 - c.left as i128;
    let h: i128 = c.bottom as i128 - c.top as i128;
    assert(0 <= w * h <= 0x1_0000_0000 * 0x1_0000_0000) by (nonlinear_arith)
        requires
            0 <= w <= 0x1_0000_0000,
            0 <= h <= 0x1_0000_0000,
    ;
    w * h
}

/// The best rectangle found so far: it fits, and `area` is its area.
pub open spec fn best_ok(best: Rect, area: int, cs: Seq<Rect>, work: Rect, current: Rect) -> bool {
    &&& within(best, work)
    &&& encloses(best, current)
    &&& clear_of(best, cs)
    &&& area == area_of(best)
}

/// Keep the candidate for `l..r` when it is larger than the best so far.
fn consider(
    best: &mut Rect,
    best_area: &mut i128,
    cs: &Vec<Rect>,
    l: i32,
    r: i32,
    work: Rect,
    current: Rect,
)
    requires
        fill_possible(work, current),
        clips_ok(cs@, current),
        best_ok(*old(best), *old(best_area) as int, cs@, work, current),
    ensures
        best_ok(*final(best), *final(best_area) as int, cs@, work, current),
        *old(best_area) <= *final(best_area),
        span_candidate(cs@, l, r, work, current) is Some ==> area_of(
            span_candidate(cs@, l, r, work, current)->0,
        ) <= *final(best_area),
{
    match span_candidate_exec(cs, l, r, work, current) {
        Some(c) => {
            proof {
                lemma_span_candidate_fits(cs@, l, r, work, current);
            }
            let a = area_wide(c);
            if a > *best_area {
                *best = c;
                *best_area = a;
            }
        },
        None => {},
    }
}

/// Every candidate with left edge `l` has been weighed against `area`.
pub open spec fn row_done(
    cs: Seq<Rect>,
    i: int,
    jn: int,
    area: int,
    work: Rect,
    current: Rect,
) -> bool {
    forall|j: int|
        0 <= j < jn && (#[trigger] edge_candidate(cs, i, j, work, current)) is Some ==> area_of(
            edge_candidate(cs, i, j, work, current)->0,
        ) <= area
}

/// Weigh every candidate whose left edge is the `i`-th.
fn consider_left(
    best: &mut Rect,
    best_area: &mut i128,
    cs: &Vec<Rect>,
    l: i32,
    i: Ghost<int>,
    work: Rect,
    current: Rect,
)
    requires
        fill_possible(work, current),
        clips_ok(cs@, current),
        best_ok(*old(best), *old(best_area) as int, cs@, work, current),
        l == left_edge(i@, cs@, work, current),
    ensures
        best_ok(*final(best), *final(best_area) as int, cs@, work, current),
        *old(best_area) <= *final(best_area),
        row_done(cs@, i@, cs@.len() + 2 as int, *final(best_area) as int, work, current),
{
    consider(best, best_area, cs, l, work.right, work, current);
    let ghost a0 = *best_area;
    consider(best, best_area, cs, l, current.right, work, current);
    assert(row_done(cs@, i@, 2, *best_area as int, work, current)) by {
        assert forall|j: int|
            0 <= j < 2 && (#[trigger] edge_candidate(cs@, i@, j, work, current)) is Some implies area_of(
            edge_candidate(cs@, i@, j, work, current)->0,
        ) <= *best_area by {
            assert(right_edge(j, cs@, work, current) == if j == 0 {
                work.right
            } else {
                current.right
            });
        }
    }
    let mut k: usize = 0;
    while k < cs.len()
        invariant
            fill_possible(work, current),
            clips_ok(cs@, current),
            l == left_edge(i@, cs@, work, current),
            k <= cs.len(),
            best_ok(*best, *best_area as int, cs@, work, current),
            *old(best_area) <= *best_area,
            row_done(cs@, i@, k + 2, *best_area as int, work, current),
        decreases cs.len() - k,
    {
        let r = cs[k].left;
        let ghost before = *best_area;
        consider(best, best_area, cs, l, r, work, current);
        assert(right_edge(k + 2, cs@, work, current) == r);
        assert(row_done(cs@, i@, k + 3, *best_area as int, work, current)) by {
            assert forall|j: int|
                0 <= j < k + 3 && (#[trigger] edge_candidate(cs@, i@, j, work, current)) is Some implies area_of(
                edge_candidate(cs@, i@, j, work, current)->0,
            ) <= *best_area by {
                if j < k + 2 {
                    assert(area_of(edge_candidate(cs@, i@, j, work, current)->0) <= before);
                }
            }
        }
        k = k + 1;
    }
}

/// Every candidate with one of the first `n` left edges has been weighed.
pub open spec fn rows_done(cs: Seq<Rect>, n: int, area: int, work: Rect, current: Rect) -> bool {
    forall|i: int, j: int|
        0 <= i < n && 0 <= j < cs.len() + 2 && (#[trigger] edge_candidate(
            cs,
            i,
            j,
            work,
            current,
        )) is Some ==> area_of(edge_candidate(cs, i, j, work, current)->0) <= area
}

proof fn lemma_rows_step(cs: Seq<Rect>, n: int, a0: int, a1: int, work: Rect, current: Rect)
    requires
        rows_done(cs, n, a0, work, current),
        row_done(cs, n, cs.len() + 2 as int, a1, work, current),
        a0 <= a1,
    ensures
        rows_done(cs, n + 1, a1, work, current),
{
    assert forall|i: int, j: int|
        0 <= i < n + 1 && 0 <= j < cs.len() + 2 && (#[trigger] edge_candidate(
            cs,
            i,
            j,
            work,
            current,
        )) is Some implies area_of(edge_candidate(cs, i, j, work, current)->0) <= a1 by {
        if i < n {
            assert(area_of(edge_candidate(cs, i, j, work, current)->0) <= a0);
        }
    }
}

/// Largest obstacle-free rectangle inside the work area around the current
/// frame. Obstacles that overlap the current frame, or whose part inside
/// the work area has no interior, are ignored. Candidate edges come from
/// the work area, the current frame and the obstacles' edges: for every
/// pair of left and right edges the tallest rectangle over those columns
/// is weighed. When the current frame does not lie inside the work area it
/// is returned unchanged.
pub fn fill_available_frame(work: Rect, current: Rect, obstacles: &[Rect]) -> (r: Rect)
    ensures
        fill_result_ok(r, work, current, obstacles@),
{
    if !(work.left <= current.left && current.left <= current.right && current.right <= work.right
        && work.top <= current.top && current.top <= current.bottom && current.bottom
        <= work.bottom) {
        return current;
    }
    let mut relevant: Vec<Rect> = Vec::new();
    let mut n: usize = 0;
    while n < obstacles.len()
        invariant
            n <= obstacles.len(),
            relevant@ == relevant_clips(obstacles@.subrange(0, n as int), work, current),
        decreases obstacles.len() - n,
    {
        let obstacle = obstacles[n];
        proof {
            let s = obstacles@.subrange(0, n as int + 1);
            assert(s.drop_last() =~= obstacles@.subrange(0, n as int));
            assert(s.last() == obstacles@[n as int]);
        }
        if !obstacle.intersects(current) {
            let clipped = obstacle.intersection(work);
            if clipped.left < clipped.right && clipped.top < clipped.bottom {
                relevant.push(clipped);
            }
        }
        n = n + 1;
    }
    assert(obstacles@.subrange(0, obstacles@.len() as int) =~= obstacles@);
    proof {
        lemma_relevant_clips(obstacles@, work, current, current);
    }
    let ghost cs = relevant@;
    let mut best = current;
    let mut best_area = area_wide(current);
    assert(clear_of(current, cs));
    consider_left(&mut best, &mut best_area, &relevant, work.left, Ghost(0), work, current);
    assert(rows_done(cs, 1, best_area as int, work, current)) by {
        lemma_rows_step(cs, 0, best_area as int, best_area as int, work, current);
    }
    let ghost a0 = best_area as int;
    consider_left(&mut best, &mut best_area, &relevant, current.left, Ghost(1), work, current);
    proof {
        lemma_rows_step(cs, 1, a0, best_area as int, work, current);
    }
    let mut k: usize = 0;
    while k < relevant.len()
        invariant
            fill_possible(work, current),
            cs == relevant@,
            clips_ok(cs, current),
            k <= relevant.len(),
            best_ok(best, best_area as int, cs, work, current),
            rows_done(cs, k + 2, best_area as int, work, current),
        decreases relevant.len() - k,
    {
        let l = relevant[k].right;
        let ghost before = best_area as int;
        consider_left(&mut best, &mut best_area, &relevant, l, Ghost(k + 2), work, current);
        proof {
            lemma_rows_step(cs, k + 2, before, best_area as int, work, current);
        }
        k = k + 1;
    }
    proof {
        assert forall|x: Rect| #[trigger]
            fill_fits(x, work, current, obstacles@) implies area_of(x) <= area_of(best) by {
            lemma_relevant_clips(obstacles@, work, current, x);
            lemma_fill_maximal(cs, work, current, x);
            let (i, j) = choose|i: int, j: int|
                0 <= i < cs.len() + 2 && 0 <= j < cs.len() + 2 && (#[trigger] edge_candidate(
                    cs,
                    i,
                    j,
                    work,
                    current,
                )) is Some && area_of(x) <= area_of(edge_candidate(cs, i, j, work, current)->0);
            assert(area_of(edge_candidate(cs, i, j, work, current)->0) <= best_area);
        }
        lemma_relevant_clips(obstacles@, work, current, best);
    }
    best
}

/// Filling never shrinks the window: when the current frame lies inside
/// the work area, the result contains it and is at least as large.
pub proof fn law_fill_contains_current(r: Rect, work: Rect, current: Rect, obs: Seq<Rect>)
    requires
        fill_result_ok(r, work, current, obs),
        fill_possible(work, current),
    ensures
        encloses(r, current),
        area_of(current) <= area_of(r),
{
    assert(fill_fits(current, work, current, obs)) by {
        assert forall|i: int|
            0 <= i < obs.len() && relevant_obstacle(#[trigger] obs[i], work, current) implies !current.overlaps(
            obs[i].meet(work),
        ) by {
            let o = obs[i];
            let c = o.meet(work);
            if current.overlaps(c) {
                assert(current.overlaps(o));
            }
        }
    }
}

/// Actions whose fitted frame stays centered on the requested frame.
pub open spec fn is_centered_action_spec(a: WindowAction) -> bool {
    a == WindowAction::Center || a == WindowAction::AlmostMaximize || a == WindowAction::HorizontalCenterHalf || a == WindowAction::VerticalCenterHalf || a == WindowAction::HorizontalCenterThird || a == WindowAction::VerticalCenterThird || a == WindowAction::Larger || a == WindowAction::Smaller || a == WindowAction::ScaleUp || a == WindowAction::ScaleDown || a == WindowAction::GrowHorizontal || a == WindowAction::GrowVertical || a == WindowAction::ShrinkHorizontal || a == WindowAction::ShrinkVertical
}

fn is_centered_action(action: WindowAction) -> (b: bool)
    ensures
        b == is_centered_action_spec(action),
{
    match action {
        WindowAction::Center
        | WindowAction::AlmostMaximize
        | WindowAction::HorizontalCenterHalf
        | WindowAction::VerticalCenterHalf
        | WindowAction::HorizontalCenterThird
        | WindowAction::VerticalCenterThird
        | WindowAction::Larger
        | WindowAction::Smaller
        | WindowAction::ScaleUp
        | WindowAction::ScaleDown
        | WindowAction::GrowHorizontal
        | WindowAction::GrowVertical
        | WindowAction::ShrinkHorizontal
        | WindowAction::ShrinkVertical => true,
        _ => false,
    }
}

/// Actions whose frame is anchored to the left edge of the bounds.
pub open spec fn touches_left_spec(a: WindowAction) -> bool {
    a == WindowAction::LeftHalf || a == WindowAction::TopHalf || a == WindowAction::BottomHalf || a == WindowAction::TopLeftQuarter || a == WindowAction::BottomLeftQuarter || a == WindowAction::LeftThird || a == WindowAction::LeftTwoThirds || a == WindowAction::FirstFourth || a == WindowAction::LeftThreeFourths || a == WindowAction::TopThird || a == WindowAction::TopTwoThirds || a == WindowAction::BottomTwoThirds || a == WindowAction::BottomThird || a == WindowAction::MaximizeWidth || a == WindowAction::Maximize || a == WindowAction::Fullscreen
}

fn touches_left(action: WindowAction) -> (b: bool)
    ensures
        b == touches_left_spec(action),
{
    match action {
        WindowAction::LeftHalf
        | WindowAction::TopHalf
        | WindowAction::BottomHalf
        | WindowAction::TopLeftQuarter
        | WindowAction::BottomLeftQuarter
        | WindowAction::LeftThird
        | WindowAction::LeftTwoThirds
        | WindowAction::FirstFourth
        | WindowAction::LeftThreeFourths
        | WindowAction::TopThird
        | WindowAction::TopTwoThirds
        | WindowAction::BottomTwoThirds
        | WindowAction::BottomThird
        | WindowAction::MaximizeWidth
        | WindowAction::Maximize
        | WindowAction::Fullscreen => true,
        _ => false,
    }
}

/// Actions whose frame is anchored to the right edge of the bounds.
pub open spec fn touches_right_spec(a: WindowAction) -> bool {
    a == WindowAction::RightHalf || a == WindowAction::TopHalf || a == WindowAction::BottomHalf || a == WindowAction::TopRightQuarter || a == WindowAction::BottomRightQuarter || a == WindowAction::RightThird || a == WindowAction::RightTwoThirds || a == WindowAction::FourthFourth || a == WindowAction::RightThreeFourths || a == WindowAction::TopThird || a == WindowAction::TopTwoThirds || a == WindowAction::BottomTwoThirds || a == WindowAction::BottomThird || a == WindowAction::MaximizeWidth || a == WindowAction::Maximize || a == WindowAction::Fullscreen
}

fn touches_right(action: WindowAction) -> (b: bool)
    ensures
        b == touches_right_spec(action),
{
    match action {
        WindowAction::RightHalf
        | WindowAction::TopHalf
        | WindowAction::BottomHalf
        | WindowAction::TopRightQuarter
        | WindowAction::BottomRightQuarter
        | WindowAction::RightThird
        | WindowAction::RightTwoThirds
        | WindowAction::FourthFourth
        | WindowAction::RightThreeFourths
        | WindowAction::TopThird
        | WindowAction::TopTwoThirds
        | WindowAction::BottomTwoThirds
        | WindowAction::BottomThird
        | WindowAction::MaximizeWidth
        | WindowAction::Maximize
        | WindowAction::Fullscreen => true,
        _ => false,
    }
}

/// Actions whose frame is anchored to the top edge of the bounds.
pub open spec fn touches_top_spec(a: WindowAction) -> bool {
    a == WindowAction::TopHalf || a == WindowAction::TopLeftQuarter || a == WindowAction::TopRightQuarter || a == WindowAction::TopThird || a == WindowAction::TopTwoThirds || a == WindowAction::MaximizeHeight || a == WindowAction::FirstFourth || a == WindowAction::SecondFourth || a == WindowAction::ThirdFourth || a == WindowAction::FourthFourth || a == WindowAction::LeftThreeFourths || a == WindowAction::RightThreeFourths || a == WindowAction::Maximize || a == WindowAction::Fullscreen
}

fn touches_top(action: WindowAction) -> (b: bool)
    ensures
        b == touches_top_spec(action),
{
    match action {
        WindowAction::TopHalf
        | WindowAction::TopLeftQuarter
        | WindowAction::TopRightQuarter
        | WindowAction::TopThird
        | WindowAction::TopTwoThirds
        | WindowAction::MaximizeHeight
        | WindowAction::FirstFourth
        | WindowAction::SecondFourth
        | WindowAction::ThirdFourth
        | WindowAction::FourthFourth
        | WindowAction::LeftThreeFourths
        | WindowAction::RightThreeFourths
        | WindowAction::Maximize
        | WindowAction::Fullscreen => true,
        _ => false,
    }
}

/// Actions whose frame is anchored to the bottom edge of the bounds.
pub open spec fn touches_bottom_spec(a: WindowAction) -> bool {
    a == WindowAction::BottomHalf || a == WindowAction::BottomLeftQuarter || a == WindowAction::BottomRightQuarter || a == WindowAction::BottomThird || a == WindowAction::BottomTwoThirds || a == WindowAction::MaximizeHeight || a == WindowAction::FirstFourth || a == WindowAction::SecondFourth || a == WindowAction::ThirdFourth || a == WindowAction::FourthFourth || a == WindowAction::LeftThreeFourths || a == WindowAction::RightThreeFourths || a == WindowAction::Maximize || a == WindowAction::Fullscreen
}

fn touches_bottom(action: WindowAction) -> (b: bool)
    ensures
        b == touches_bottom_spec(action),
{
    match action {
        WindowAction::BottomHalf
        | WindowAction::BottomLeftQuarter
        | WindowAction::BottomRightQuarter
        | WindowAction::BottomThird
        | WindowAction::BottomTwoThirds
        | WindowAction::MaximizeHeight
        | WindowAction::FirstFourth
        | WindowAction::SecondFourth
        | WindowAction::ThirdFourth
        | WindowAction::FourthFourth
        | WindowAction::LeftThreeFourths
        | WindowAction::RightThreeFourths
        | WindowAction::Maximize
        | WindowAction::Fullscreen => true,
        _ => false,
    }
}

/// Window size limits (from `WM_GETMINMAXINFO`).
#[derive(Debug, Clone, Copy, PartialEq, Eq, Structural)]
pub struct MinMaxLimits {
    pub min_w: i32,
    pub min_h: i32,
    pub max_w: i32,
    pub max_h: i32,
}

/// Fitted width: raised to the minimum, capped by a positive maximum, then
/// capped by the bounds width.
pub open spec fn fit_width(bounds: Rect, frame: Rect, limits: MinMaxLimits) -> int {
    let w0 = max_i(frame.w(), limits.min_w as int);
    let w1 = if limits.max_w > 0 { min_i(w0, limits.max_w as int) } else { w0 };
    min_i(w1, bounds.w())
}

/// Fitted height, as `fit_width` vertically.
pub open spec fn fit_height(bounds: Rect, frame: Rect, limits: MinMaxLimits) -> int {
    let h0 = max_i(frame.h(), limits.min_h as int);
    let h1 = if limits.max_h > 0 { min_i(h0, limits.max_h as int) } else { h0 };
    min_i(h1, bounds.h())
}

/// Left edge of the fitted frame.
pub open spec fn fit_left(bounds: Rect, action: WindowAction, frame: Rect, limits: MinMaxLimits) -> int {
    let width = fit_width(bounds, frame, limits);
    if is_centered_action_spec(action) {
        max_i(bounds.left as int, min_i(frame.left + tdiv(frame.w() - width, 2), bounds.right - width))
    } else if touches_left_spec(action) {
        bounds.left as int
    } else if touches_right_spec(action) {
        bounds.right - width
    } else {
        max_i(bounds.left as int, min_i(frame.left as int, bounds.right - width))
    }
}

/// Top edge of the fitted frame.
pub open spec fn fit_top(bounds: Rect, action: WindowAction, frame: Rect, limits: MinMaxLimits) -> int {
    let height = fit_height(bounds, frame, limits);
    if is_centered_action_spec(action) {
        max_i(bounds.top as int, min_i(frame.top + tdiv(frame.h() - height, 2), bounds.bottom - height))
    } else if touches_top_spec(action) {
        bounds.top as int
    } else if touches_bottom_spec(action) {
        bounds.bottom - height
    } else {
        max_i(bounds.top as int, min_i(frame.top as int, bounds.bottom - height))
    }
}

/// The fitted frame.
pub open spec fn fit_of(bounds: Rect, action: WindowAction, frame: Rect, limits: MinMaxLimits) -> Rect {
    let l = fit_left(bounds, action, frame, limits);
    let t = fit_top(bounds, action, frame, limits);
    Rect {
        left: l as i32,
        top: t as i32,
        right: (l + fit_width(bounds, frame, limits)) as i32,
        bottom: (t + fit_height(bounds, frame, limits)) as i32,
    }
}

/// Whether `fit_frame` evaluates without overflow.
pub open spec fn fit_defined(bounds: Rect, action: WindowAction, frame: Rect, limits: MinMaxLimits) -> bool {
    let width = fit_width(bounds, frame, limits);
    let height = fit_height(bounds, frame, limits);
    &&& fits_i32(frame.w())
    &&& fits_i32(frame.h())
    &&& fits_i32(bounds.w())
    &&& fits_i32(bounds.h())
    &&& fits_i32(bounds.right - width)
    &&& fits_i32(bounds.bottom - height)
    &&& is_centered_action_spec(action) ==> {
        &&& fits_i32(frame.w() - width)
        &&& fits_i32(frame.h() - height)
        &&& fits_i32(frame.left + tdiv(frame.w() - width, 2))
        &&& fits_i32(frame.top + tdiv(frame.h() - height, 2))
    }
    &&& fits_i32(fit_left(bounds, action, frame, limits) + width)
    &&& fits_i32(fit_top(bounds, action, frame, limits) + height)
}

/// Clamp a frame to its limits and keep the expected edge anchored.
pub fn fit_frame(bounds: Rect, action: WindowAction, frame: Rect, limits: MinMaxLimits) -> (r: Rect)
    requires
        fit_defined(bounds, action, frame, limits),
    ensures
        r == fit_of(bounds, action, frame, limits),
{
    let fw = frame.width();
    let fh = frame.height();
    let mut width = if fw >= limits.min_w { fw } else { limits.min_w };
    let mut height = if fh >= limits.min_h { fh } else { limits.min_h };
    if limits.max_w > 0 {
        width = if width <= limits.max_w { width } else { limits.max_w };
    }
    if limits.max_h > 0 {
        height = if height <= limits.max_h { height } else { limits.max_h };
    }
    let bw = bounds.width();
    let bh = bounds.height();
    width = if width <= bw { width } else { bw };
    height = if height <= bh { height } else { bh };

    if is_centered_action(action) {
        let center_left = frame.left + (fw - width) / 2;
        let center_top = frame.top + (fh - height) / 2;
        let lim_x = bounds.right - width;
        let lim_y = bounds.bottom - height;
        let in_x = if center_left <= lim_x { center_left } else { lim_x };
        let in_y = if center_top <= lim_y { center_top } else { lim_y };
        let left = if bounds.left >= in_x { bounds.left } else { in_x };
        let top = if bounds.top >= in_y { bounds.top } else { in_y };
        return Rect::new(left, top, left + width, top + height);
    }

    let lim_x = bounds.right - width;
    let lim_y = bounds.bottom - height;
    let in_x = if frame.left <= lim_x { frame.left } else { lim_x };
    let in_y = if frame.top <= lim_y { frame.top } else { lim_y };
    let mut left = if bounds.left >= in_x { bounds.left } else { in_x };
    let mut top = if bounds.top >= in_y { bounds.top } else { in_y };
    if touches_right(action) {
        left = bounds.right - width;
    }
    if touches_bottom(action) {
        top = bounds.bottom - height;
    }
    if touches_left(action) {
        left = bounds.left;
    }
    if touches_top(action) {
        top = bounds.top;
    }
    Rect::new(left, top, left + width, top + height)
}

/// Fitting respects the bounds and limits: the fitted size never exceeds
/// the bounds, a positive maximum, and is at least the minimum when the
/// bounds allow it; an action anchored to exactly one horizontal (vertical)
/// edge puts the frame on that edge.
pub proof fn law_fit_respects_bounds(bounds: Rect, action: WindowAction, frame: Rect, limits: MinMaxLimits)
    requires
        fit_defined(bounds, action, frame, limits),
    ensures
        ({
            let r = fit_of(bounds, action, frame, limits);
            &&& r.w() == fit_width(bounds, frame, limits) <= bounds.w()
            &&& r.h() == fit_height(bounds, frame, limits) <= bounds.h()
            &&& limits.max_w > 0 ==> r.w() <= limits.max_w
            &&& limits.max_h > 0 ==> r.h() <= limits.max_h
            &&& (limits.max_w <= 0 || limits.min_w <= limits.max_w) && limits.min_w <= bounds.w()
                ==> r.w() >= limits.min_w
            &&& (limits.max_h <= 0 || limits.min_h <= limits.max_h) && limits.min_h <= bounds.h()
                ==> r.h() >= limits.min_h
            &&& touches_right_spec(action) && !touches_left_spec(action) ==> r.right
                == bounds.right
            &&& touches_left_spec(action) ==> r.left == bounds.left
            &&& touches_bottom_spec(action) && !touches_top_spec(action) ==> r.bottom
                == bounds.bottom
            &&& touches_top_spec(action) ==> r.top == bounds.top
        }),
{
    let l = fit_left(bounds, action, frame, limits);
    let t = fit_top(bounds, action, frame, limits);
    assert(is_centered_action_spec(action) ==> !touches_left_spec(action) && !touches_right_spec(
        action,
    ) && !touches_top_spec(action) && !touches_bottom_spec(action));
}

/// For a bounds area with non-negative size, every fitted frame lies inside
/// it.
pub proof fn law_fit_within_bounds(bounds: Rect, action: WindowAction, frame: Rect, limits: MinMaxLimits)
    requires
        fit_defined(bounds, action, frame, limits),
        0 <= fit_width(bounds, frame, limits),
        0 <= fit_height(bounds, frame, limits),
    ensures
        within(fit_of(bounds, action, frame, limits), bounds),
{
    assert(is_centered_action_spec(action) ==> !touches_left_spec(action) && !touches_right_spec(
        action,
    ) && !touches_top_spec(action) && !touches_bottom_spec(action));
}


/// Whether an action resizes around the frame center.
pub open spec fn is_resize(a: WindowAction) -> bool {
    a == WindowAction::Larger || a == WindowAction::Smaller || a == WindowAction::ScaleUp || a
        == WindowAction::ScaleDown
}

/// The proportional step `max(32, d / 10)` used by Larger/Smaller: a tenth
/// of the dimension, but never less than 32 pixels.
pub open spec fn resize_step(d: int) -> int {
    max_i(tdiv(d, 10), 32)
}

/// Width before the `step` floor, for the resize actions.
pub open spec fn resized_width(action: WindowAction, w: int, scaled: int) -> int {
    if action == WindowAction::ScaleUp || action == WindowAction::ScaleDown {
        scaled
    } else if action == WindowAction::Larger {
        w + resize_step(w)
    } else {
        w - resize_step(w)
    }
}

/// The frame a resize, grow, shrink or move action produces from `current`.
/// `step` is the DPI-scaled step in pixels; `scaled_width` and
/// `scaled_height` are the current size times the ScaleUp/ScaleDown factor.
pub open spec fn manipulated_of(
    action: WindowAction,
    current: Rect,
    step: i32,
    scaled_width: i32,
    scaled_height: i32,
) -> Rect {
    let (l, t, r, b) = (
        current.left as int,
        current.top as int,
        current.right as int,
        current.bottom as int,
    );
    let w = current.w();
    let h = current.h();
    let s = step as int;
    let cx = l + tdiv(w, 2);
    let cy = t + tdiv(h, 2);
    let (ml, mt, mr, mb): (int, int, int, int) = if is_resize(action) {
        let width = max_i(resized_width(action, w, scaled_width as int), s);
        let height = max_i(resized_width(action, h, scaled_height as int), s);
        (cx - tdiv(width, 2), cy - tdiv(height, 2), cx - tdiv(width, 2) + width, cy - tdiv(height, 2)
            + height)
    } else {
        match action {
            WindowAction::GrowLeft => (l - s, t, r, b),
            WindowAction::GrowRight => (l, t, r + s, b),
            WindowAction::GrowTop => (l, t - s, r, b),
            WindowAction::GrowBottom => (l, t, r, b + s),
            WindowAction::GrowHorizontal => (l - s, t, r + s, b),
            WindowAction::GrowVertical => (l, t - s, r, b + s),
            WindowAction::ShrinkLeft => (min_i(r - 1, l + s), t, r, b),
            WindowAction::ShrinkRight => (l, t, max_i(l + 1, r - s), b),
            WindowAction::ShrinkTop => (l, min_i(b - 1, t + s), r, b),
            WindowAction::ShrinkBottom => (l, t, r, max_i(t + 1, b - s)),
            WindowAction::ShrinkHorizontal => {
                let nw = max_i(w - 2 * s, 1);
                (cx - tdiv(nw, 2), t, cx - tdiv(nw, 2) + nw, b)
            },
            WindowAction::ShrinkVertical => {
                let nh = max_i(h - 2 * s, 1);
                (l, cy - tdiv(nh, 2), r, cy - tdiv(nh, 2) + nh)
            },
            WindowAction::MoveLeft => (l - s, t, r - s, b),
            WindowAction::MoveRight => (l + s, t, r + s, b),
            WindowAction::MoveUp => (l, t - s, r, b - s),
            WindowAction::MoveDown => (l, t + s, r, b + s),
            _ => (l, t, r, b),
        }
    };
    Rect { left: ml as i32, top: mt as i32, right: mr as i32, bottom: mb as i32 }
}

/// Whether `manipulate_frame_by` evaluates without overflow.
pub open spec fn manipulate_defined(
    action: WindowAction,
    current: Rect,
    step: i32,
    scaled_width: i32,
    scaled_height: i32,
) -> bool {
    let (l, t, r, b) = (
        current.left as int,
        current.top as int,
        current.right as int,
        current.bottom as int,
    );
    let w = current.w();
    let h = current.h();
    let s = step as int;
    let cx = l + tdiv(w, 2);
    let cy = t + tdiv(h, 2);
    &&& fits_i32(w)
    &&& fits_i32(h)
    &&& is_resize(action) ==> {
        let width = max_i(resized_width(action, w, scaled_width as int), s);
        let height = max_i(resized_width(action, h, scaled_height as int), s);
        &&& fits_i32(resized_width(action, w, scaled_width as int))
        &&& fits_i32(resized_width(action, h, scaled_height as int))
        &&& fits_i32(cx - tdiv(width, 2))
        &&& fits_i32(cy - tdiv(height, 2))
        &&& fits_i32(cx - tdiv(width, 2) + width)
        &&& fits_i32(cy - tdiv(height, 2) + height)
    }
    &&& (action == WindowAction::GrowLeft || action == WindowAction::GrowHorizontal
        || action == WindowAction::MoveLeft) ==> fits_i32(l - s)
    &&& (action == WindowAction::GrowRight || action == WindowAction::GrowHorizontal
        || action == WindowAction::MoveRight) ==> fits_i32(r + s)
    &&& (action == WindowAction::GrowTop || action == WindowAction::GrowVertical
        || action == WindowAction::MoveUp) ==> fits_i32(t - s)
    &&& (action == WindowAction::GrowBottom || action == WindowAction::GrowVertical
        || action == WindowAction::MoveDown) ==> fits_i32(b + s)
    &&& action == WindowAction::MoveLeft ==> fits_i32(r - s)
    &&& action == WindowAction::MoveRight ==> fits_i32(l + s)
    &&& action == WindowAction::MoveUp ==> fits_i32(b - s)
    &&& action == WindowAction::MoveDown ==> fits_i32(t + s)
    &&& action == WindowAction::ShrinkLeft ==> fits_i32(r - 1) && fits_i32(l + s)
    &&& action == WindowAction::ShrinkRight ==> fits_i32(l + 1) && fits_i32(r - s)
    &&& action == WindowAction::ShrinkTop ==> fits_i32(b - 1) && fits_i32(t + s)
    &&& action == WindowAction::ShrinkBottom ==> fits_i32(t + 1) && fits_i32(b - s)
    &&& action == WindowAction::ShrinkHorizontal ==> {
        let nw = max_i(w - 2 * s, 1);
        &&& fits_i32(2 * s)
        &&& fits_i32(w - 2 * s)
        &&& fits_i32(cx - tdiv(nw, 2))
        &&& fits_i32(cx - tdiv(nw, 2) + nw)
    }
    &&& action == WindowAction::ShrinkVertical ==> {
        let nh = max_i(h - 2 * s, 1);
        &&& fits_i32(2 * s)
        &&& fits_i32(h - 2 * s)
        &&& fits_i32(cy - tdiv(nh, 2))
        &&& fits_i32(cy - tdiv(nh, 2) + nh)
    }
}

fn resize_dim(action: WindowAction, d: i32, scaled: i32, step: i32) -> (r: i32)
    requires
        is_resize(action),
        fits_i32(resized_width(action, d as int, scaled as int)),
    ensures
        r == max_i(resized_width(action, d as int, scaled as int), step as int),
{
    let q = d / 10;
    let step_d = if q >= 32 { q } else { 32 };
    let v = match action {
        WindowAction::ScaleUp | WindowAction::ScaleDown => scaled,
        WindowAction::Larger => d + step_d,
        _ => d - step_d,
    };
    if v >= step { v } else { step }
}

/// Grow/shrink/nudge the current frame by whole pixels: `step` is the
/// DPI-scaled 48px step; `scaled_width` and `scaled_height` are the current
/// size times the ScaleUp (1.1) or ScaleDown (0.9) factor, rounded.
pub fn manipulate_frame_by(
    work: Rect,
    action: WindowAction,
    current: Rect,
    step: i32,
    scaled_width: i32,
    scaled_height: i32,
) -> (r: Rect)
    requires
        manipulate_defined(action, current, step, scaled_width, scaled_height),
    ensures
        r == manipulated_of(action, current, step, scaled_width, scaled_height),
{
    let width = current.width();
    let height = current.height();
    proof {
        lemma_tdiv_between(current.left as int, width as int, 1, 2);
        lemma_tdiv_between(current.top as int, height as int, 1, 2);
    }
    match action {
        WindowAction::Larger | WindowAction::Smaller | WindowAction::ScaleUp
        | WindowAction::ScaleDown => {
            let w = resize_dim(action, width, scaled_width, step);
            let h = resize_dim(action, height, scaled_height, step);
            let cx = current.left + width / 2;
            let cy = current.top + height / 2;
            Rect::new(cx - w / 2, cy - h / 2, cx - w / 2 + w, cy - h / 2 + h)
        },
        WindowAction::GrowLeft => Rect::new(
            current.left - step,
            current.top,
            current.right,
            current.bottom,
        ),
        WindowAction::GrowRight => Rect::new(
            current.left,
            current.top,
            current.right + step,
            current.bottom,
        ),
        WindowAction::GrowTop => Rect::new(
            current.left,
            current.top - step,
            current.right,
            current.bottom,
        ),
        WindowAction::GrowBottom => Rect::new(
            current.left,
            current.top,
            current.right,
            current.bottom + step,
        ),
        WindowAction::GrowHorizontal => Rect::new(
            current.left - step,
            current.top,
            current.right + step,
            current.bottom,
        ),
        WindowAction::GrowVertical => Rect::new(
            current.left,
            current.top - step,
            current.right,
            current.bottom + step,
        ),
        WindowAction::ShrinkLeft => {
            let a = current.right - 1;
            let b = current.left + step;
            Rect::new(if a <= b { a } else { b }, current.top, current.right, current.bottom)
        },
        WindowAction::ShrinkRight => {
            let a = current.left + 1;
            let b = current.right - step;
            Rect::new(current.left, current.top, if a >= b { a } else { b }, current.bottom)
        },
        WindowAction::ShrinkTop => {
            let a = current.bottom - 1;
            let b = current.top + step;
            Rect::new(current.left, if a <= b { a } else { b }, current.right, current.bottom)
        },
        WindowAction::ShrinkBottom => {
            let a = current.top + 1;
            let b = current.bottom - step;
            Rect::new(current.left, current.top, current.right, if a >= b { a } else { b })
        },
        WindowAction::ShrinkHorizontal => {
            let reduced = width - 2 * step;
            let new_width = if reduced >= 1 { reduced } else { 1 };
            let cx = current.left + width / 2;
            Rect::new(cx - new_width / 2, current.top, cx - new_width / 2 + new_width, current.bottom)
        },
        WindowAction::ShrinkVertical => {
            let reduced = height - 2 * step;
            let new_height = if reduced >= 1 { reduced } else { 1 };
            let cy = current.top + height / 2;
            Rect::new(
                current.left,
                cy - new_height / 2,
                current.right,
                cy - new_height / 2 + new_height,
            )
        },
        WindowAction::MoveLeft => Rect::new(
            current.left - step,
            current.top,
            current.right - step,
            current.bottom,
        ),
        WindowAction::MoveRight => Rect::new(
            current.left + step,
            current.top,
            current.right + step,
            current.bottom,
        ),
        WindowAction::MoveUp => Rect::new(
            current.left,
            current.top - step,
            current.right,
            current.bottom - step,
        ),
        WindowAction::MoveDown => Rect::new(
            current.left,
            current.top + step,
            current.right,
            current.bottom + step,
        ),
        _ => current,
    }
}

/// Moves keep the size and shift by exactly one step; grows widen by the
/// step on the named sides; shrinks never invert the frame: a shrunk edge
/// stops one pixel short of the opposite edge.
pub proof fn law_nudges(current: Rect, step: i32, sw: i32, sh: i32)
    requires
        step >= 0,
        current.w() >= 1,
        current.h() >= 1,
        forall|a: WindowAction| manipulate_defined(a, current, step, sw, sh),
    ensures
        ({
            let ml = manipulated_of(WindowAction::MoveLeft, current, step, sw, sh);
            let mr = manipulated_of(WindowAction::MoveRight, current, step, sw, sh);
            let mu = manipulated_of(WindowAction::MoveUp, current, step, sw, sh);
            let md = manipulated_of(WindowAction::MoveDown, current, step, sw, sh);
            &&& ml.w() == current.w() && ml.h() == current.h() && ml.left == current.left - step
            &&& mr.w() == current.w() && mr.h() == current.h() && mr.left == current.left + step
            &&& mu.w() == current.w() && mu.h() == current.h() && mu.top == current.top - step
            &&& md.w() == current.w() && md.h() == current.h() && md.top == current.top + step
        }),
        manipulated_of(WindowAction::GrowHorizontal, current, step, sw, sh).w() == current.w() + 2
            * step,
        manipulated_of(WindowAction::GrowVertical, current, step, sw, sh).h() == current.h() + 2
            * step,
        manipulated_of(WindowAction::ShrinkLeft, current, step, sw, sh).w() >= 1,
        manipulated_of(WindowAction::ShrinkRight, current, step, sw, sh).w() >= 1,
        manipulated_of(WindowAction::ShrinkTop, current, step, sw, sh).h() >= 1,
        manipulated_of(WindowAction::ShrinkBottom, current, step, sw, sh).h() >= 1,
        manipulated_of(WindowAction::ShrinkHorizontal, current, step, sw, sh).w() >= 1,
        manipulated_of(WindowAction::ShrinkVertical, current, step, sw, sh).h() >= 1,
{
    assert(manipulate_defined(WindowAction::MoveLeft, current, step, sw, sh));
    assert(manipulate_defined(WindowAction::MoveRight, current, step, sw, sh));
    assert(manipulate_defined(WindowAction::MoveUp, current, step, sw, sh));
    assert(manipulate_defined(WindowAction::MoveDown, current, step, sw, sh));
    assert(manipulate_defined(WindowAction::GrowHorizontal, current, step, sw, sh));
    assert(manipulate_defined(WindowAction::GrowVertical, current, step, sw, sh));
    assert(manipulate_defined(WindowAction::ShrinkLeft, current, step, sw, sh));
    assert(manipulate_defined(WindowAction::ShrinkRight, current, step, sw, sh));
    assert(manipulate_defined(WindowAction::ShrinkTop, current, step, sw, sh));
    assert(manipulate_defined(WindowAction::ShrinkBottom, current, step, sw, sh));
    assert(manipulate_defined(WindowAction::ShrinkHorizontal, current, step, sw, sh));
    assert(manipulate_defined(WindowAction::ShrinkVertical, current, step, sw, sh));
}

} // verus!
