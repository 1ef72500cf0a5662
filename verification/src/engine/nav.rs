//! Focus navigation math: nearest window by direction, next in z-order.
//! Perpendicular distance dominates; primary distance breaks ties.

use vstd::prelude::*;
use super::frame_math::tdiv;
use super::rect::{Rect, fits_i32};

verus! {

/// Cardinal focus direction.
#[derive(Debug, Clone, Copy, PartialEq, Eq, Structural)]
pub enum NavDir {
    Left,
    Right,
    Up,
    Down,
}

/// Center point of a rectangle (truncating halves).
pub open spec fn center_of(r: Rect) -> (int, int) {
    (r.left + tdiv(r.w(), 2), r.top + tdiv(r.h(), 2))
}

/// The candidate center lies strictly in `dir` of the source center.
pub open spec fn in_dir(s: (int, int), c: (int, int), dir: NavDir) -> bool {
    match dir {
        NavDir::Left => c.0 < s.0,
        NavDir::Right => c.0 > s.0,
        NavDir::Up => c.1 < s.1,
        NavDir::Down => c.1 > s.1,
    }
}

/// Zero when the intervals `[a0, a1]` and `[b0, b1]` overlap, else the gap.
pub open spec fn gap(a0: int, a1: int, b0: int, b1: int) -> int {
    if a1 >= b0 && b1 >= a0 {
        0
    } else if b0 > a1 {
        b0 - a1
    } else {
        a0 - b1
    }
}

/// The largest of three integers.
pub open spec fn max3(a: int, b: int, c: int) -> int {
    if a >= b && a >= c {
        a
    } else if b >= c {
        b
    } else {
        c
    }
}

pub open spec fn abs_i(x: int) -> int {
    if x < 0 {
        -x
    } else {
        x
    }
}

/// Ranking key of a candidate: (perpendicular gap, primary distance).
pub open spec fn nav_key(source: Rect, frame: Rect, dir: NavDir) -> (int, int) {
    let s = center_of(source);
    let c = center_of(frame);
    match dir {
        NavDir::Left | NavDir::Right => (
            gap(source.top as int, source.bottom as int, frame.top as int, frame.bottom as int),
            abs_i(s.0 - c.0),
        ),
        NavDir::Up | NavDir::Down => (
            gap(source.left as int, source.right as int, frame.left as int, frame.right as int),
            abs_i(s.1 - c.1),
        ),
    }
}

/// Lexicographic order on ranking keys.
pub open spec fn key_lt(a: (int, int), b: (int, int)) -> bool {
    a.0 < b.0 || (a.0 == b.0 && a.1 < b.1)
}

/// Candidate `i` lies in the requested direction.
pub open spec fn nav_eligible(source: Rect, cands: Seq<(u64, Rect)>, i: int, dir: NavDir) -> bool {
    in_dir(center_of(source), center_of(cands[i].1), dir)
}

/// Whether `find_directional` evaluates without overflow.
pub open spec fn nav_defined(source: Rect, cands: Seq<(u64, Rect)>, dir: NavDir) -> bool {
    &&& fits_i32(source.w())
    &&& fits_i32(source.h())
    &&& forall|i: int|
        0 <= i < cands.len() ==> fits_i32((#[trigger] cands[i]).1.w()) && fits_i32(cands[i].1.h())
    &&& forall|i: int|
        0 <= i < cands.len() && #[trigger] nav_eligible(source, cands, i, dir) ==> {
            let k = nav_key(source, cands[i].1, dir);
            let s = center_of(source);
            let c = center_of(cands[i].1);
            &&& fits_i32(k.0)
            &&& fits_i32(s.0 - c.0) && fits_i32(s.1 - c.1)
            &&& fits_i32(k.1)
        }
}

/// The winner: an eligible candidate whose key no eligible candidate beats,
/// and which strictly beats every earlier eligible candidate (ties keep the
/// first in z-order).
pub open spec fn nav_winner(source: Rect, cands: Seq<(u64, Rect)>, dir: NavDir, i: int) -> bool {
    &&& 0 <= i < cands.len()
    &&& nav_eligible(source, cands, i, dir)
    &&& forall|j: int|
        0 <= j < cands.len() && #[trigger] nav_eligible(source, cands, j, dir) ==> !key_lt(
            nav_key(source, cands[j].1, dir),
            nav_key(source, cands[i].1, dir),
        )
    &&& forall|j: int|
        0 <= j < i && #[trigger] nav_eligible(source, cands, j, dir) ==> key_lt(
            nav_key(source, cands[i].1, dir),
            nav_key(source, cands[j].1, dir),
        )
}

fn center(rect: Rect) -> (c: (i32, i32))
    requires
        fits_i32(rect.w()),
        fits_i32(rect.h()),
    ensures
        c.0 == center_of(rect).0,
        c.1 == center_of(rect).1,
{
    let w = rect.width();
    let h = rect.height();
    assert(fits_i32(rect.left + tdiv(w as int, 2))) by {
        if w >= 0 {
            assert(0 <= tdiv(w as int, 2) <= w);
        } else {
            assert(w <= tdiv(w as int, 2) <= 0);
        }
    }
    assert(fits_i32(rect.top + tdiv(h as int, 2))) by {
        if h >= 0 {
            assert(0 <= tdiv(h as int, 2) <= h);
        } else {
            assert(h <= tdiv(h as int, 2) <= 0);
        }
    }
    (rect.left + w / 2, rect.top + h / 2)
}

fn in_direction(source: (i32, i32), candidate: (i32, i32), dir: NavDir) -> (b: bool)
    ensures
        b == in_dir((source.0 as int, source.1 as int), (candidate.0 as int, candidate.1 as int), dir),
{
    match dir {
        NavDir::Left => candidate.0 < source.0,
        NavDir::Right => candidate.0 > source.0,
        NavDir::Up => candidate.1 < source.1,
        NavDir::Down => candidate.1 > source.1,
    }
}

fn interval_gap(a0: i32, a1: i32, b0: i32, b1: i32) -> (g: i32)
    requires
        fits_i32(gap(a0 as int, a1 as int, b0 as int, b1 as int)),
    ensures
        g == gap(a0 as int, a1 as int, b0 as int, b1 as int),
{
    if a1 >= b0 && b1 >= a0 {
        0
    } else if b0 > a1 {
        b0 - a1
    } else {
        a0 - b1
    }
}

fn abs_diff(a: i32, b: i32) -> (d: i32)
    requires
        fits_i32(a - b),
        fits_i32(abs_i(a - b)),
    ensures
        d == abs_i(a - b),
{
    let x = a - b;
    if x < 0 {
        -x
    } else {
        x
    }
}

/// Nearest candidate strictly in `dir` of `source` (centers compared).
/// Candidates are `(id, frame)` in z-order; returns the winning id.
pub fn find_directional(source: Rect, candidates: &[(u64, Rect)], dir: NavDir) -> (r: Option<u64>)
    requires
        nav_defined(source, candidates@, dir),
    ensures
        match r {
            Some(id) => exists|i: int|
                nav_winner(source, candidates@, dir, i) && #[trigger] candidates@[i].0 == id,
            None => forall|i: int|
                0 <= i < candidates@.len() ==> !#[trigger] nav_eligible(
                    source,
                    candidates@,
                    i,
                    dir,
                ),
        },
{
    let (scx, scy) = center(source);
    let mut best: Option<(u64, i32, i32)> = None;
    let ghost mut best_i: int = -1;
    let mut n: usize = 0;
    while n < candidates.len()
        invariant
            n <= candidates.len(),
            nav_defined(source, candidates@, dir),
            scx == center_of(source).0,
            scy == center_of(source).1,
            -1 <= best_i < n,
            best is None <==> best_i == -1,
            best_i == -1 ==> forall|j: int|
                0 <= j < n ==> !#[trigger] nav_eligible(source, candidates@, j, dir),
            best_i >= 0 ==> {
                let b = best->0;
                &&& nav_eligible(source, candidates@, best_i, dir)
                &&& b.0 == candidates@[best_i].0
                &&& (b.1 as int, b.2 as int) == nav_key(source, candidates@[best_i].1, dir)
                &&& forall|j: int|
                    0 <= j < n && #[trigger] nav_eligible(source, candidates@, j, dir) ==> !key_lt(
                        nav_key(source, candidates@[j].1, dir),
                        nav_key(source, candidates@[best_i].1, dir),
                    )
                &&& forall|j: int|
                    0 <= j < best_i && #[trigger] nav_eligible(source, candidates@, j, dir)
                        ==> key_lt(
                        nav_key(source, candidates@[best_i].1, dir),
                        nav_key(source, candidates@[j].1, dir),
                    )
            },
        decreases candidates.len() - n,
    {
        let (id, frame) = candidates[n];
        assert(fits_i32(candidates@[n as int].1.w()) && fits_i32(candidates@[n as int].1.h()));
        let (ccx, ccy) = center(frame);
        if !in_direction((scx, scy), (ccx, ccy), dir) {
            assert(!nav_eligible(source, candidates@, n as int, dir));
            n = n + 1;
            continue;
        }
        assert(nav_eligible(source, candidates@, n as int, dir));
        let (perp, primary) = match dir {
            NavDir::Left | NavDir::Right => (
                interval_gap(source.top, source.bottom, frame.top, frame.bottom),
                abs_diff(scx, ccx),
            ),
            NavDir::Up | NavDir::Down => (
                interval_gap(source.left, source.right, frame.left, frame.right),
                abs_diff(scy, ccy),
            ),
        };
        assert((perp as int, primary as int) == nav_key(source, candidates@[n as int].1, dir));
        let take = match best {
            None => true,
            Some((_, bq, bp)) => perp < bq || (perp == bq && primary < bp),
        };
        if take {
            best = Some((id, perp, primary));
            proof {
                best_i = n as int;
            }
        }
        n = n + 1;
    }
    match best {
        Some((id, _, _)) => {
            assert(nav_winner(source, candidates@, dir, best_i));
            Some(id)
        },
        None => None,
    }
}

/// Where `current` first occurs in the list.
pub open spec fn first_index(cands: Seq<u64>, current: u64) -> Option<int> {
    if exists|i: int| 0 <= i < cands.len() && cands[i] == current {
        Some(choose|i: int| 0 <= i < cands.len() && cands[i] == current && forall|j: int| 0 <= j < i ==> cands[j] != current)
    } else {
        None
    }
}

/// Where the wrap-around scan for the next window starts.
#[verifier::opaque]
pub open spec fn stack_start(cands: Seq<u64>, current: u64) -> int {
    match first_index(cands, current) {
        None => 0,
        Some(i) => (i + 1) % (cands.len() as int),
    }
}

/// The next window after `current` in z-order, wrapping around: the first
/// entry other than `current` scanning from just after its first occurrence
/// (from the top when absent).
pub open spec fn next_in_stack_ok(cands: Seq<u64>, current: u64, r: Option<u64>) -> bool {
    let n = cands.len() as int;
    let st = stack_start(cands, current);
    match r {
        None => forall|i: int| 0 <= i < n ==> #[trigger] cands[i] == current,
        Some(id) => exists|off: int|
            {
                &&& 0 <= off < n
                &&& id == #[trigger] cands[(st + off) % n]
                &&& id != current
                &&& forall|o: int| 0 <= o < off ==> #[trigger] cands[(st + o) % n] == current
            },
    }
}

proof fn lemma_wrap_index(start: int, off: int, n: int)
    requires
        0 <= start < n,
        0 <= off < n,
    ensures
        (start + off) % n == (if off < n - start { start + off } else { off - (n - start) }),
{
    if off < n - start {
        vstd::arithmetic::div_mod::lemma_small_mod((start + off) as nat, n as nat);
    } else {
        let b = off - (n - start);
        vstd::arithmetic::div_mod::lemma_mod_add_multiples_vanish(b, n);
        vstd::arithmetic::div_mod::lemma_small_mod(b as nat, n as nat);
        assert(start + off == n + b);
    }
}

/// Next window in z-order after `current`, wrapping around.
pub fn find_next_in_stack(candidates: &[u64], current: u64) -> (r: Option<u64>)
    ensures
        next_in_stack_ok(candidates@, current, r),
{
    let n = candidates.len();
    if n == 0 {
        return None;
    }
    let mut index: Option<usize> = None;
    let mut i: usize = 0;
    while i < n
        invariant
            n == candidates@.len(),
            i <= n,
            index is None ==> forall|j: int| 0 <= j < i ==> candidates@[j] != current,
            index matches Some(k) ==> k < n && candidates@[k as int] == current && forall|j: int|
                0 <= j < k ==> candidates@[j] != current,
        decreases n - i,
    {
        if index.is_none() && candidates[i] == current {
            index = Some(i);
        }
        i = i + 1;
    }
    let start: usize = match index {
        None => 0,
        Some(k) => (k + 1) % n,
    };
    proof {
        match index {
            None => {
                assert(first_index(candidates@, current) is None);
            },
            Some(k) => {
                let w = choose|i: int|
                    0 <= i < candidates@.len() && candidates@[i] == current && forall|j: int|
                        0 <= j < i ==> candidates@[j] != current;
                assert(0 <= k < candidates@.len() && candidates@[k as int] == current);
                assert(w == k);
            },
        }
        reveal(stack_start);
        assert(start == stack_start(candidates@, current));
    }
    let mut offset: usize = 0;
    while offset < n
        invariant
            n == candidates@.len(),
            n > 0,
            start < n,
            start == stack_start(candidates@, current),
            offset <= n,
            forall|o: int| 0 <= o < offset ==> #[trigger] candidates@[(start + o) % (n as int)] == current,
        decreases n - offset,
    {
        let idx = if offset < n - start { start + offset } else { offset - (n - start) };
        proof {
            lemma_wrap_index(start as int, offset as int, n as int);
        }
        let id = candidates[idx];
        if id != current {
            assert(id == candidates@[(start + offset) % (n as int)]);
            return Some(id);
        }
        offset = offset + 1;
    }
    proof {
        assert forall|i: int| 0 <= i < n implies #[trigger] candidates@[i] == current by {
            let o = if i >= start { i - start } else { i + n - start };
            assert(0 <= o < n);
            lemma_wrap_index(start as int, o, n as int);
            assert(candidates@[(start + o) % (n as int)] == current);
        }
    }
    None
}

/// Stack navigation never returns the current window, and what it returns
/// is one of the candidates.
pub proof fn law_next_in_stack_is_other(cands: Seq<u64>, current: u64, r: Option<u64>)
    requires
        next_in_stack_ok(cands, current, r),
    ensures
        r matches Some(id) ==> id != current && cands.contains(id),
{
    if let Some(id) = r {
        let n = cands.len() as int;
        let st = stack_start(cands, current);
        let off = choose|off: int|
            {
                &&& 0 <= off < n
                &&& id == #[trigger] cands[(st + off) % n]
                &&& id != current
                &&& forall|o: int| 0 <= o < off ==> #[trigger] cands[(st + o) % n] == current
            };
        assert(0 <= (st + off) % n < n);
    }
}

/// A candidate counts for a direction exactly when its center lies strictly
/// on that side of the source's center: left of it for Left (smaller x),
/// right for Right, above for Up (smaller y), below for Down.
pub proof fn law_eligible_means_on_that_side(source: Rect, cands: Seq<(u64, Rect)>, i: int, dir: NavDir)
    requires
        0 <= i < cands.len(),
    ensures
        ({
            let f = cands[i].1;
            let (sx, sy) = (source.left + tdiv(source.w(), 2), source.top + tdiv(source.h(), 2));
            let (cx, cy) = (f.left + tdiv(f.w(), 2), f.top + tdiv(f.h(), 2));
            &&& dir == NavDir::Left ==> (nav_eligible(source, cands, i, dir) <==> cx < sx)
            &&& dir == NavDir::Right ==> (nav_eligible(source, cands, i, dir) <==> cx > sx)
            &&& dir == NavDir::Up ==> (nav_eligible(source, cands, i, dir) <==> cy < sy)
            &&& dir == NavDir::Down ==> (nav_eligible(source, cands, i, dir) <==> cy > sy)
        }),
{
}

/// The window chosen for a direction lies on that side of the source (its
/// center strictly left, right, above or below the source's center), and
/// no other window on that side is nearer: none has a smaller gap across
/// the direction (between the spans of the two frames perpendicular to
/// it), and none with the same gap has its center nearer along the
/// direction; a window earlier in z-order on that side is strictly
/// farther (ties go to the first). Frames are taken not inverted.
pub proof fn law_winner_is_nearest_on_that_side(source: Rect, cands: Seq<(u64, Rect)>, dir: NavDir, i: int)
    requires
        nav_winner(source, cands, dir, i),
        source.left <= source.right,
        source.top <= source.bottom,
        forall|k: int|
            0 <= k < cands.len() ==> (#[trigger] cands[k]).1.left <= cands[k].1.right
                && cands[k].1.top <= cands[k].1.bottom,
    ensures
        ({
            let (sx, sy) = (source.left + tdiv(source.w(), 2), source.top + tdiv(source.h(), 2));
            let f = cands[i].1;
            let (cx, cy) = (f.left + tdiv(f.w(), 2), f.top + tdiv(f.h(), 2));
            &&& dir == NavDir::Left ==> cx < sx
            &&& dir == NavDir::Right ==> cx > sx
            &&& dir == NavDir::Up ==> cy < sy
            &&& dir == NavDir::Down ==> cy > sy
        }),
        forall|j: int|
            0 <= j < cands.len() ==> {
                let (sx, sy) = (source.left + tdiv(source.w(), 2), source.top + tdiv(source.h(), 2));
                let f = cands[i].1;
                let g = (#[trigger] cands[j]).1;
                let (fx, fy) = (f.left + tdiv(f.w(), 2), f.top + tdiv(f.h(), 2));
                let (gx, gy) = (g.left + tdiv(g.w(), 2), g.top + tdiv(g.h(), 2));
                let on_side = match dir {
                    NavDir::Left => gx < sx,
                    NavDir::Right => gx > sx,
                    NavDir::Up => gy < sy,
                    NavDir::Down => gy > sy,
                };
                let horizontal = dir == NavDir::Left || dir == NavDir::Right;
                let fgap = if horizontal {
                    max3(0, f.top - source.bottom, source.top - f.bottom)
                } else {
                    max3(0, f.left - source.right, source.left - f.right)
                };
                let ggap = if horizontal {
                    max3(0, g.top - source.bottom, source.top - g.bottom)
                } else {
                    max3(0, g.left - source.right, source.left - g.right)
                };
                let fdist = if horizontal { abs_i(fx - sx) } else { abs_i(fy - sy) };
                let gdist = if horizontal { abs_i(gx - sx) } else { abs_i(gy - sy) };
                &&& on_side ==> fgap < ggap || (fgap == ggap && fdist <= gdist)
                &&& on_side && j < i ==> fgap < ggap || (fgap == ggap && fdist < gdist)
            },
{
    assert forall|j: int| 0 <= j < cands.len() implies {
        let (sx, sy) = (source.left + tdiv(source.w(), 2), source.top + tdiv(source.h(), 2));
        let f = cands[i].1;
        let g = (#[trigger] cands[j]).1;
        let (fx, fy) = (f.left + tdiv(f.w(), 2), f.top + tdiv(f.h(), 2));
        let (gx, gy) = (g.left + tdiv(g.w(), 2), g.top + tdiv(g.h(), 2));
        let on_side = match dir {
            NavDir::Left => gx < sx,
            NavDir::Right => gx > sx,
            NavDir::Up => gy < sy,
            NavDir::Down => gy > sy,
        };
        let horizontal = dir == NavDir::Left || dir == NavDir::Right;
        let fgap = if horizontal {
            max3(0, f.top - source.bottom, source.top - f.bottom)
        } else {
            max3(0, f.left - source.right, source.left - f.right)
        };
        let ggap = if horizontal {
            max3(0, g.top - source.bottom, source.top - g.bottom)
        } else {
            max3(0, g.left - source.right, source.left - g.right)
        };
        let fdist = if horizontal { abs_i(fx - sx) } else { abs_i(fy - sy) };
        let gdist = if horizontal { abs_i(gx - sx) } else { abs_i(gy - sy) };
        &&& on_side ==> fgap < ggap || (fgap == ggap && fdist <= gdist)
        &&& on_side && j < i ==> fgap < ggap || (fgap == ggap && fdist < gdist)
    } by {
        if nav_eligible(source, cands, j, dir) {
            assert(!key_lt(nav_key(source, cands[j].1, dir), nav_key(source, cands[i].1, dir)));
            if j < i {
                assert(key_lt(nav_key(source, cands[i].1, dir), nav_key(source, cands[j].1, dir)));
            }
        }
    }
}

} // verus!
