//! Stash record types shared by persistence and the stash service, and the
//! frame of a stashed window.

use vstd::prelude::*;
use vstd::std_specs::convert::FromSpecImpl;
use super::rect::{Point, Rect, fits_i32};

verus! {

/// Edge a window is stashed against.
#[derive(Debug, Clone, Copy, PartialEq, Eq, Structural)]
pub enum StashEdge {
    Left,
    Right,
    Top,
    Bottom,
}

impl Default for StashEdge {
    fn default() -> (e: Self)
        ensures
            e == StashEdge::Left,
    {
        StashEdge::Left
    }
}

impl StashEdge {
    /// Persisted number of an edge.
    pub fn discriminant(self) -> (d: u8)
        ensures
            d == edge_number(self),
    {
        match self {
            StashEdge::Left => 0,
            StashEdge::Right => 1,
            StashEdge::Top => 2,
            StashEdge::Bottom => 3,
        }
    }

    /// The edge stored under a persisted number, if there is one.
    pub fn from_discriminant(d: u8) -> (e: Option<StashEdge>)
        ensures
            e is Some <==> d < 4,
            e matches Some(x) ==> edge_number(x) == d,
    {
        match d {
            0 => Some(StashEdge::Left),
            1 => Some(StashEdge::Right),
            2 => Some(StashEdge::Top),
            3 => Some(StashEdge::Bottom),
            _ => None,
        }
    }
}

/// Persisted number of a stash edge.
pub open spec fn edge_number(e: StashEdge) -> nat {
    match e {
        StashEdge::Left => 0,
        StashEdge::Right => 1,
        StashEdge::Top => 2,
        StashEdge::Bottom => 3,
    }
}

#[derive(Debug, Clone, Copy, PartialEq, Eq, Structural)]
pub struct StashPoint {
    pub x: i32,
    pub y: i32,
}

impl Default for StashPoint {
    fn default() -> (p: Self)
        ensures
            p == (StashPoint { x: 0, y: 0 }),
    {
        StashPoint { x: 0, y: 0 }
    }
}

impl From<Point> for StashPoint {
    fn from(p: Point) -> (s: Self) {
        StashPoint { x: p.x, y: p.y }
    }
}

impl FromSpecImpl<Point> for StashPoint {
    open spec fn obeys_from_spec() -> bool {
        true
    }

    open spec fn from_spec(p: Point) -> StashPoint {
        StashPoint { x: p.x, y: p.y }
    }
}

impl From<StashPoint> for Point {
    fn from(p: StashPoint) -> (s: Self) {
        Point { x: p.x, y: p.y }
    }
}

impl FromSpecImpl<StashPoint> for Point {
    open spec fn obeys_from_spec() -> bool {
        true
    }

    open spec fn from_spec(p: StashPoint) -> Point {
        Point { x: p.x, y: p.y }
    }
}

#[derive(Debug, Clone, Copy, PartialEq, Eq, Structural)]
pub struct StashRect {
    pub left: i32,
    pub top: i32,
    pub right: i32,
    pub bottom: i32,
}

impl Default for StashRect {
    fn default() -> (r: Self)
        ensures
            r == (StashRect { left: 0, top: 0, right: 0, bottom: 0 }),
    {
        StashRect { left: 0, top: 0, right: 0, bottom: 0 }
    }
}

/// The screen rectangle with the same coordinates.
pub open spec fn as_rect(r: StashRect) -> Rect {
    Rect { left: r.left, top: r.top, right: r.right, bottom: r.bottom }
}

impl From<Rect> for StashRect {
    fn from(r: Rect) -> (s: Self) {
        StashRect { left: r.left, top: r.top, right: r.right, bottom: r.bottom }
    }
}

impl FromSpecImpl<Rect> for StashRect {
    open spec fn obeys_from_spec() -> bool {
        true
    }

    open spec fn from_spec(r: Rect) -> StashRect {
        StashRect { left: r.left, top: r.top, right: r.right, bottom: r.bottom }
    }
}

impl From<StashRect> for Rect {
    fn from(r: StashRect) -> (s: Self) {
        Rect { left: r.left, top: r.top, right: r.right, bottom: r.bottom }
    }
}

impl FromSpecImpl<StashRect> for Rect {
    open spec fn obeys_from_spec() -> bool {
        true
    }

    open spec fn from_spec(r: StashRect) -> Rect {
        as_rect(r)
    }
}

/// The saved `WINDOWPLACEMENT` of a stashed window.
#[derive(Debug, Clone, Copy, PartialEq, Eq, Structural)]
pub struct StashPlacement {
    pub length: i32,
    pub flags: u32,
    pub show_command: u32,
    pub min_position: StashPoint,
    pub max_position: StashPoint,
    pub normal_position: StashRect,
}

impl Default for StashPlacement {
    fn default() -> (p: Self)
        ensures
            p == (StashPlacement {
                length: 0,
                flags: 0,
                show_command: 0,
                min_position: StashPoint { x: 0, y: 0 },
                max_position: StashPoint { x: 0, y: 0 },
                normal_position: StashRect { left: 0, top: 0, right: 0, bottom: 0 },
            }),
    {
        StashPlacement {
            length: 0,
            flags: 0,
            show_command: 0,
            min_position: StashPoint { x: 0, y: 0 },
            max_position: StashPoint { x: 0, y: 0 },
            normal_position: StashRect { left: 0, top: 0, right: 0, bottom: 0 },
        }
    }
}

/// Bit pattern of the double `96.0`, the default DPI.
pub const DPI_96_BITS: u64 = 0x4058_0000_0000_0000;

/// The monitor a window was stashed from. DPI values are IEEE-754 double
/// bit patterns (`f64::to_bits`).
#[derive(Debug, Clone, Copy, PartialEq, Eq, Structural)]
pub struct StashMonitor {
    pub monitor: StashRect,
    pub work: StashRect,
    pub dpi_x_bits: u64,
    pub dpi_y_bits: u64,
}

impl Default for StashMonitor {
    fn default() -> (m: Self)
        ensures
            m == (StashMonitor {
                monitor: StashRect { left: 0, top: 0, right: 0, bottom: 0 },
                work: StashRect { left: 0, top: 0, right: 0, bottom: 0 },
                dpi_x_bits: DPI_96_BITS,
                dpi_y_bits: DPI_96_BITS,
            }),
    {
        StashMonitor {
            monitor: StashRect { left: 0, top: 0, right: 0, bottom: 0 },
            work: StashRect { left: 0, top: 0, right: 0, bottom: 0 },
            dpi_x_bits: DPI_96_BITS,
            dpi_y_bits: DPI_96_BITS,
        }
    }
}

/// One stashed window plus the metadata needed to restore it safely.
#[derive(Debug, Clone, PartialEq)]
pub struct StashRecord {
    pub id: String,
    pub executable_path: String,
    pub process_id: u32,
    pub window_class: String,
    pub title: String,
    pub edge: StashEdge,
    pub original_placement: StashPlacement,
    pub original_monitor: StashMonitor,
    pub stashed_frame: StashRect,
}

/// The plain content of a stash record, field by field.
pub type StashRecordView = (
    Seq<char>,
    Seq<char>,
    u32,
    Seq<char>,
    Seq<char>,
    StashEdge,
    StashPlacement,
    StashMonitor,
    StashRect,
);

impl View for StashRecord {
    type V = StashRecordView;

    open spec fn view(&self) -> StashRecordView {
        (
            self.id@,
            self.executable_path@,
            self.process_id,
            self.window_class@,
            self.title@,
            self.edge,
            self.original_placement,
            self.original_monitor,
            self.stashed_frame,
        )
    }
}

/// The peek width clamped to `1..=48`.
pub open spec fn clamp_peek(peek: i32) -> int {
    if peek < 1 {
        1
    } else if peek > 48 {
        48
    } else {
        peek as int
    }
}

/// The stashed frame: the work area slid off past `edge` so that a strip of
/// `peek` pixels stays visible.
pub open spec fn stashed_of(work: Rect, edge: StashEdge, peek: i32) -> Rect {
    let p = clamp_peek(peek);
    let (l, t, r, b) = (work.left as int, work.top as int, work.right as int, work.bottom as int);
    let (sl, st, sr, sb): (int, int, int, int) = match edge {
        StashEdge::Left => (l - work.w() + p, t, l + p, b),
        StashEdge::Right => (r - p, t, r + work.w() - p, b),
        StashEdge::Top => (l, t - work.h() + p, r, t + p),
        StashEdge::Bottom => (l, b - p, r, b + work.h() - p),
    };
    Rect { left: sl as i32, top: st as i32, right: sr as i32, bottom: sb as i32 }
}

/// Whether `stashed_frame` evaluates without overflow.
pub open spec fn stash_defined(work: Rect, edge: StashEdge, peek: i32) -> bool {
    let p = clamp_peek(peek);
    match edge {
        StashEdge::Left => fits_i32(work.w()) && fits_i32(work.left - work.w()) && fits_i32(
            work.left - work.w() + p,
        ) && fits_i32(work.left + p),
        StashEdge::Right => fits_i32(work.w()) && fits_i32(work.right - p) && fits_i32(
            work.right + work.w(),
        ) && fits_i32(work.right + work.w() - p),
        StashEdge::Top => fits_i32(work.h()) && fits_i32(work.top - work.h()) && fits_i32(
            work.top - work.h() + p,
        ) && fits_i32(work.top + p),
        StashEdge::Bottom => fits_i32(work.h()) && fits_i32(work.bottom - p) && fits_i32(
            work.bottom + work.h(),
        ) && fits_i32(work.bottom + work.h() - p),
    }
}

/// Frame for a stashed window: a thin visible strip along `edge`.
pub fn stashed_frame(work: Rect, edge: StashEdge, peek: i32) -> (r: Rect)
    requires
        stash_defined(work, edge, peek),
    ensures
        r == stashed_of(work, edge, peek),
{
    let peek = if peek < 1 {
        1
    } else if peek > 48 {
        48
    } else {
        peek
    };
    match edge {
        StashEdge::Left => Rect::new(
            work.left - work.width() + peek,
            work.top,
            work.left + peek,
            work.bottom,
        ),
        StashEdge::Right => Rect::new(
            work.right - peek,
            work.top,
            work.right + work.width() - peek,
            work.bottom,
        ),
        StashEdge::Top => Rect::new(
            work.left,
            work.top - work.height() + peek,
            work.right,
            work.top + peek,
        ),
        StashEdge::Bottom => Rect::new(
            work.left,
            work.bottom - peek,
            work.right,
            work.bottom + work.height() - peek,
        ),
    }
}

/// A stashed frame keeps the work-area size and leaves exactly the clamped
/// peek visible on its edge.
pub proof fn law_stash_keeps_peek(work: Rect, edge: StashEdge, peek: i32)
    requires
        stash_defined(work, edge, peek),
    ensures
        ({
            let s = stashed_of(work, edge, peek);
            let p = clamp_peek(peek);
            &&& s.w() == work.w() && s.h() == work.h()
            &&& edge == StashEdge::Left ==> s.right - work.left == p
            &&& edge == StashEdge::Right ==> work.right - s.left == p
            &&& edge == StashEdge::Top ==> s.bottom - work.top == p
            &&& edge == StashEdge::Bottom ==> work.bottom - s.top == p
        }),
{
}

} // verus!
