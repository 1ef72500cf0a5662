//! Directional cycle chains (half -> third -> two-thirds).
//!
//! Repeating the same requested action advances through its chain. The
//! cursor only advances after a successful placement, so callers invoke
//! [`CycleState::commit`] on success.

use vstd::prelude::*;
use std::collections::HashMap;
use super::actions::WindowAction;
use crate::text::{decimal, push_decimal, push_str, string_of};

verus! {

broadcast use vstd::std_specs::hash::group_hash_axioms;

/// One cycle step selection.
#[derive(Debug, Clone, Copy, PartialEq, Eq, Structural)]
pub struct CycleSelection {
    pub requested: WindowAction,
    pub effective: WindowAction,
    pub position: usize,
    pub count: usize,
    pub is_cycle: bool,
}

/// Status-line suffix of a selection: `"  ·  Cycle <position + 1>/<count>"`
/// for a cycle step, empty otherwise.
pub open spec fn cycle_suffix(s: CycleSelection) -> Seq<char> {
    if s.is_cycle {
        "  \u{b7}  Cycle "@ + decimal((s.position + 1) as nat) + "/"@ + decimal(s.count as nat)
    } else {
        Seq::empty()
    }
}

impl CycleSelection {
    /// Status-line suffix (see [`cycle_suffix`]).
    pub fn status_suffix(self) -> (s: String)
        requires
            self.is_cycle ==> self.position < usize::MAX,
        ensures
            s@ == cycle_suffix(self),
    {
        let mut out: Vec<char> = Vec::new();
        if self.is_cycle {
            push_str(&mut out, "  \u{b7}  Cycle ");
            push_decimal(&mut out, (self.position + 1) as u64);
            push_str(&mut out, "/");
            push_decimal(&mut out, self.count as u64);
        }
        assert(out@ =~= (if self.is_cycle {
            "  \u{b7}  Cycle "@ + decimal((self.position + 1) as nat) + "/"@ + decimal(
                self.count as nat,
            )
        } else {
            Seq::empty()
        }));
        string_of(out.as_slice())
    }
}

/// The three-step chain an action belongs to, if any.
pub open spec fn chain_of(a: WindowAction) -> Option<(WindowAction, WindowAction, WindowAction)> {
    match a {
        WindowAction::LeftHalf | WindowAction::LeftThird | WindowAction::LeftTwoThirds => Some(
            (WindowAction::LeftHalf, WindowAction::LeftThird, WindowAction::LeftTwoThirds),
        ),
        WindowAction::RightHalf | WindowAction::RightThird | WindowAction::RightTwoThirds => Some(
            (WindowAction::RightHalf, WindowAction::RightThird, WindowAction::RightTwoThirds),
        ),
        WindowAction::TopHalf | WindowAction::TopThird | WindowAction::TopTwoThirds => Some(
            (WindowAction::TopHalf, WindowAction::TopThird, WindowAction::TopTwoThirds),
        ),
        WindowAction::BottomHalf | WindowAction::BottomThird | WindowAction::BottomTwoThirds => Some(
            (WindowAction::BottomHalf, WindowAction::BottomThird, WindowAction::BottomTwoThirds),
        ),
        _ => None,
    }
}

/// The `i`-th element (0, 1 or 2) of a chain.
pub open spec fn chain_at(c: (WindowAction, WindowAction, WindowAction), i: int) -> WindowAction {
    if i == 0 {
        c.0
    } else if i == 1 {
        c.1
    } else {
        c.2
    }
}

/// Position of an action within its own chain.
pub open spec fn chain_position(a: WindowAction) -> int {
    let c = chain_of(a)->0;
    if c.0 == a {
        0
    } else if c.1 == a {
        1
    } else {
        2
    }
}

/// The selection made for `requested` given the window's cursor map.
pub open spec fn selection_of(
    cursors: Map<u64, (WindowAction, usize)>,
    window: u64,
    requested: WindowAction,
    enabled: bool,
) -> CycleSelection {
    if chain_of(requested) is None || !enabled {
        CycleSelection { requested, effective: requested, position: 0, count: 0, is_cycle: false }
    } else {
        let c = chain_of(requested)->0;
        let position = if cursors.contains_key(window) && cursors[window].0 == requested {
            (cursors[window].1 + 1) % 3
        } else {
            chain_position(requested)
        };
        CycleSelection {
            requested,
            effective: chain_at(c, position),
            position: position as usize,
            count: 3,
            is_cycle: true,
        }
    }
}

/// The cursor map after a selection: a non-cycling selection forgets the
/// window's cursor; a cycling one leaves the map unchanged.
pub open spec fn cursors_after_select(
    cursors: Map<u64, (WindowAction, usize)>,
    window: u64,
    requested: WindowAction,
    enabled: bool,
) -> Map<u64, (WindowAction, usize)> {
    if chain_of(requested) is None || !enabled {
        cursors.remove(window)
    } else {
        cursors
    }
}

/// The cursor map after committing a selection.
pub open spec fn cursors_after_commit(
    cursors: Map<u64, (WindowAction, usize)>,
    window: u64,
    s: CycleSelection,
) -> Map<u64, (WindowAction, usize)> {
    if s.is_cycle {
        cursors.insert(window, (s.requested, s.position))
    } else {
        cursors
    }
}

/// Per-window cycle cursors.
#[derive(Debug)]
pub struct CycleState {
    cursors: HashMap<u64, (WindowAction, usize)>,
}

impl View for CycleState {
    type V = Map<u64, (WindowAction, usize)>;

    closed spec fn view(&self) -> Map<u64, (WindowAction, usize)> {
        self.cursors@
    }
}

impl Default for CycleState {
    fn default() -> (s: Self)
        ensures
            s@ == Map::<u64, (WindowAction, usize)>::empty(),
    {
        CycleState { cursors: HashMap::new() }
    }
}

fn chain_for(action: WindowAction) -> (c: Option<(WindowAction, WindowAction, WindowAction)>)
    ensures
        c == chain_of(action),
{
    match action {
        WindowAction::LeftHalf | WindowAction::LeftThird | WindowAction::LeftTwoThirds => Some(
            (WindowAction::LeftHalf, WindowAction::LeftThird, WindowAction::LeftTwoThirds),
        ),
        WindowAction::RightHalf | WindowAction::RightThird | WindowAction::RightTwoThirds => Some(
            (WindowAction::RightHalf, WindowAction::RightThird, WindowAction::RightTwoThirds),
        ),
        WindowAction::TopHalf | WindowAction::TopThird | WindowAction::TopTwoThirds => Some(
            (WindowAction::TopHalf, WindowAction::TopThird, WindowAction::TopTwoThirds),
        ),
        WindowAction::BottomHalf | WindowAction::BottomThird | WindowAction::BottomTwoThirds => Some(
            (WindowAction::BottomHalf, WindowAction::BottomThird, WindowAction::BottomTwoThirds),
        ),
        _ => None,
    }
}

impl CycleState {
    pub fn new() -> (s: Self)
        ensures
            s@ == Map::<u64, (WindowAction, usize)>::empty(),
    {
        CycleState { cursors: HashMap::new() }
    }

    pub fn can_cycle(action: WindowAction) -> (b: bool)
        ensures
            b == chain_of(action) is Some,
    {
        chain_for(action).is_some()
    }

    /// Choose the effective action for `requested` on `window`. Repeating
    /// the requested action of the last committed step advances one place
    /// along its chain; anything else starts at the requested action.
    pub fn select(&mut self, window: u64, requested: WindowAction, enabled: bool) -> (sel:
        CycleSelection)
        ensures
            sel == selection_of(old(self)@, window, requested, enabled),
            final(self)@ == cursors_after_select(old(self)@, window, requested, enabled),
    {
        let chain = match chain_for(requested) {
            Some(c) => c,
            None => {
                self.cursors.remove(&window);
                return CycleSelection {
                    requested,
                    effective: requested,
                    position: 0,
                    count: 0,
                    is_cycle: false,
                };
            },
        };
        if !enabled {
            self.cursors.remove(&window);
            return CycleSelection {
                requested,
                effective: requested,
                position: 0,
                count: 0,
                is_cycle: false,
            };
        }
        let requested_pos: usize = if chain.0 == requested {
            0
        } else if chain.1 == requested {
            1
        } else {
            2
        };
        let mut position = requested_pos;
        match self.cursors.get(&window) {
            Some(prev) => {
                let (prev_requested, prev_pos) = *prev;
                if prev_requested == requested {
                    position = (prev_pos % 3 + 1) % 3;
                    assert(position == (prev_pos + 1) % 3) by (nonlinear_arith)
                        requires
                            position == (prev_pos % 3 + 1) % 3,
                    ;
                }
            },
            None => {},
        }
        let effective = if position == 0 {
            chain.0
        } else if position == 1 {
            chain.1
        } else {
            chain.2
        };
        CycleSelection { requested, effective, position, count: 3, is_cycle: true }
    }

    /// Record a successful cycling placement for `window`.
    pub fn commit(&mut self, window: u64, selection: CycleSelection)
        ensures
            final(self)@ == cursors_after_commit(old(self)@, window, selection),
    {
        if selection.is_cycle {
            self.cursors.insert(window, (selection.requested, selection.position));
        }
    }

    /// Drop the cursor of `window`.
    pub fn forget(&mut self, window: u64)
        ensures
            final(self)@ == old(self)@.remove(window),
    {
        self.cursors.remove(&window);
    }
}

/// Repeating a committed cycle step advances one place along the chain:
/// after committing a cycling selection for `window`, selecting the same
/// requested action again yields the next chain element (wrapping after
/// three).
pub proof fn law_cycle_advances(
    cursors: Map<u64, (WindowAction, usize)>,
    window: u64,
    requested: WindowAction,
)
    requires
        chain_of(requested) is Some,
        cursors.contains_key(window) ==> cursors[window].1 < usize::MAX,
    ensures
        ({
            let s1 = selection_of(cursors, window, requested, true);
            let m1 = cursors_after_commit(
                cursors_after_select(cursors, window, requested, true),
                window,
                s1,
            );
            let s2 = selection_of(m1, window, requested, true);
            &&& s1.is_cycle && s2.is_cycle
            &&& s2.position == (s1.position + 1) % 3
            &&& s2.effective == chain_at(chain_of(requested)->0, (s1.position + 1) % 3)
        }),
{
}

/// Three committed steps bring a window back to where its chain started:
/// from a window without a cursor, select-and-commit of the same action
/// yields the requested action, then the next two chain elements, then the
/// requested action again.
pub proof fn law_cycle_period_three(
    cursors: Map<u64, (WindowAction, usize)>,
    window: u64,
    requested: WindowAction,
)
    requires
        chain_of(requested) is Some,
        !cursors.contains_key(window),
    ensures
        ({
            let step = |m: Map<u64, (WindowAction, usize)>|
                cursors_after_commit(m, window, selection_of(m, window, requested, true));
            let m1 = step(cursors);
            let m2 = step(m1);
            let m3 = step(m2);
            &&& selection_of(cursors, window, requested, true).effective == requested
            &&& selection_of(m3, window, requested, true).effective == requested
            &&& selection_of(m1, window, requested, true).effective != requested
            &&& selection_of(m2, window, requested, true).effective != requested
        }),
{
}

/// Disabling cycling, or forgetting a window, restarts its chain at the
/// requested action.
pub proof fn law_disable_and_forget_reset(
    cursors: Map<u64, (WindowAction, usize)>,
    window: u64,
    requested: WindowAction,
)
    ensures
        !cursors_after_select(cursors, window, requested, false).contains_key(window),
        selection_of(cursors, window, requested, false).effective == requested,
        selection_of(cursors.remove(window), window, requested, true).effective == requested,
{
}

} // verus!
