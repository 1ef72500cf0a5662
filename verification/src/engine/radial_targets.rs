//! Persisted radial targets and runtime resolution.
//!
//! A wedge points at nothing, a built-in action, or a stable keybind id.
//! Unknown keybinds normalize to `None` so one bad slot never breaks the file.

use vstd::prelude::*;
use super::actions::{WindowAction, display_name_of};
use super::cycle::{CycleState, chain_of};
use super::radial::{SLOT_COUNT, default_action, default_action_at};
use crate::text::{owned, push_str, string_of};

verus! {

/// Persisted target discriminant.
#[derive(Debug, Clone, Copy, PartialEq, Eq, Structural)]
pub enum RadialTargetKind {
    Nothing,
    Action,
    Keybind,
}

impl RadialTargetKind {
    /// Persisted number of a target kind.
    pub fn discriminant(self) -> (d: u8)
        ensures
            d == (match self {
                RadialTargetKind::Nothing => 0u8,
                RadialTargetKind::Action => 1u8,
                RadialTargetKind::Keybind => 2u8,
            }),
    {
        match self {
            RadialTargetKind::Nothing => 0,
            RadialTargetKind::Action => 1,
            RadialTargetKind::Keybind => 2,
        }
    }

    /// The kind stored under a persisted number, if there is one.
    pub fn from_discriminant(d: u8) -> (k: Option<RadialTargetKind>)
        ensures
            k == (if d == 0 {
                Some(RadialTargetKind::Nothing)
            } else if d == 1 {
                Some(RadialTargetKind::Action)
            } else if d == 2 {
                Some(RadialTargetKind::Keybind)
            } else {
                None
            }),
    {
        match d {
            0 => Some(RadialTargetKind::Nothing),
            1 => Some(RadialTargetKind::Action),
            2 => Some(RadialTargetKind::Keybind),
            _ => None,
        }
    }
}

/// Persisted wedge/center assignment.
#[derive(Debug, Clone, PartialEq, Eq)]
pub struct RadialTargetSettings {
    pub kind: RadialTargetKind,
    pub action: WindowAction,
    pub keybind_id: String,
    pub cycle_enabled: bool,
}

/// The plain content of a target: kind, action, keybind id, cycle flag.
pub type TargetView = (RadialTargetKind, WindowAction, Seq<char>, bool);

impl View for RadialTargetSettings {
    type V = TargetView;

    open spec fn view(&self) -> TargetView {
        (self.kind, self.action, self.keybind_id@, self.cycle_enabled)
    }
}

/// The empty target.
pub open spec fn none_target() -> TargetView {
    (RadialTargetKind::Nothing, WindowAction::RightHalf, Seq::empty(), false)
}

/// A built-in action target; cycling is on when the action has a chain.
pub open spec fn action_target(a: WindowAction) -> TargetView {
    (RadialTargetKind::Action, a, Seq::empty(), chain_of(a) is Some)
}

impl Default for RadialTargetSettings {
    fn default() -> (t: Self)
        ensures
            t@ == (RadialTargetKind::Action, WindowAction::RightHalf, Seq::<char>::empty(), false),
    {
        RadialTargetSettings {
            kind: RadialTargetKind::Action,
            action: WindowAction::RightHalf,
            keybind_id: String::new(),
            cycle_enabled: false,
        }
    }
}

impl RadialTargetSettings {
    pub fn none() -> (t: Self)
        ensures
            t@ == none_target(),
    {
        RadialTargetSettings {
            kind: RadialTargetKind::Nothing,
            action: WindowAction::RightHalf,
            keybind_id: String::new(),
            cycle_enabled: false,
        }
    }

    pub fn action(action: WindowAction) -> (t: Self)
        ensures
            t@ == action_target(action),
    {
        RadialTargetSettings {
            kind: RadialTargetKind::Action,
            action,
            keybind_id: String::new(),
            cycle_enabled: CycleState::can_cycle(action),
        }
    }
}

/// Resolved runtime target.
#[derive(Debug, Clone, PartialEq, Eq)]
pub enum RadialTarget {
    Nothing,
    BuiltIn { action: WindowAction, cycle: bool },
    Keybind { id: String, action: WindowAction, cycle: bool, label: String },
}

impl RadialTarget {
    pub fn action(&self) -> (a: Option<WindowAction>)
        ensures
            a == (match self {
                RadialTarget::Nothing => None,
                RadialTarget::BuiltIn { action, .. } => Some(*action),
                RadialTarget::Keybind { action, .. } => Some(*action),
            }),
    {
        match self {
            RadialTarget::Nothing => None,
            RadialTarget::BuiltIn { action, .. } => Some(*action),
            RadialTarget::Keybind { action, .. } => Some(*action),
        }
    }

    pub fn cycle_enabled(&self) -> (b: bool)
        ensures
            b == (match self {
                RadialTarget::Nothing => false,
                RadialTarget::BuiltIn { cycle, .. } => *cycle,
                RadialTarget::Keybind { cycle, .. } => *cycle,
            }),
    {
        match self {
            RadialTarget::Nothing => false,
            RadialTarget::BuiltIn { cycle, .. } => *cycle,
            RadialTarget::Keybind { cycle, .. } => *cycle,
        }
    }

    /// Name shown in settings: `"No action"`, the action's name, or
    /// `"<label> · <action name>"` for a labelled keybind.
    pub fn display_name(&self) -> (s: String)
        ensures
            s@ == (match self {
                RadialTarget::Nothing => "No action"@,
                RadialTarget::BuiltIn { action, .. } => display_name_of(*action),
                RadialTarget::Keybind { action, label, .. } => if label@.len() == 0 {
                    display_name_of(*action)
                } else {
                    label@ + " \u{b7} "@ + display_name_of(*action)
                },
            }),
    {
        match self {
            RadialTarget::Nothing => owned("No action"),
            RadialTarget::BuiltIn { action, .. } => owned(action.display_name()),
            RadialTarget::Keybind { action, label, .. } => {
                if label.as_str().unicode_len() == 0 {
                    owned(action.display_name())
                } else {
                    let mut out: Vec<char> = Vec::new();
                    push_str(&mut out, label.as_str());
                    push_str(&mut out, " \u{b7} ");
                    push_str(&mut out, action.display_name());
                    string_of(out.as_slice())
                }
            },
        }
    }
}

/// Minimal keybind view for radial resolution.
#[derive(Debug, Clone, PartialEq, Eq)]
pub struct ResolvedKeybind {
    pub id: String,
    pub action: WindowAction,
    pub label: String,
}

/// Index of the first keybind with the given id.
pub open spec fn first_keybind_with(keybinds: Seq<ResolvedKeybind>, id: Seq<char>, i: int) -> bool {
    &&& 0 <= i < keybinds.len()
    &&& keybinds[i].id@ == id
    &&& forall|j: int| 0 <= j < i ==> (#[trigger] keybinds[j]).id@ != id
}

/// Resolve one persisted slot against the keybind list.
pub fn resolve_slot(slot: &RadialTargetSettings, keybinds: &[ResolvedKeybind]) -> (t: RadialTarget)
    ensures
        match slot.kind {
            RadialTargetKind::Nothing => t == RadialTarget::Nothing,
            RadialTargetKind::Action => t == RadialTarget::BuiltIn {
                action: slot.action,
                cycle: slot.cycle_enabled,
            },
            RadialTargetKind::Keybind => match t {
                RadialTarget::Keybind { id, action, cycle, label } => exists|i: int|
                    first_keybind_with(keybinds@, slot.keybind_id@, i) && id@ == keybinds@[i].id@
                        && action == #[trigger] keybinds@[i].action && label@ == keybinds@[i].label@
                        && cycle == slot.cycle_enabled,
                RadialTarget::Nothing => forall|i: int|
                    0 <= i < keybinds@.len() ==> (#[trigger] keybinds@[i]).id@ != slot.keybind_id@,
                _ => false,
            },
        },
{
    match slot.kind {
        RadialTargetKind::Nothing => RadialTarget::Nothing,
        RadialTargetKind::Action => RadialTarget::BuiltIn {
            action: slot.action,
            cycle: slot.cycle_enabled,
        },
        RadialTargetKind::Keybind => {
            let mut i: usize = 0;
            while i < keybinds.len()
                invariant
                    slot.kind == RadialTargetKind::Keybind,
                    i <= keybinds.len(),
                    forall|j: int| 0 <= j < i ==> (#[trigger] keybinds@[j]).id@ != slot.keybind_id@,
                decreases keybinds.len() - i,
            {
                let keybind = &keybinds[i];
                if keybind.id == slot.keybind_id {
                    let t = RadialTarget::Keybind {
                        id: keybind.id.clone(),
                        action: keybind.action,
                        cycle: slot.cycle_enabled,
                        label: keybind.label.clone(),
                    };
                    assert(first_keybind_with(keybinds@, slot.keybind_id@, i as int));
                    assert(keybinds@[i as int].action == keybind.action);
                    return t;
                }
                i = i + 1;
            }
            RadialTarget::Nothing
        },
    }
}

/// The eight default wedge targets.
pub open spec fn default_slot_views() -> Seq<TargetView> {
    Seq::new(8, |i: int| action_target(default_action_at(i)))
}

pub fn default_slots() -> (v: Vec<RadialTargetSettings>)
    ensures
        v@.map_values(|t: RadialTargetSettings| t@) == default_slot_views(),
{
    let mut v: Vec<RadialTargetSettings> = Vec::new();
    let mut k: usize = 0;
    while k < SLOT_COUNT
        invariant
            k <= SLOT_COUNT,
            v@.len() == k,
            forall|i: int| 0 <= i < k ==> (#[trigger] v@[i])@ == action_target(default_action_at(i)),
        decreases SLOT_COUNT - k,
    {
        v.push(RadialTargetSettings::action(default_action(k)));
        k = k + 1;
    }
    assert(v@.map_values(|t: RadialTargetSettings| t@) =~= default_slot_views());
    v
}

pub fn default_center() -> (t: RadialTargetSettings)
    ensures
        t@ == none_target(),
{
    RadialTargetSettings::none()
}

/// Whether an id is among the known keybind ids.
pub open spec fn known_id(ids: Seq<String>, id: Seq<char>) -> bool {
    exists|i: int| 0 <= i < ids.len() && (#[trigger] ids[i])@ == id
}

/// The normalized form of a target: a `None` target is reset to the
/// canonical empty target; a keybind target whose id is empty or unknown
/// becomes the empty target; action targets are kept.
pub open spec fn normalized_target(t: TargetView, ids: Seq<String>) -> TargetView {
    match t.0 {
        RadialTargetKind::Nothing => none_target(),
        RadialTargetKind::Action => t,
        RadialTargetKind::Keybind => if t.2.len() == 0 || !known_id(ids, t.2) {
            none_target()
        } else {
            t
        },
    }
}

fn contains_id(ids: &[String], id: &String) -> (b: bool)
    ensures
        b == known_id(ids@, id@),
{
    let mut i: usize = 0;
    while i < ids.len()
        invariant
            i <= ids.len(),
            forall|j: int| 0 <= j < i ==> (#[trigger] ids@[j])@ != id@,
        decreases ids.len() - i,
    {
        if ids[i] == *id {
            return true;
        }
        i = i + 1;
    }
    false
}

pub fn normalize_target(target: &mut RadialTargetSettings, keybind_ids: &[String])
    ensures
        final(target)@ == normalized_target(old(target)@, keybind_ids@),
{
    match target.kind {
        RadialTargetKind::Nothing => {
            target.action = WindowAction::RightHalf;
            target.keybind_id = String::new();
            target.cycle_enabled = false;
        },
        RadialTargetKind::Action => {},
        RadialTargetKind::Keybind => {
            if target.keybind_id.as_str().unicode_len() == 0 || !contains_id(
                keybind_ids,
                &target.keybind_id,
            ) {
                *target = RadialTargetSettings::none();
            }
        },
    }
}

/// The slot list padded with empty targets or cut to exactly eight.
pub open spec fn fitted_slots(slots: Seq<TargetView>) -> Seq<TargetView> {
    if slots.len() >= 8 {
        slots.subrange(0, 8)
    } else {
        slots + Seq::new((8 - slots.len()) as nat, |i: int| none_target())
    }
}

/// Normalize a slot list to exactly [`SLOT_COUNT`] safe entries.
pub fn normalize_slots(slots: &mut Vec<RadialTargetSettings>, keybind_ids: &[String])
    ensures
        final(slots)@.len() == SLOT_COUNT,
        forall|i: int|
            0 <= i < SLOT_COUNT ==> (#[trigger] final(slots)@[i])@ == normalized_target(
                fitted_slots(old(slots)@.map_values(|t: RadialTargetSettings| t@))[i],
                keybind_ids@,
            ),
{
    let ghost start = old(slots)@.map_values(|t: RadialTargetSettings| t@);
    while slots.len() < SLOT_COUNT
        invariant
            slots@.len() <= SLOT_COUNT || slots@.len() == start.len(),
            start.len() >= slots@.len() ==> slots@.len() == start.len(),
            forall|i: int| 0 <= i < slots@.len() ==> (#[trigger] slots@[i])@ == (if i < start.len() {
                start[i]
            } else {
                none_target()
            }),
            slots@.len() >= start.len(),
        decreases SLOT_COUNT - slots@.len(),
    {
        slots.push(RadialTargetSettings::none());
    }
    slots.truncate(SLOT_COUNT);
    let mut k: usize = 0;
    while k < SLOT_COUNT
        invariant
            k <= SLOT_COUNT,
            slots@.len() == SLOT_COUNT,
            forall|i: int|
                0 <= i < k ==> (#[trigger] slots@[i])@ == normalized_target(
                    fitted_slots(start)[i],
                    keybind_ids@,
                ),
            forall|i: int| k <= i < SLOT_COUNT ==> (#[trigger] slots@[i])@ == fitted_slots(start)[i],
        decreases SLOT_COUNT - k,
    {
        normalize_target(&mut slots[k], keybind_ids);
        k = k + 1;
    }
}

/// Normalizing a target is idempotent, and its result is always safe: a
/// keybind target that survives names a known, non-empty id.
pub proof fn law_normalize_target_idempotent(t: TargetView, ids: Seq<String>)
    ensures
        normalized_target(normalized_target(t, ids), ids) == normalized_target(t, ids),
        normalized_target(t, ids).0 == RadialTargetKind::Keybind ==> normalized_target(t, ids).2.len()
            > 0 && known_id(ids, normalized_target(t, ids).2),
{
}

} // verus!
