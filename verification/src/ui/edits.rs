//! Edits the settings window makes to the settings, one per control.
//!
//! Each edit changes the settings value and says which status the caller
//! commits it with; hooks, registry and overlay work stay with the caller.

use vstd::prelude::*;
use crate::engine::actions::{WindowAction, action_with_number};
use crate::engine::hotkey::TriggerModifierSide;
use crate::engine::monitor::MonitorMoveSizePolicy;
use crate::engine::radial_targets::{RadialTargetKind, RadialTargetSettings, none_target};
use crate::settings::color::normalize_color;
use crate::settings::exclusions::non_empty;
use crate::settings::model::{
    AppSettings, DEFAULT_INNER_RADIUS_BITS, DEFAULT_OUTER_RADIUS_BITS,
    DEFAULT_PREVIEW_BORDER_BITS, DEFAULT_PREVIEW_PADDING_BITS, DEFAULT_PREVIEW_RADIUS_BITS,
    Keybind, is_default, is_generated_id, target_views,
};
use crate::engine::radial_targets::default_slot_views;
use crate::engine::hotkey::VK_CAPITAL;
use crate::settings::normalize::clamp_range;
use crate::text::{chars_of, owned, string_of, text_eq, texts, trim, trimmed};
use crate::ui::choices::{
    action_named, find_keybind, first_action_named, first_with_id, lemma_first_action_unique,
    lemma_first_id_unique, lemma_no_first_id, radial_target_from_choice, target_from_choice,
};
use crate::ui::section::Section;
use crate::ui::theme::{PRESET_COUNT, preset, preset_at};
use crate::engine::rect::fits_i32;

verus! {

/// The five editable colors.
#[derive(Debug, Clone, Copy, PartialEq, Eq, Structural)]
pub enum ColorField {
    Accent,
    SectorFill,
    SectorStroke,
    RingFill,
    PreviewBorder,
}

/// One settings edit. Sizes that the window edits as floating-point values
/// arrive as `f64` bit patterns.
#[derive(Debug, Clone, PartialEq, Eq)]
pub enum SettingsEdit {
    SetModifierSide(String),
    ToggleKeybindCycle(String),
    ToggleKeybindBypass(String),
    NudgeDelay(i32),
    NudgeTimeout(i32),
    SetDoubleClick(bool),
    SetMiddleClick(bool),
    SetRadialEnabled(bool),
    SetCursorInteraction(bool),
    SetOuterRadius(u64),
    SetInnerRadius(u64),
    SetRadialTarget(Option<usize>, String),
    ToggleRadialCycle(Option<usize>),
    ClearWedge(usize),
    SetPreviewEnabled(bool),
    SetDragSnap(bool),
    SetPreviewPadding(u64),
    SetPreviewRadius(u64),
    SetPreviewBorder(u64),
    SetSnapThreshold(i32),
    SetRestoreOnCancel(bool),
    SetStashPersistence(bool),
    NudgeStashPeek(i32),
    NudgeStashHitZone(i32),
    NudgeStashDelay(i32),
    SetAppearanceMode(String),
    ApplyPreset(String),
    EditColor(ColorField, String),
    AddKeybind,
    DeleteKeybind(String),
    SetKeybindAction(String, String),
    SetMonitorPolicy(String),
    NudgeGlobalPadding(i32),
    NudgePaddingLeft(i32),
    NudgePaddingTop(i32),
    NudgePaddingRight(i32),
    NudgePaddingBottom(i32),
    EditExcludedExecutables(String),
    EditExcludedProcesses(String),
    ResetSection(Section),
    ResetAll,
}

/// What an edit asks of the caller besides the new settings.
pub struct EditOutcome {
    /// Status to commit the edited settings with; `None` when there is
    /// nothing to save.
    pub commit_status: Option<&'static str>,
    /// The color-error line: `None` leaves it, `Some(None)` clears it,
    /// `Some(Some(m))` shows `m`.
    pub color_error: Option<Option<String>>,
}

/// The modifier side a pick-list value names; anything else means either
/// side.
pub open spec fn side_named(s: Seq<char>) -> TriggerModifierSide {
    if s == "Left"@ {
        TriggerModifierSide::Left
    } else if s == "Right"@ {
        TriggerModifierSide::Right
    } else {
        TriggerModifierSide::Any
    }
}

/// The size policy a pick-list value names; anything else keeps pixels.
pub open spec fn policy_named(s: Seq<char>) -> MonitorMoveSizePolicy {
    if s == "PreserveLogicalSize"@ {
        MonitorMoveSizePolicy::PreserveLogicalSize
    } else {
        MonitorMoveSizePolicy::PreservePixels
    }
}

/// A list separator in the exclusion text boxes: comma or newline.
pub open spec fn is_list_sep(c: char) -> bool {
    c == ',' || c == '\n'
}

/// The pieces of `s` between separators (one more than there are
/// separators).
pub open spec fn split_list(s: Seq<char>) -> Seq<Seq<char>>
    decreases s.len(),
{
    if s.len() == 0 {
        seq![Seq::empty()]
    } else {
        let prev = split_list(s.drop_last());
        if is_list_sep(s.last()) {
            prev.push(Seq::empty())
        } else {
            prev.update(prev.len() - 1, prev.last().push(s.last()))
        }
    }
}

proof fn lemma_split_list_nonempty(s: Seq<char>)
    ensures
        split_list(s).len() >= 1,
    decreases s.len(),
{
    if s.len() > 0 {
        lemma_split_list_nonempty(s.drop_last());
    }
}

/// The entries typed into an exclusion text box: pieces trimmed, empty
/// ones dropped.
pub open spec fn list_entries(s: Seq<char>) -> Seq<Seq<char>> {
    non_empty(trimmed_all(split_list(s)))
}

/// Every piece trimmed.
pub open spec fn trimmed_all(ps: Seq<Seq<char>>) -> Seq<Seq<char>> {
    ps.map_values(|p: Seq<char>| trimmed(p))
}

proof fn lemma_non_empty_push_trimmed(ps: Seq<Seq<char>>, p: Seq<char>)
    ensures
        non_empty(trimmed_all(ps.push(p))) == (if trimmed(p).len() == 0 {
            non_empty(trimmed_all(ps))
        } else {
            non_empty(trimmed_all(ps)).push(trimmed(p))
        }),
{
    assert(trimmed_all(ps.push(p)) =~= trimmed_all(ps).push(trimmed(p)));
    assert(trimmed_all(ps).push(trimmed(p)).drop_last() =~= trimmed_all(ps));
}

fn push_trimmed_piece(out: &mut Vec<String>, piece: &Vec<char>)
    ensures
        texts(final(out)@) == (if trimmed(piece@).len() == 0 {
            texts(old(out)@)
        } else {
            texts(old(out)@).push(trimmed(piece@))
        }),
{
    let t = trim(piece.as_slice());
    if t.len() > 0 {
        out.push(string_of(t.as_slice()));
        assert(texts(out@) =~= texts(old(out)@).push(trimmed(piece@)));
    }
}

/// Split an exclusion text box into its entries (see [`list_entries`]).
pub fn parse_list(text: &str) -> (v: Vec<String>)
    ensures
        texts(v@) == list_entries(text@),
{
    let s = chars_of(text);
    let mut out: Vec<String> = Vec::new();
    let mut cur: Vec<char> = Vec::new();
    let ghost mut done: Seq<Seq<char>> = Seq::empty();
    let mut i: usize = 0;
    assert(s@.take(0) =~= Seq::<char>::empty());
    assert(split_list(Seq::<char>::empty()) =~= done.push(cur@));
    assert(trimmed_all(done) =~= Seq::<Seq<char>>::empty());
    while i < s.len()
        invariant
            s@ == text@,
            i <= s.len(),
            split_list(s@.take(i as int)) == done.push(cur@),
            texts(out@) == non_empty(trimmed_all(done)),
        decreases s.len() - i,
    {
        let ghost prefix = s@.take(i as int + 1);
        assert(prefix.drop_last() =~= s@.take(i as int));
        let c = s[i];
        if c == ',' || c == '\n' {
            proof {
                lemma_non_empty_push_trimmed(done, cur@);
            }
            push_trimmed_piece(&mut out, &cur);
            proof {
                done = done.push(cur@);
            }
            cur = Vec::new();
            assert(split_list(prefix) =~= done.push(cur@));
        } else {
            cur.push(c);
            assert(split_list(prefix) =~= done.push(cur@));
        }
        i = i + 1;
    }
    assert(s@.take(s.len() as int) =~= s@);
    proof {
        lemma_non_empty_push_trimmed(done, cur@);
    }
    push_trimmed_piece(&mut out, &cur);
    out
}

/// `old + delta` clamped, when the sum fits an `i32`.
fn nudge(value: i32, delta: i32, lo: i32, hi: i32) -> (r: i32)
    requires
        lo <= hi,
        i32::MIN <= value + delta <= i32::MAX,
    ensures
        r == clamp_range(value + delta, lo as int, hi as int),
{
    let v = value + delta;
    if v < lo {
        lo
    } else if v > hi {
        hi
    } else {
        v
    }
}

/// The keybind list with `change` applied to the first keybind whose id
/// is `id`, if there is one.
pub open spec fn keybind_changed(
    ks: Seq<Keybind>,
    id: Seq<char>,
    change: spec_fn(Keybind) -> Keybind,
) -> Seq<Keybind> {
    if exists|i: int| first_with_id(ks, id, i) {
        let i = choose|i: int| first_with_id(ks, id, i);
        ks.update(i, change(ks[i]))
    } else {
        ks
    }
}

/// Flip a keybind's cycle flag.
pub open spec fn flip_cycle(k: Keybind) -> Keybind {
    Keybind { cycle_enabled: !k.cycle_enabled, ..k }
}

/// Flip a keybind's bypass flag.
pub open spec fn flip_bypass(k: Keybind) -> Keybind {
    Keybind { bypass_trigger: !k.bypass_trigger, ..k }
}

fn toggle_keybind(keybinds: &mut Vec<Keybind>, id: &str, bypass: bool)
    ensures
        final(keybinds)@ == keybind_changed(
            old(keybinds)@,
            id@,
            if bypass {
                |k: Keybind| flip_bypass(k)
            } else {
                |k: Keybind| flip_cycle(k)
            },
        ),
{
    match find_keybind(keybinds.as_slice(), id) {
        Some(i) => {
            proof {
                let j = choose|i: int| first_with_id(old(keybinds)@, id@, i);
                lemma_first_id_unique(old(keybinds)@, id@, i as int, j);
            }
            let b = &keybinds[i];
            let k = Keybind {
                id: b.id.clone(),
                modifiers: b.modifiers,
                vk: b.vk,
                action: b.action,
                cycle_enabled: if bypass { b.cycle_enabled } else { !b.cycle_enabled },
                bypass_trigger: if bypass { !b.bypass_trigger } else { b.bypass_trigger },
            };
            keybinds.set(i, k);
        },
        None => {
            proof {
                lemma_no_first_id(keybinds@, id@);
            }
        },
    }
}

/// Set the action of the first keybind with `id` to the first action
/// named `name`; nothing changes when either is missing.
pub open spec fn keybind_action_set(ks: Seq<Keybind>, id: Seq<char>, name: Seq<char>) -> Seq<
    Keybind,
> {
    if exists|n: nat| first_action_named(name, n) {
        let a = action_with_number(choose|n: nat| first_action_named(name, n));
        keybind_changed(ks, id, |k: Keybind| Keybind { action: a, ..k })
    } else {
        ks
    }
}

fn set_keybind_action(keybinds: &mut Vec<Keybind>, id: &str, name: &str)
    ensures
        final(keybinds)@ == keybind_action_set(old(keybinds)@, id@, name@),
{
    match find_keybind(keybinds.as_slice(), id) {
        Some(i) => {
            match action_named(name) {
                Some(action) => {
                    proof {
                        let j = choose|i: int| first_with_id(old(keybinds)@, id@, i);
                        lemma_first_id_unique(old(keybinds)@, id@, i as int, j);
                        let n = choose|n: nat|
                            first_action_named(name@, n) && action == action_with_number(n);
                        let m = choose|n: nat| first_action_named(name@, n);
                        lemma_first_action_unique(name@, n, m);
                    }
                    let b = &keybinds[i];
                    let k = Keybind {
                        id: b.id.clone(),
                        modifiers: b.modifiers,
                        vk: b.vk,
                        action,
                        cycle_enabled: b.cycle_enabled,
                        bypass_trigger: b.bypass_trigger,
                    };
                    keybinds.set(i, k);
                },
                None => {},
            }
        },
        None => {
            proof {
                lemma_no_first_id(keybinds@, id@);
            }
        },
    }
}

/// The keybinds whose id is not `id`, in order.
pub open spec fn without_id(ks: Seq<Keybind>, id: Seq<char>) -> Seq<Keybind>
    decreases ks.len(),
{
    if ks.len() == 0 {
        ks
    } else if ks.last().id@ == id {
        without_id(ks.drop_last(), id)
    } else {
        without_id(ks.drop_last(), id).push(ks.last())
    }
}

fn delete_keybind(keybinds: &mut Vec<Keybind>, id: &str)
    ensures
        final(keybinds)@ == without_id(old(keybinds)@, id@),
{
    let mut out: Vec<Keybind> = Vec::new();
    let mut i: usize = 0;
    assert(keybinds@.take(0) =~= Seq::<Keybind>::empty());
    while i < keybinds.len()
        invariant
            i <= keybinds.len(),
            out@ == without_id(keybinds@.take(i as int), id@),
        decreases keybinds.len() - i,
    {
        assert(keybinds@.take(i as int + 1).drop_last() =~= keybinds@.take(i as int));
        let b = &keybinds[i];
        if !text_eq(b.id.as_str(), id) {
            out.push(
                Keybind {
                    id: b.id.clone(),
                    modifiers: b.modifiers,
                    vk: b.vk,
                    action: b.action,
                    cycle_enabled: b.cycle_enabled,
                    bypass_trigger: b.bypass_trigger,
                },
            );
        }
        i = i + 1;
    }
    assert(keybinds@.take(keybinds.len() as int) =~= keybinds@);
    *keybinds = out;
}

/// Only the slot at `slot` (or the center) may differ, and `change` relates
/// its old and new value when it is in range.
pub open spec fn target_changed(
    old: AppSettings,
    new: AppSettings,
    slot: Option<usize>,
    change: spec_fn(RadialTargetSettings, RadialTargetSettings) -> bool,
) -> bool {
    &&& AppSettings { radial_slots: new.radial_slots, center_target: new.center_target, ..old }
        == new
    &&& match slot {
        Some(index) => {
            &&& new.center_target == old.center_target
            &&& new.radial_slots@.len() == old.radial_slots@.len()
            &&& forall|j: int|
                0 <= j < new.radial_slots@.len() && j != index ==> #[trigger] new.radial_slots@[j]
                    == old.radial_slots@[j]
            &&& index < old.radial_slots@.len() ==> change(
                old.radial_slots@[index as int],
                new.radial_slots@[index as int],
            )
            &&& index >= old.radial_slots@.len() ==> new.radial_slots@ == old.radial_slots@
        },
        None => {
            &&& new.radial_slots@ == old.radial_slots@
            &&& change(old.center_target, new.center_target)
        },
    }
}

/// A target with its cycle flag flipped, unless it is empty.
pub open spec fn cycle_toggled(t: RadialTargetSettings) -> RadialTargetSettings {
    if t.kind == RadialTargetKind::Nothing {
        t
    } else {
        RadialTargetSettings { cycle_enabled: !t.cycle_enabled, ..t }
    }
}

fn toggle_target_cycle(t: &RadialTargetSettings) -> (r: RadialTargetSettings)
    ensures
        r == cycle_toggled(*t),
{
    RadialTargetSettings {
        kind: t.kind,
        action: t.action,
        keybind_id: t.keybind_id.clone(),
        cycle_enabled: if t.kind == RadialTargetKind::Nothing {
            t.cycle_enabled
        } else {
            !t.cycle_enabled
        },
    }
}

/// The settings with one color field replaced.
pub open spec fn color_set(old: AppSettings, new: AppSettings, field: ColorField, value: Seq<
    char,
>) -> bool {
    match field {
        ColorField::Accent => new.accent_color@ == value && AppSettings {
            accent_color: new.accent_color,
            ..old
        } == new,
        ColorField::SectorFill => new.radial_sector_fill@ == value && AppSettings {
            radial_sector_fill: new.radial_sector_fill,
            ..old
        } == new,
        ColorField::SectorStroke => new.radial_sector_stroke@ == value && AppSettings {
            radial_sector_stroke: new.radial_sector_stroke,
            ..old
        } == new,
        ColorField::RingFill => new.radial_ring_fill@ == value && AppSettings {
            radial_ring_fill: new.radial_ring_fill,
            ..old
        } == new,
        ColorField::PreviewBorder => new.preview_border_color@ == value && AppSettings {
            preview_border_color: new.preview_border_color,
            ..old
        } == new,
    }
}

fn set_color(settings: &mut AppSettings, field: ColorField, value: String)
    ensures
        color_set(*old(settings), *final(settings), field, value@),
{
    match field {
        ColorField::Accent => settings.accent_color = value,
        ColorField::SectorFill => settings.radial_sector_fill = value,
        ColorField::SectorStroke => settings.radial_sector_stroke = value,
        ColorField::RingFill => settings.radial_ring_fill = value,
        ColorField::PreviewBorder => settings.preview_border_color = value,
    }
}

/// The five colors of the preset at `i`.
pub open spec fn preset_colors_set(new: AppSettings, i: int) -> bool {
    &&& new.accent_color@ == preset_at(i).accent@
    &&& new.radial_sector_fill@ == preset_at(i).sector_fill@
    &&& new.radial_sector_stroke@ == preset_at(i).sector_stroke@
    &&& new.radial_ring_fill@ == preset_at(i).ring_fill@
    &&& new.preview_border_color@ == preset_at(i).preview_border@
}

/// Only the five colors differ.
pub open spec fn only_colors_differ(old: AppSettings, new: AppSettings) -> bool {
    AppSettings {
        accent_color: new.accent_color,
        radial_sector_fill: new.radial_sector_fill,
        radial_sector_stroke: new.radial_sector_stroke,
        radial_ring_fill: new.radial_ring_fill,
        preview_border_color: new.preview_border_color,
        ..old
    } == new
}

/// `i` is the first preset named `name`.
pub open spec fn first_preset_named(name: Seq<char>, i: int) -> bool {
    &&& 0 <= i < 3
    &&& preset_at(i).name@ == name
    &&& forall|j: int| 0 <= j < i ==> (#[trigger] preset_at(j)).name@ != name
}

fn apply_preset(settings: &mut AppSettings, name: &str) -> (found: bool)
    ensures
        found == exists|i: int| first_preset_named(name@, i),
        found ==> exists|i: int|
            first_preset_named(name@, i) && preset_colors_set(*final(settings), i),
        only_colors_differ(*old(settings), *final(settings)),
        !found ==> *final(settings) == *old(settings),
{
    let mut k: usize = 0;
    while k < PRESET_COUNT
        invariant
            k <= PRESET_COUNT,
            *settings == *old(settings),
            forall|j: int| 0 <= j < k ==> (#[trigger] preset_at(j)).name@ != name@,
        decreases PRESET_COUNT - k,
    {
        let p = preset(k);
        if text_eq(p.name, name) {
            settings.accent_color = owned(p.accent);
            settings.radial_sector_fill = owned(p.sector_fill);
            settings.radial_sector_stroke = owned(p.sector_stroke);
            settings.radial_ring_fill = owned(p.ring_fill);
            settings.preview_border_color = owned(p.preview_border);
            assert(first_preset_named(name@, k as int));
            return true;
        }
        k = k + 1;
    }
    assert forall|i: int| !first_preset_named(name@, i) by {
        if 0 <= i < 3 {
            assert(preset_at(i).name@ != name@);
        }
    }
    false
}

/// The settings after resetting one section to its defaults.
pub open spec fn section_reset(old: AppSettings, new: AppSettings, section: Section) -> bool {
    match section {
        Section::General => new == AppSettings {
            trigger_vk: VK_CAPITAL,
            trigger_modifiers: 0,
            trigger_modifier_side: TriggerModifierSide::Any,
            trigger_delay_ms: 0,
            trigger_timeout_ms: 0,
            double_click_to_trigger: false,
            middle_click_to_trigger: false,
            launch_at_login: false,
            ..old
        },
        Section::Radial => {
            &&& new == AppSettings {
                radial_enabled: true,
                cursor_interaction_enabled: true,
                radial_outer_radius_bits: DEFAULT_OUTER_RADIUS_BITS,
                radial_inner_radius_bits: DEFAULT_INNER_RADIUS_BITS,
                radial_slots: new.radial_slots,
                center_target: new.center_target,
                ..old
            }
            &&& target_views(new.radial_slots@) == default_slot_views()
            &&& new.center_target@ == none_target()
        },
        Section::Preview => {
            &&& new == AppSettings {
                preview_enabled: true,
                preview_padding_bits: DEFAULT_PREVIEW_PADDING_BITS,
                preview_corner_radius_bits: DEFAULT_PREVIEW_RADIUS_BITS,
                preview_border_width_bits: DEFAULT_PREVIEW_BORDER_BITS,
                preview_border_color: new.preview_border_color,
                drag_snap_enabled: true,
                drag_snap_threshold: 24,
                restore_pre_drag_on_cancel: true,
                stash_persistence_enabled: true,
                stash_peek: 8,
                stash_hit_zone: 14,
                stash_reveal_delay_ms: 80,
                ..old
            }
            &&& new.preview_border_color@ == "#B83D9BFF"@
        },
        Section::Appearance => {
            &&& only_colors_differ(
                AppSettings { appearance_mode: new.appearance_mode, ..old },
                new,
            )
            &&& new.appearance_mode@ == "Dark"@
            &&& new.accent_color@ == "#3D9BFF"@
            &&& new.radial_sector_fill@ == "#7A3D9BFF"@
            &&& new.radial_sector_stroke@ == "#F03D9BFF"@
            &&& new.radial_ring_fill@ == "#B61B212B"@
            &&& new.preview_border_color@ == "#B83D9BFF"@
        },
        Section::Advanced => {
            &&& new == AppSettings {
                keybinds: new.keybinds,
                monitor_move_policy: MonitorMoveSizePolicy::PreservePixels,
                global_padding: 0,
                padding_left: 0,
                padding_top: 0,
                padding_right: 0,
                padding_bottom: 0,
                excluded_executables: new.excluded_executables,
                excluded_processes: new.excluded_processes,
                ..old
            }
            &&& new.keybinds@.len() == 0
            &&& new.excluded_executables@.len() == 0
            &&& new.excluded_processes@.len() == 0
        },
    }
}

fn reset_general(settings: &mut AppSettings)
    ensures
        section_reset(*old(settings), *final(settings), Section::General),
{
    settings.trigger_vk = VK_CAPITAL;
    settings.trigger_modifiers = 0;
    settings.trigger_modifier_side = TriggerModifierSide::Any;
    settings.trigger_delay_ms = 0;
    settings.trigger_timeout_ms = 0;
    settings.double_click_to_trigger = false;
    settings.middle_click_to_trigger = false;
    settings.launch_at_login = false;
}

fn reset_radial(settings: &mut AppSettings)
    ensures
        section_reset(*old(settings), *final(settings), Section::Radial),
{
    let defaults = AppSettings::default();
    settings.radial_enabled = defaults.radial_enabled;
    settings.cursor_interaction_enabled = defaults.cursor_interaction_enabled;
    settings.radial_outer_radius_bits = defaults.radial_outer_radius_bits;
    settings.radial_inner_radius_bits = defaults.radial_inner_radius_bits;
    settings.radial_slots = defaults.radial_slots;
    settings.center_target = defaults.center_target;
}

fn reset_preview(settings: &mut AppSettings)
    ensures
        section_reset(*old(settings), *final(settings), Section::Preview),
{
    let defaults = AppSettings::default();
    settings.preview_enabled = defaults.preview_enabled;
    settings.preview_padding_bits = defaults.preview_padding_bits;
    settings.preview_corner_radius_bits = defaults.preview_corner_radius_bits;
    settings.preview_border_width_bits = defaults.preview_border_width_bits;
    settings.preview_border_color = defaults.preview_border_color;
    settings.drag_snap_enabled = defaults.drag_snap_enabled;
    settings.drag_snap_threshold = defaults.drag_snap_threshold;
    settings.restore_pre_drag_on_cancel = defaults.restore_pre_drag_on_cancel;
    settings.stash_persistence_enabled = defaults.stash_persistence_enabled;
    settings.stash_peek = defaults.stash_peek;
    settings.stash_hit_zone = defaults.stash_hit_zone;
    settings.stash_reveal_delay_ms = defaults.stash_reveal_delay_ms;
}

fn reset_appearance(settings: &mut AppSettings)
    ensures
        section_reset(*old(settings), *final(settings), Section::Appearance),
{
    let defaults = AppSettings::default();
    settings.appearance_mode = defaults.appearance_mode;
    settings.accent_color = defaults.accent_color;
    settings.radial_sector_fill = defaults.radial_sector_fill;
    settings.radial_sector_stroke = defaults.radial_sector_stroke;
    settings.radial_ring_fill = defaults.radial_ring_fill;
    settings.preview_border_color = defaults.preview_border_color;
}

fn reset_advanced(settings: &mut AppSettings)
    ensures
        section_reset(*old(settings), *final(settings), Section::Advanced),
{
    let defaults = AppSettings::default();
    settings.keybinds = defaults.keybinds;
    settings.monitor_move_policy = defaults.monitor_move_policy;
    settings.global_padding = defaults.global_padding;
    settings.padding_left = defaults.padding_left;
    settings.padding_top = defaults.padding_top;
    settings.padding_right = defaults.padding_right;
    settings.padding_bottom = defaults.padding_bottom;
    settings.excluded_executables = defaults.excluded_executables;
    settings.excluded_processes = defaults.excluded_processes;
}

/// Reset one section of the settings to factory defaults.
pub fn reset_section(settings: &mut AppSettings, section: Section)
    ensures
        section_reset(*old(settings), *final(settings), section),
{
    match section {
        Section::General => reset_general(settings),
        Section::Radial => reset_radial(settings),
        Section::Preview => reset_preview(settings),
        Section::Appearance => reset_appearance(settings),
        Section::Advanced => reset_advanced(settings),
    }
}

fn set_target(
    settings: &mut AppSettings,
    slot: Option<usize>,
    target: RadialTargetSettings,
)
    ensures
        target_changed(
            *old(settings),
            *final(settings),
            slot,
            |o: RadialTargetSettings, n: RadialTargetSettings| n == target,
        ),
{
    match slot {
        Some(index) => {
            if index < settings.radial_slots.len() {
                settings.radial_slots.set(index, target);
            }
        },
        None => {
            settings.center_target = target;
        },
    }
}

fn toggle_radial_cycle(settings: &mut AppSettings, slot: Option<usize>)
    ensures
        target_changed(
            *old(settings),
            *final(settings),
            slot,
            |o: RadialTargetSettings, n: RadialTargetSettings| n == cycle_toggled(o),
        ),
{
    match slot {
        Some(index) => {
            if index < settings.radial_slots.len() {
                let t = toggle_target_cycle(&settings.radial_slots[index]);
                settings.radial_slots.set(index, t);
            }
        },
        None => {
            let t = toggle_target_cycle(&settings.center_target);
            settings.center_target = t;
        },
    }
}

/// The name of a color field in the color-error line.
pub open spec fn color_field_name(field: ColorField) -> Seq<char> {
    match field {
        ColorField::Accent => "accent"@,
        ColorField::SectorFill => "sector_fill"@,
        ColorField::SectorStroke => "sector_stroke"@,
        ColorField::RingFill => "ring_fill"@,
        ColorField::PreviewBorder => "preview_border"@,
    }
}

fn field_name(field: ColorField) -> (s: &'static str)
    ensures
        s@ == color_field_name(field),
{
    match field {
        ColorField::Accent => "accent",
        ColorField::SectorFill => "sector_fill",
        ColorField::SectorStroke => "sector_stroke",
        ColorField::RingFill => "ring_fill",
        ColorField::PreviewBorder => "preview_border",
    }
}

/// Store an edited color as typed once it reads as a color: the value is
/// checked by normalizing it against a fallback that is not a color, and
/// the saved file gets the canonical form on commit. Since a normalized
/// color always starts with `#`, the check never rejects; the result is
/// the error line to show, `None` when the edit was taken.
pub fn apply_color_edit(settings: &mut AppSettings, field: ColorField, value: String) -> (error:
    Option<String>)
    ensures
        error is None,
        color_set(*old(settings), *final(settings), field, value@),
{
    let normalized = normalize_color(value.as_str(), "__invalid__");
    if text_eq(normalized.as_str(), "__invalid__") {
        proof {
            crate::settings::color::lemma_normalized_starts_with_hash(value@, "__invalid__"@);
            reveal_strlit("__invalid__");
            assert(normalized@[0] != "__invalid__"@[0]);
        }
        let mut out: Vec<char> = Vec::new();
        crate::text::push_str(&mut out, field_name(field));
        crate::text::push_str(&mut out, ": use #RRGGBB or #AARRGGBB.");
        return Some(string_of(out.as_slice()));
    }
    set_color(settings, field, value);
    None
}

/// An edit whose arithmetic stays within `i32`.
pub open spec fn edit_defined(s: AppSettings, e: SettingsEdit) -> bool {
    match e {
        SettingsEdit::NudgeDelay(d) => fits_i32(s.trigger_delay_ms + d),
        SettingsEdit::NudgeTimeout(d) => fits_i32(s.trigger_timeout_ms + d),
        SettingsEdit::NudgeStashPeek(d) => fits_i32(s.stash_peek + d),
        SettingsEdit::NudgeStashHitZone(d) => fits_i32(s.stash_hit_zone + d),
        SettingsEdit::NudgeStashDelay(d) => fits_i32(s.stash_reveal_delay_ms + d),
        SettingsEdit::NudgeGlobalPadding(d) => fits_i32(s.global_padding + d),
        SettingsEdit::NudgePaddingLeft(d) => fits_i32(s.padding_left + d),
        SettingsEdit::NudgePaddingTop(d) => fits_i32(s.padding_top + d),
        SettingsEdit::NudgePaddingRight(d) => fits_i32(s.padding_right + d),
        SettingsEdit::NudgePaddingBottom(d) => fits_i32(s.padding_bottom + d),
        _ => true,
    }
}

/// The status an edit is committed with: trigger edits say so, resets say
/// so, a preset that does not exist commits nothing, all else is saved.
pub open spec fn commit_status_of(s: AppSettings, e: SettingsEdit) -> Option<Seq<char>> {
    match e {
        SettingsEdit::SetModifierSide(_) | SettingsEdit::NudgeDelay(_)
        | SettingsEdit::NudgeTimeout(_) | SettingsEdit::SetDoubleClick(_)
        | SettingsEdit::SetMiddleClick(_) => Some("Trigger updated"@),
        SettingsEdit::ApplyPreset(name) => if exists|i: int| first_preset_named(name@, i) {
            Some("Saved"@)
        } else {
            None
        },
        SettingsEdit::ResetSection(_) | SettingsEdit::ResetAll => Some("Reset complete"@),
        _ => Some("Saved"@),
    }
}

/// Whether an edit clears the color-error line: applying an existing
/// preset, editing a color, resetting the appearance or everything.
pub open spec fn clears_color_error(e: SettingsEdit) -> bool {
    match e {
        SettingsEdit::ApplyPreset(name) => exists|i: int| first_preset_named(name@, i),
        SettingsEdit::EditColor(_, _) => true,
        SettingsEdit::ResetSection(section) => section == Section::Appearance,
        SettingsEdit::ResetAll => true,
        _ => false,
    }
}

/// The settings an edit leaves.
pub open spec fn edit_result(old: AppSettings, e: SettingsEdit, new: AppSettings) -> bool {
    match e {
        SettingsEdit::SetModifierSide(side) => new == AppSettings {
            trigger_modifier_side: side_named(side@),
            ..old
        },
        SettingsEdit::ToggleKeybindCycle(id) => {
            &&& AppSettings { keybinds: new.keybinds, ..old } == new
            &&& new.keybinds@ == keybind_changed(old.keybinds@, id@, |k: Keybind| flip_cycle(k))
        },
        SettingsEdit::ToggleKeybindBypass(id) => {
            &&& AppSettings { keybinds: new.keybinds, ..old } == new
            &&& new.keybinds@ == keybind_changed(old.keybinds@, id@, |k: Keybind| flip_bypass(k))
        },
        SettingsEdit::NudgeDelay(d) => new == AppSettings {
            trigger_delay_ms: clamp_range(old.trigger_delay_ms + d, 0, 1000) as i32,
            ..old
        },
        SettingsEdit::NudgeTimeout(d) => new == AppSettings {
            trigger_timeout_ms: clamp_range(old.trigger_timeout_ms + d, 0, 10_000) as i32,
            ..old
        },
        SettingsEdit::SetDoubleClick(v) => new == AppSettings { double_click_to_trigger: v, ..old },
        SettingsEdit::SetMiddleClick(v) => new == AppSettings { middle_click_to_trigger: v, ..old },
        SettingsEdit::SetRadialEnabled(v) => new == AppSettings { radial_enabled: v, ..old },
        SettingsEdit::SetCursorInteraction(v) => new == AppSettings {
            cursor_interaction_enabled: v,
            ..old
        },
        SettingsEdit::SetOuterRadius(b) => new == AppSettings { radial_outer_radius_bits: b, ..old },
        SettingsEdit::SetInnerRadius(b) => new == AppSettings { radial_inner_radius_bits: b, ..old },
        SettingsEdit::SetRadialTarget(slot, choice) => target_changed(
            old,
            new,
            slot,
            |o: RadialTargetSettings, n: RadialTargetSettings|
                n@ == target_from_choice(old.keybinds@, choice@),
        ),
        SettingsEdit::ToggleRadialCycle(slot) => target_changed(
            old,
            new,
            slot,
            |o: RadialTargetSettings, n: RadialTargetSettings| n == cycle_toggled(o),
        ),
        SettingsEdit::ClearWedge(index) => target_changed(
            old,
            new,
            Some(index),
            |o: RadialTargetSettings, n: RadialTargetSettings| n@ == none_target(),
        ),
        SettingsEdit::SetPreviewEnabled(v) => new == AppSettings { preview_enabled: v, ..old },
        SettingsEdit::SetDragSnap(v) => new == AppSettings { drag_snap_enabled: v, ..old },
        SettingsEdit::SetPreviewPadding(b) => new == AppSettings { preview_padding_bits: b, ..old },
        SettingsEdit::SetPreviewRadius(b) => new == AppSettings {
            preview_corner_radius_bits: b,
            ..old
        },
        SettingsEdit::SetPreviewBorder(b) => new == AppSettings {
            preview_border_width_bits: b,
            ..old
        },
        SettingsEdit::SetSnapThreshold(v) => new == AppSettings { drag_snap_threshold: v, ..old },
        SettingsEdit::SetRestoreOnCancel(v) => new == AppSettings {
            restore_pre_drag_on_cancel: v,
            ..old
        },
        SettingsEdit::SetStashPersistence(v) => new == AppSettings {
            stash_persistence_enabled: v,
            ..old
        },
        SettingsEdit::NudgeStashPeek(d) => new == AppSettings {
            stash_peek: clamp_range(old.stash_peek + d, 1, 48) as i32,
            ..old
        },
        SettingsEdit::NudgeStashHitZone(d) => new == AppSettings {
            stash_hit_zone: clamp_range(old.stash_hit_zone + d, 1, 96) as i32,
            ..old
        },
        SettingsEdit::NudgeStashDelay(d) => new == AppSettings {
            stash_reveal_delay_ms: clamp_range(old.stash_reveal_delay_ms + d, 0, 2000) as i32,
            ..old
        },
        SettingsEdit::SetAppearanceMode(mode) => new == AppSettings { appearance_mode: mode, ..old },
        SettingsEdit::ApplyPreset(name) => {
            &&& only_colors_differ(old, new)
            &&& if exists|i: int| first_preset_named(name@, i) {
                exists|i: int| first_preset_named(name@, i) && preset_colors_set(new, i)
            } else {
                new == old
            }
        },
        SettingsEdit::EditColor(field, value) => color_set(old, new, field, value@),
        SettingsEdit::AddKeybind => {
            &&& AppSettings { keybinds: new.keybinds, ..old } == new
            &&& new.keybinds@.len() == old.keybinds@.len() + 1
            &&& new.keybinds@.drop_last() == old.keybinds@
            &&& is_generated_id(new.keybinds@.last().id@)
            &&& new.keybinds@.last().modifiers == 0
            &&& new.keybinds@.last().vk == crate::engine::hotkey::VK_SPACE
            &&& new.keybinds@.last().action == WindowAction::RightHalf
            &&& new.keybinds@.last().cycle_enabled
            &&& !new.keybinds@.last().bypass_trigger
        },
        SettingsEdit::DeleteKeybind(id) => {
            &&& AppSettings { keybinds: new.keybinds, ..old } == new
            &&& new.keybinds@ == without_id(old.keybinds@, id@)
        },
        SettingsEdit::SetKeybindAction(id, name) => {
            &&& AppSettings { keybinds: new.keybinds, ..old } == new
            &&& new.keybinds@ == keybind_action_set(old.keybinds@, id@, name@)
        },
        SettingsEdit::SetMonitorPolicy(p) => new == AppSettings {
            monitor_move_policy: policy_named(p@),
            ..old
        },
        SettingsEdit::NudgeGlobalPadding(d) => new == AppSettings {
            global_padding: clamp_range(old.global_padding + d, 0, 128) as i32,
            ..old
        },
        SettingsEdit::NudgePaddingLeft(d) => new == AppSettings {
            padding_left: clamp_range(old.padding_left + d, 0, 128) as i32,
            ..old
        },
        SettingsEdit::NudgePaddingTop(d) => new == AppSettings {
            padding_top: clamp_range(old.padding_top + d, 0, 128) as i32,
            ..old
        },
        SettingsEdit::NudgePaddingRight(d) => new == AppSettings {
            padding_right: clamp_range(old.padding_right + d, 0, 128) as i32,
            ..old
        },
        SettingsEdit::NudgePaddingBottom(d) => new == AppSettings {
            padding_bottom: clamp_range(old.padding_bottom + d, 0, 128) as i32,
            ..old
        },
        SettingsEdit::EditExcludedExecutables(t) => {
            &&& AppSettings { excluded_executables: new.excluded_executables, ..old } == new
            &&& texts(new.excluded_executables@) == list_entries(t@)
        },
        SettingsEdit::EditExcludedProcesses(t) => {
            &&& AppSettings { excluded_processes: new.excluded_processes, ..old } == new
            &&& texts(new.excluded_processes@) == list_entries(t@)
        },
        SettingsEdit::ResetSection(section) => section_reset(old, new, section),
        SettingsEdit::ResetAll => is_default(new),
    }
}

fn side_from(side: &str) -> (s: TriggerModifierSide)
    ensures
        s == side_named(side@),
{
    if text_eq(side, "Left") {
        TriggerModifierSide::Left
    } else if text_eq(side, "Right") {
        TriggerModifierSide::Right
    } else {
        TriggerModifierSide::Any
    }
}

fn policy_from(policy: &str) -> (p: MonitorMoveSizePolicy)
    ensures
        p == policy_named(policy@),
{
    if text_eq(policy, "PreserveLogicalSize") {
        MonitorMoveSizePolicy::PreserveLogicalSize
    } else {
        MonitorMoveSizePolicy::PreservePixels
    }
}

fn saved() -> (o: EditOutcome)
    ensures
        o.commit_status matches Some(s) && s@ == "Saved"@,
        o.color_error is None,
{
    EditOutcome { commit_status: Some("Saved"), color_error: None }
}

fn trigger_updated() -> (o: EditOutcome)
    ensures
        o.commit_status matches Some(s) && s@ == "Trigger updated"@,
        o.color_error is None,
{
    EditOutcome { commit_status: Some("Trigger updated"), color_error: None }
}

fn apply_trigger_edit(settings: &mut AppSettings, edit: SettingsEdit) -> (o: EditOutcome)
    requires
        edit_defined(*old(settings), edit),
        edit is SetModifierSide || edit is NudgeDelay || edit is NudgeTimeout || edit is SetDoubleClick || edit is SetMiddleClick,
    ensures
        edit_result(*old(settings), edit, *final(settings)),
        match o.commit_status {
            Some(s) => commit_status_of(*old(settings), edit) == Some(s@),
            None => commit_status_of(*old(settings), edit) is None,
        },
        clears_color_error(edit) ==> o.color_error matches Some(None),
        !clears_color_error(edit) ==> o.color_error is None,
{
    match edit {
        SettingsEdit::SetModifierSide(side) => {
            settings.trigger_modifier_side = side_from(side.as_str());
            trigger_updated()
        },
        SettingsEdit::NudgeDelay(d) => {
            settings.trigger_delay_ms = nudge(settings.trigger_delay_ms, d, 0, 1000);
            trigger_updated()
        },
        SettingsEdit::NudgeTimeout(d) => {
            settings.trigger_timeout_ms = nudge(settings.trigger_timeout_ms, d, 0, 10_000);
            trigger_updated()
        },
        SettingsEdit::SetDoubleClick(v) => {
            settings.double_click_to_trigger = v;
            trigger_updated()
        },
        SettingsEdit::SetMiddleClick(v) => {
            settings.middle_click_to_trigger = v;
            trigger_updated()
        },
        _ => saved(),
    }
}

fn apply_keybind_edit(settings: &mut AppSettings, edit: SettingsEdit) -> (o: EditOutcome)
    requires
        edit_defined(*old(settings), edit),
        edit is ToggleKeybindCycle || edit is ToggleKeybindBypass || edit is AddKeybind || edit is DeleteKeybind || edit is SetKeybindAction,
    ensures
        edit_result(*old(settings), edit, *final(settings)),
        match o.commit_status {
            Some(s) => commit_status_of(*old(settings), edit) == Some(s@),
            None => commit_status_of(*old(settings), edit) is None,
        },
        clears_color_error(edit) ==> o.color_error matches Some(None),
        !clears_color_error(edit) ==> o.color_error is None,
{
    match edit {
        SettingsEdit::ToggleKeybindCycle(id) => {
            toggle_keybind(&mut settings.keybinds, id.as_str(), false);
            saved()
        },
        SettingsEdit::ToggleKeybindBypass(id) => {
            toggle_keybind(&mut settings.keybinds, id.as_str(), true);
            saved()
        },
        SettingsEdit::AddKeybind => {
            settings.keybinds.push(Keybind::default());
            assert(settings.keybinds@.drop_last() =~= old(settings).keybinds@);
            saved()
        },
        SettingsEdit::DeleteKeybind(id) => {
            delete_keybind(&mut settings.keybinds, id.as_str());
            saved()
        },
        SettingsEdit::SetKeybindAction(id, name) => {
            set_keybind_action(&mut settings.keybinds, id.as_str(), name.as_str());
            saved()
        },
        _ => saved(),
    }
}

fn apply_radial_edit(settings: &mut AppSettings, edit: SettingsEdit) -> (o: EditOutcome)
    requires
        edit_defined(*old(settings), edit),
        edit is SetRadialEnabled || edit is SetCursorInteraction || edit is SetOuterRadius || edit is SetInnerRadius || edit is SetRadialTarget || edit is ToggleRadialCycle || edit is ClearWedge,
    ensures
        edit_result(*old(settings), edit, *final(settings)),
        match o.commit_status {
            Some(s) => commit_status_of(*old(settings), edit) == Some(s@),
            None => commit_status_of(*old(settings), edit) is None,
        },
        clears_color_error(edit) ==> o.color_error matches Some(None),
        !clears_color_error(edit) ==> o.color_error is None,
{
    match edit {
        SettingsEdit::SetRadialEnabled(v) => {
            settings.radial_enabled = v;
            saved()
        },
        SettingsEdit::SetCursorInteraction(v) => {
            settings.cursor_interaction_enabled = v;
            saved()
        },
        SettingsEdit::SetOuterRadius(b) => {
            settings.radial_outer_radius_bits = b;
            saved()
        },
        SettingsEdit::SetInnerRadius(b) => {
            settings.radial_inner_radius_bits = b;
            saved()
        },
        SettingsEdit::SetRadialTarget(slot, choice) => {
            let target = radial_target_from_choice(settings, choice.as_str());
            set_target(settings, slot, target);
            saved()
        },
        SettingsEdit::ToggleRadialCycle(slot) => {
            toggle_radial_cycle(settings, slot);
            saved()
        },
        SettingsEdit::ClearWedge(index) => {
            set_target(settings, Some(index), RadialTargetSettings::none());
            saved()
        },
        _ => saved(),
    }
}

fn apply_preview_edit(settings: &mut AppSettings, edit: SettingsEdit) -> (o: EditOutcome)
    requires
        edit_defined(*old(settings), edit),
        edit is SetPreviewEnabled || edit is SetDragSnap || edit is SetPreviewPadding || edit is SetPreviewRadius || edit is SetPreviewBorder || edit is SetSnapThreshold || edit is SetRestoreOnCancel || edit is SetStashPersistence || edit is NudgeStashPeek || edit is NudgeStashHitZone || edit is NudgeStashDelay,
    ensures
        edit_result(*old(settings), edit, *final(settings)),
        match o.commit_status {
            Some(s) => commit_status_of(*old(settings), edit) == Some(s@),
            None => commit_status_of(*old(settings), edit) is None,
        },
        clears_color_error(edit) ==> o.color_error matches Some(None),
        !clears_color_error(edit) ==> o.color_error is None,
{
    match edit {
        SettingsEdit::SetPreviewEnabled(v) => {
            settings.preview_enabled = v;
            saved()
        },
        SettingsEdit::SetDragSnap(v) => {
            settings.drag_snap_enabled = v;
            saved()
        },
        SettingsEdit::SetPreviewPadding(b) => {
            settings.preview_padding_bits = b;
            saved()
        },
        SettingsEdit::SetPreviewRadius(b) => {
            settings.preview_corner_radius_bits = b;
            saved()
        },
        SettingsEdit::SetPreviewBorder(b) => {
            settings.preview_border_width_bits = b;
            saved()
        },
        SettingsEdit::SetSnapThreshold(v) => {
            settings.drag_snap_threshold = v;
            saved()
        },
        SettingsEdit::SetRestoreOnCancel(v) => {
            settings.restore_pre_drag_on_cancel = v;
            saved()
        },
        SettingsEdit::SetStashPersistence(v) => {
            settings.stash_persistence_enabled = v;
            saved()
        },
        SettingsEdit::NudgeStashPeek(d) => {
            settings.stash_peek = nudge(settings.stash_peek, d, 1, 48);
            saved()
        },
        SettingsEdit::NudgeStashHitZone(d) => {
            settings.stash_hit_zone = nudge(settings.stash_hit_zone, d, 1, 96);
            saved()
        },
        SettingsEdit::NudgeStashDelay(d) => {
            settings.stash_reveal_delay_ms = nudge(settings.stash_reveal_delay_ms, d, 0, 2000);
            saved()
        },
        _ => saved(),
    }
}

fn apply_appearance_edit(settings: &mut AppSettings, edit: SettingsEdit) -> (o: EditOutcome)
    requires
        edit_defined(*old(settings), edit),
        edit is SetAppearanceMode || edit is ApplyPreset || edit is EditColor,
    ensures
        edit_result(*old(settings), edit, *final(settings)),
        match o.commit_status {
            Some(s) => commit_status_of(*old(settings), edit) == Some(s@),
            None => commit_status_of(*old(settings), edit) is None,
        },
        clears_color_error(edit) ==> o.color_error matches Some(None),
        !clears_color_error(edit) ==> o.color_error is None,
{
    match edit {
        SettingsEdit::SetAppearanceMode(mode) => {
            settings.appearance_mode = mode;
            saved()
        },
        SettingsEdit::ApplyPreset(name) => {
            if apply_preset(settings, name.as_str()) {
                EditOutcome { commit_status: Some("Saved"), color_error: Some(None) }
            } else {
                EditOutcome { commit_status: None, color_error: None }
            }
        },
        SettingsEdit::EditColor(field, value) => {
            let error = apply_color_edit(settings, field, value);
            EditOutcome { commit_status: Some("Saved"), color_error: Some(error) }
        },
        _ => saved(),
    }
}

fn apply_advanced_edit(settings: &mut AppSettings, edit: SettingsEdit) -> (o: EditOutcome)
    requires
        edit_defined(*old(settings), edit),
        edit is SetMonitorPolicy || edit is NudgeGlobalPadding || edit is NudgePaddingLeft || edit is NudgePaddingTop || edit is NudgePaddingRight || edit is NudgePaddingBottom || edit is EditExcludedExecutables || edit is EditExcludedProcesses,
    ensures
        edit_result(*old(settings), edit, *final(settings)),
        match o.commit_status {
            Some(s) => commit_status_of(*old(settings), edit) == Some(s@),
            None => commit_status_of(*old(settings), edit) is None,
        },
        clears_color_error(edit) ==> o.color_error matches Some(None),
        !clears_color_error(edit) ==> o.color_error is None,
{
    match edit {
        SettingsEdit::SetMonitorPolicy(p) => {
            settings.monitor_move_policy = policy_from(p.as_str());
            saved()
        },
        SettingsEdit::NudgeGlobalPadding(d) => {
            settings.global_padding = nudge(settings.global_padding, d, 0, 128);
            saved()
        },
        SettingsEdit::NudgePaddingLeft(d) => {
            settings.padding_left = nudge(settings.padding_left, d, 0, 128);
            saved()
        },
        SettingsEdit::NudgePaddingTop(d) => {
            settings.padding_top = nudge(settings.padding_top, d, 0, 128);
            saved()
        },
        SettingsEdit::NudgePaddingRight(d) => {
            settings.padding_right = nudge(settings.padding_right, d, 0, 128);
            saved()
        },
        SettingsEdit::NudgePaddingBottom(d) => {
            settings.padding_bottom = nudge(settings.padding_bottom, d, 0, 128);
            saved()
        },
        SettingsEdit::EditExcludedExecutables(t) => {
            settings.excluded_executables = parse_list(t.as_str());
            saved()
        },
        SettingsEdit::EditExcludedProcesses(t) => {
            settings.excluded_processes = parse_list(t.as_str());
            saved()
        },
        _ => saved(),
    }
}

fn apply_reset_edit(settings: &mut AppSettings, edit: SettingsEdit) -> (o: EditOutcome)
    requires
        edit_defined(*old(settings), edit),
        edit is ResetSection || edit is ResetAll,
    ensures
        edit_result(*old(settings), edit, *final(settings)),
        match o.commit_status {
            Some(s) => commit_status_of(*old(settings), edit) == Some(s@),
            None => commit_status_of(*old(settings), edit) is None,
        },
        clears_color_error(edit) ==> o.color_error matches Some(None),
        !clears_color_error(edit) ==> o.color_error is None,
{
    match edit {
        SettingsEdit::ResetSection(section) => {
            reset_section(settings, section);
            EditOutcome {
                commit_status: Some("Reset complete"),
                color_error: if section == Section::Appearance {
                    Some(None)
                } else {
                    None
                },
            }
        },
        SettingsEdit::ResetAll => {
            settings.reset_all();
            EditOutcome { commit_status: Some("Reset complete"), color_error: Some(None) }
        },
        _ => saved(),
    }
}

/// Apply one settings-window edit (see [`edit_result`]) and say how to
/// commit it (see [`commit_status_of`] and [`clears_color_error`]).
pub fn apply_edit(settings: &mut AppSettings, edit: SettingsEdit) -> (o: EditOutcome)
    requires
        edit_defined(*old(settings), edit),
    ensures
        edit_result(*old(settings), edit, *final(settings)),
        match o.commit_status {
            Some(s) => commit_status_of(*old(settings), edit) == Some(s@),
            None => commit_status_of(*old(settings), edit) is None,
        },
        clears_color_error(edit) ==> o.color_error matches Some(None),
        !clears_color_error(edit) ==> o.color_error is None,
{
    match edit {
        SettingsEdit::SetModifierSide(..) | SettingsEdit::NudgeDelay(..) | SettingsEdit::NudgeTimeout(..) | SettingsEdit::SetDoubleClick(..) | SettingsEdit::SetMiddleClick(..) => apply_trigger_edit(
            settings,
            edit,
        ),
        SettingsEdit::ToggleKeybindCycle(..) | SettingsEdit::ToggleKeybindBypass(..) | SettingsEdit::AddKeybind | SettingsEdit::DeleteKeybind(..) | SettingsEdit::SetKeybindAction(..) => apply_keybind_edit(
            settings,
            edit,
        ),
        SettingsEdit::SetRadialEnabled(..) | SettingsEdit::SetCursorInteraction(..) | SettingsEdit::SetOuterRadius(..) | SettingsEdit::SetInnerRadius(..) | SettingsEdit::SetRadialTarget(..) | SettingsEdit::ToggleRadialCycle(..) | SettingsEdit::ClearWedge(..) => apply_radial_edit(
            settings,
            edit,
        ),
        SettingsEdit::SetPreviewEnabled(..) | SettingsEdit::SetDragSnap(..) | SettingsEdit::SetPreviewPadding(..) | SettingsEdit::SetPreviewRadius(..) | SettingsEdit::SetPreviewBorder(..) | SettingsEdit::SetSnapThreshold(..) | SettingsEdit::SetRestoreOnCancel(..) | SettingsEdit::SetStashPersistence(..) | SettingsEdit::NudgeStashPeek(..) | SettingsEdit::NudgeStashHitZone(..) | SettingsEdit::NudgeStashDelay(..) => apply_preview_edit(
            settings,
            edit,
        ),
        SettingsEdit::SetAppearanceMode(..) | SettingsEdit::ApplyPreset(..) | SettingsEdit::EditColor(..) => apply_appearance_edit(
            settings,
            edit,
        ),
        SettingsEdit::SetMonitorPolicy(..) | SettingsEdit::NudgeGlobalPadding(..) | SettingsEdit::NudgePaddingLeft(..) | SettingsEdit::NudgePaddingTop(..) | SettingsEdit::NudgePaddingRight(..) | SettingsEdit::NudgePaddingBottom(..) | SettingsEdit::EditExcludedExecutables(..) | SettingsEdit::EditExcludedProcesses(..) => apply_advanced_edit(
            settings,
            edit,
        ),
        SettingsEdit::ResetSection(..) | SettingsEdit::ResetAll => apply_reset_edit(
            settings,
            edit,
        ),
    }
}

} // verus!
