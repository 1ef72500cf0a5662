//! Field-by-field equality of settings values.

use vstd::prelude::*;
use crate::engine::radial_targets::RadialTargetSettings;
use crate::engine::stash::StashRecord;
use crate::settings::model::{AppSettings, Keybind, keybind_views, target_views};
use crate::engine::radial_targets::{fitted_slots, law_normalize_target_idempotent};
use crate::settings::color::law_canonical_color_is_kept;
use crate::settings::exclusions::{law_exclusions_are_stable, processes_normalized, stable_process_name};
use crate::settings::ids::law_unique_ids_are_kept;
use crate::settings::normalize::{
    MOD_MASK, keybind_id_strings, keybind_view_ids, law_normalized_settings_are_valid,
    lemma_target_by_text, newest_records, normalized_from, record_ids, record_repaired,
    record_views,
};
use crate::text::texts;

verus! {

/// Two settings values hold the same content in every field.
pub open spec fn same_settings(a: AppSettings, b: AppSettings) -> bool {
    &&& a.trigger_vk == b.trigger_vk
    &&& a.trigger_modifiers == b.trigger_modifiers
    &&& a.trigger_modifier_side == b.trigger_modifier_side
    &&& a.trigger_delay_ms == b.trigger_delay_ms
    &&& a.trigger_timeout_ms == b.trigger_timeout_ms
    &&& a.double_click_to_trigger == b.double_click_to_trigger
    &&& a.middle_click_to_trigger == b.middle_click_to_trigger
    &&& keybind_views(a.keybinds@) == keybind_views(b.keybinds@)
    &&& target_views(a.radial_slots@) == target_views(b.radial_slots@)
    &&& a.center_target@ == b.center_target@
    &&& a.launch_at_login == b.launch_at_login
    &&& a.appearance_mode@ == b.appearance_mode@
    &&& a.radial_enabled == b.radial_enabled
    &&& a.cursor_interaction_enabled == b.cursor_interaction_enabled
    &&& a.radial_outer_radius_bits == b.radial_outer_radius_bits
    &&& a.radial_inner_radius_bits == b.radial_inner_radius_bits
    &&& a.preview_enabled == b.preview_enabled
    &&& a.drag_snap_enabled == b.drag_snap_enabled
    &&& a.drag_snap_threshold == b.drag_snap_threshold
    &&& a.restore_pre_drag_on_cancel == b.restore_pre_drag_on_cancel
    &&& a.stash_persistence_enabled == b.stash_persistence_enabled
    &&& a.monitor_move_policy == b.monitor_move_policy
    &&& a.global_padding == b.global_padding
    &&& a.padding_left == b.padding_left
    &&& a.padding_top == b.padding_top
    &&& a.padding_right == b.padding_right
    &&& a.padding_bottom == b.padding_bottom
    &&& texts(a.excluded_executables@) == texts(b.excluded_executables@)
    &&& texts(a.excluded_processes@) == texts(b.excluded_processes@)
    &&& a.stash_peek == b.stash_peek
    &&& a.stash_hit_zone == b.stash_hit_zone
    &&& a.stash_reveal_delay_ms == b.stash_reveal_delay_ms
    &&& record_views(a.stash_records@) == record_views(b.stash_records@)
    &&& a.preview_padding_bits == b.preview_padding_bits
    &&& a.preview_corner_radius_bits == b.preview_corner_radius_bits
    &&& a.preview_border_width_bits == b.preview_border_width_bits
    &&& a.accent_color@ == b.accent_color@
    &&& a.radial_sector_fill@ == b.radial_sector_fill@
    &&& a.radial_sector_stroke@ == b.radial_sector_stroke@
    &&& a.radial_ring_fill@ == b.radial_ring_fill@
    &&& a.preview_border_color@ == b.preview_border_color@
}

/// Normalizing a normalized value again changes nothing. The one
/// exception is a stored process name that is not stable: one with white
/// space at an end (left by a name such as `app .exe`), which the second
/// pass trims further, or one with a `.` (left by `my.app.exe`), whose last
/// extension the second pass drops; such values are left out.
pub proof fn law_normalize_is_idempotent(o: AppSettings, n: AppSettings, m: AppSettings)
    requires
        normalized_from(o, n),
        normalized_from(n, m),
        forall|i: int|
            0 <= i < n.excluded_processes@.len() ==> stable_process_name(
                (#[trigger] n.excluded_processes@[i])@,
            ),
    ensures
        same_settings(m, n),
{
    law_normalized_settings_are_valid(o, n);
    let t = o.trigger_modifiers;
    assert((t & 0xF) & 0xF == t & 0xF) by (bit_vector);
    // Keybinds: ids are unique already, so they are kept; modifiers are
    // already masked.
    let kn = keybind_views(n.keybinds@);
    let km = keybind_views(m.keybinds@);
    law_unique_ids_are_kept(keybind_view_ids(kn), keybind_view_ids(km));
    assert forall|i: int| 0 <= i < km.len() implies #[trigger] km[i] == kn[i] by {
        let x = kn[i].1;
        assert(x <= 0xF ==> x & 0xF == x) by (bit_vector);
        assert(n.keybinds@[i].modifiers <= MOD_MASK);
        assert(keybind_view_ids(km)[i] == keybind_view_ids(kn)[i]);
    }
    assert(km =~= kn);
    // Radial targets: eight already, each normalized against the same ids.
    let ids_n = keybind_id_strings(n.keybinds@);
    let ids_m = keybind_id_strings(m.keybinds@);
    assert(texts(ids_n) =~= texts(ids_m)) by {
        assert forall|i: int| 0 <= i < texts(ids_n).len() implies texts(ids_n)[i]
            == texts(ids_m)[i] by {
            assert(texts(ids_n)[i] == kn[i].0);
            assert(texts(ids_m)[i] == km[i].0);
        }
    }
    let tn = target_views(n.radial_slots@);
    assert(fitted_slots(tn) =~= tn);
    assert forall|i: int| 0 <= i < 8 implies (#[trigger] m.radial_slots@[i])@
        == n.radial_slots@[i]@ by {
        let x = fitted_slots(target_views(o.radial_slots@))[i];
        law_normalize_target_idempotent(x, ids_n);
        lemma_target_by_text(tn[i], ids_m, ids_n);
        assert(tn[i] == n.radial_slots@[i]@);
    }
    assert(target_views(m.radial_slots@) =~= tn);
    law_normalize_target_idempotent(o.center_target@, ids_n);
    lemma_target_by_text(n.center_target@, ids_m, ids_n);
    // Exclusion lists.
    law_exclusions_are_stable(texts(o.excluded_executables@));
    law_exclusions_are_stable(texts(o.excluded_processes@));
    assert forall|i: int|
        0 <= i < processes_normalized(texts(o.excluded_processes@)).len() implies stable_process_name(
        #[trigger] processes_normalized(texts(o.excluded_processes@))[i],
    ) by {
        assert(texts(n.excluded_processes@)[i] == n.excluded_processes@[i]@);
    }
    // Stash records: at most 64, unique ids, usable DPI.
    let rn = record_views(n.stash_records@);
    let rm = record_views(m.stash_records@);
    assert(newest_records(rn) == rn);
    law_unique_ids_are_kept(record_ids(rn), record_ids(rm));
    assert forall|i: int| 0 <= i < rm.len() implies #[trigger] rm[i] == rn[i] by {
        assert(record_repaired(rn[i], rm[i]));
        assert(record_ids(rm)[i] == record_ids(rn)[i]);
        assert(rn[i].7 == n.stash_records@[i].original_monitor);
    }
    assert(rm =~= rn);
    // Colors are canonical already.
    law_canonical_color_is_kept(n.accent_color@, "#007AFF"@);
    law_canonical_color_is_kept(n.radial_sector_fill@, "#7A007AFF"@);
    law_canonical_color_is_kept(n.radial_sector_stroke@, "#F0007AFF"@);
    law_canonical_color_is_kept(n.radial_ring_fill@, "#B61E1E1E"@);
    law_canonical_color_is_kept(n.preview_border_color@, "#B8007AFF"@);
}

fn strings_equal(a: &[String], b: &[String]) -> (r: bool)
    ensures
        r == (texts(a@) == texts(b@)),
{
    if a.len() != b.len() {
        assert(texts(a@).len() != texts(b@).len());
        return false;
    }
    let mut i: usize = 0;
    while i < a.len()
        invariant
            a.len() == b.len(),
            i <= a.len(),
            forall|j: int| 0 <= j < i ==> (#[trigger] a@[j])@ == b@[j]@,
        decreases a.len() - i,
    {
        if a[i] != b[i] {
            assert(texts(a@)[i as int] != texts(b@)[i as int]);
            return false;
        }
        i = i + 1;
    }
    assert(texts(a@) =~= texts(b@));
    true
}

fn keybind_equal(a: &Keybind, b: &Keybind) -> (r: bool)
    ensures
        r == (a@ == b@),
{
    a.id == b.id && a.modifiers == b.modifiers && a.vk == b.vk && a.action == b.action
        && a.cycle_enabled == b.cycle_enabled && a.bypass_trigger == b.bypass_trigger
}

fn keybinds_equal(a: &[Keybind], b: &[Keybind]) -> (r: bool)
    ensures
        r == (keybind_views(a@) == keybind_views(b@)),
{
    if a.len() != b.len() {
        assert(keybind_views(a@).len() != keybind_views(b@).len());
        return false;
    }
    let mut i: usize = 0;
    while i < a.len()
        invariant
            a.len() == b.len(),
            i <= a.len(),
            forall|j: int| 0 <= j < i ==> (#[trigger] a@[j])@ == b@[j]@,
        decreases a.len() - i,
    {
        if !keybind_equal(&a[i], &b[i]) {
            assert(keybind_views(a@)[i as int] != keybind_views(b@)[i as int]);
            return false;
        }
        i = i + 1;
    }
    assert(keybind_views(a@) =~= keybind_views(b@));
    true
}

fn target_equal(a: &RadialTargetSettings, b: &RadialTargetSettings) -> (r: bool)
    ensures
        r == (a@ == b@),
{
    a.kind == b.kind && a.action == b.action && a.keybind_id == b.keybind_id && a.cycle_enabled
        == b.cycle_enabled
}

fn targets_equal(a: &[RadialTargetSettings], b: &[RadialTargetSettings]) -> (r: bool)
    ensures
        r == (target_views(a@) == target_views(b@)),
{
    if a.len() != b.len() {
        assert(target_views(a@).len() != target_views(b@).len());
        return false;
    }
    let mut i: usize = 0;
    while i < a.len()
        invariant
            a.len() == b.len(),
            i <= a.len(),
            forall|j: int| 0 <= j < i ==> (#[trigger] a@[j])@ == b@[j]@,
        decreases a.len() - i,
    {
        if !target_equal(&a[i], &b[i]) {
            assert(target_views(a@)[i as int] != target_views(b@)[i as int]);
            return false;
        }
        i = i + 1;
    }
    assert(target_views(a@) =~= target_views(b@));
    true
}

fn record_equal(a: &StashRecord, b: &StashRecord) -> (r: bool)
    ensures
        r == (a@ == b@),
{
    a.id == b.id && a.executable_path == b.executable_path && a.process_id == b.process_id
        && a.window_class == b.window_class && a.title == b.title && a.edge == b.edge
        && a.original_placement == b.original_placement && a.original_monitor
        == b.original_monitor && a.stashed_frame == b.stashed_frame
}

fn records_equal(a: &[StashRecord], b: &[StashRecord]) -> (r: bool)
    ensures
        r == (record_views(a@) == record_views(b@)),
{
    if a.len() != b.len() {
        assert(record_views(a@).len() != record_views(b@).len());
        return false;
    }
    let mut i: usize = 0;
    while i < a.len()
        invariant
            a.len() == b.len(),
            i <= a.len(),
            forall|j: int| 0 <= j < i ==> (#[trigger] a@[j])@ == b@[j]@,
        decreases a.len() - i,
    {
        if !record_equal(&a[i], &b[i]) {
            assert(record_views(a@)[i as int] != record_views(b@)[i as int]);
            return false;
        }
        i = i + 1;
    }
    assert(record_views(a@) =~= record_views(b@));
    true
}

/// Whether two settings values hold the same content (see
/// [`same_settings`]).
pub fn settings_equal(a: &AppSettings, b: &AppSettings) -> (r: bool)
    ensures
        r == same_settings(*a, *b),
{
    a.trigger_vk == b.trigger_vk && a.trigger_modifiers == b.trigger_modifiers
        && a.trigger_modifier_side == b.trigger_modifier_side && a.trigger_delay_ms
        == b.trigger_delay_ms && a.trigger_timeout_ms == b.trigger_timeout_ms
        && a.double_click_to_trigger == b.double_click_to_trigger && a.middle_click_to_trigger
        == b.middle_click_to_trigger && keybinds_equal(a.keybinds.as_slice(), b.keybinds.as_slice())
        && targets_equal(a.radial_slots.as_slice(), b.radial_slots.as_slice()) && target_equal(
        &a.center_target,
        &b.center_target,
    ) && a.launch_at_login == b.launch_at_login && a.appearance_mode == b.appearance_mode
        && a.radial_enabled == b.radial_enabled && a.cursor_interaction_enabled
        == b.cursor_interaction_enabled && a.radial_outer_radius_bits == b.radial_outer_radius_bits
        && a.radial_inner_radius_bits == b.radial_inner_radius_bits && a.preview_enabled
        == b.preview_enabled && a.drag_snap_enabled == b.drag_snap_enabled && a.drag_snap_threshold
        == b.drag_snap_threshold && a.restore_pre_drag_on_cancel == b.restore_pre_drag_on_cancel
        && a.stash_persistence_enabled == b.stash_persistence_enabled && a.monitor_move_policy
        == b.monitor_move_policy && a.global_padding == b.global_padding && a.padding_left
        == b.padding_left && a.padding_top == b.padding_top && a.padding_right == b.padding_right
        && a.padding_bottom == b.padding_bottom && strings_equal(
        a.excluded_executables.as_slice(),
        b.excluded_executables.as_slice(),
    ) && strings_equal(a.excluded_processes.as_slice(), b.excluded_processes.as_slice())
        && a.stash_peek == b.stash_peek && a.stash_hit_zone == b.stash_hit_zone
        && a.stash_reveal_delay_ms == b.stash_reveal_delay_ms && records_equal(
        a.stash_records.as_slice(),
        b.stash_records.as_slice(),
    ) && a.preview_padding_bits == b.preview_padding_bits && a.preview_corner_radius_bits
        == b.preview_corner_radius_bits && a.preview_border_width_bits
        == b.preview_border_width_bits && a.accent_color == b.accent_color && a.radial_sector_fill
        == b.radial_sector_fill && a.radial_sector_stroke == b.radial_sector_stroke
        && a.radial_ring_fill == b.radial_ring_fill && a.preview_border_color
        == b.preview_border_color
}

} // verus!
