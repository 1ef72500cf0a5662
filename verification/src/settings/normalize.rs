//! Settings normalization: clamps, list repair, color fallbacks.
//!
//! Corrupt or older files always become a safe, usable configuration
//! instead of resetting or crashing. The floating-point sizes are clamped
//! by the application layer, which owns floating-point arithmetic.

use vstd::prelude::*;
use crate::engine::hotkey::VK_CAPITAL;
use crate::engine::radial_targets::{
    RadialTargetKind, RadialTargetSettings, TargetView, fitted_slots, known_id,
    law_normalize_target_idempotent, normalize_slots, normalize_target, normalized_target,
};
use crate::engine::stash::{DPI_96_BITS, StashMonitor, StashRecord, StashRecordView};
use crate::settings::color::{
    is_canonical_color, law_normalized_color_is_canonical, normalize_color, normalized_color,
};
use crate::settings::exclusions::{
    all_non_empty, distinct_without_case, executables_normalized, law_exclusions_are_clean,
    normalize_exclusions, processes_normalized,
};
use crate::settings::ids::{ids_repaired, ids_unique, law_repaired_ids_are_unique, repair_ids};
use crate::settings::model::{
    AppSettings, Keybind, KeybindView, keybind_views, target_views, DEFAULT_OUTER_RADIUS_BITS,
    DEFAULT_PREVIEW_BORDER_BITS, DEFAULT_PREVIEW_PADDING_BITS, DEFAULT_PREVIEW_RADIUS_BITS,
    OUTER_RADIUS_MAX_BITS, OUTER_RADIUS_MIN_BITS, PREVIEW_BORDER_MAX_BITS, PREVIEW_BORDER_MIN_BITS,
    PREVIEW_PADDING_MAX_BITS, PREVIEW_PADDING_MIN_BITS, PREVIEW_RADIUS_MAX_BITS,
    PREVIEW_RADIUS_MIN_BITS,
};
use crate::text::{owned, text_eq, texts};

verus! {

/// The modifier bits a trigger or keybind may carry (Alt, Ctrl, Shift, Win).
pub const MOD_MASK: u32 = 0xF;

/// The most stash records kept; older ones are dropped first.
pub const MAX_STASH_RECORDS: usize = 64;

/// `v` clamped into `lo..=hi`.
pub open spec fn clamp_range(v: int, lo: int, hi: int) -> int {
    if v < lo {
        lo
    } else if v > hi {
        hi
    } else {
        v
    }
}

fn clamp_i32(v: i32, lo: i32, hi: i32) -> (r: i32)
    requires
        lo <= hi,
    ensures
        r == clamp_range(v as int, lo as int, hi as int),
{
    if v < lo {
        lo
    } else if v > hi {
        hi
    } else {
        v
    }
}

/// The ids of a list of keybinds.
pub open spec fn keybind_view_ids(v: Seq<KeybindView>) -> Seq<Seq<char>> {
    v.map_values(|k: KeybindView| k.0)
}

/// The id strings of a list of keybinds.
pub open spec fn keybind_id_strings(v: Seq<Keybind>) -> Seq<String> {
    v.map_values(|k: Keybind| k.id)
}

/// Keybinds after repair: ids repaired in order, modifiers masked to the
/// four modifier bits, everything else kept.
pub open spec fn keybinds_normalized(old: Seq<KeybindView>, new: Seq<KeybindView>) -> bool {
    &&& new.len() == old.len()
    &&& ids_repaired(keybind_view_ids(old), keybind_view_ids(new))
    &&& forall|i: int|
        0 <= i < new.len() ==> {
            &&& (#[trigger] new[i]).1 == old[i].1 & MOD_MASK
            &&& new[i].2 == old[i].2
            &&& new[i].3 == old[i].3
            &&& new[i].4 == old[i].4
            &&& new[i].5 == old[i].5
        }
}

/// A DPI bit pattern that is a finite, positive double is kept; any other
/// (zero, negative, infinite, NaN) becomes `96.0`.
pub open spec fn dpi_or_default(bits: u64) -> u64 {
    if 0 < bits && bits < 0x7FF0_0000_0000_0000 {
        bits
    } else {
        DPI_96_BITS
    }
}

/// The newest [`MAX_STASH_RECORDS`] records (the list's tail).
pub open spec fn newest_records(s: Seq<StashRecordView>) -> Seq<StashRecordView> {
    if s.len() > 64 {
        s.subrange(s.len() - 64, s.len() as int)
    } else {
        s
    }
}

/// The ids of a list of stash records.
pub open spec fn record_ids(v: Seq<StashRecordView>) -> Seq<Seq<char>> {
    v.map_values(|r: StashRecordView| r.0)
}

/// A record after repair: the monitor's DPI made usable, all else kept
/// (the id is repaired separately).
pub open spec fn record_repaired(o: StashRecordView, n: StashRecordView) -> bool {
    &&& n.1 == o.1
    &&& n.2 == o.2
    &&& n.3 == o.3
    &&& n.4 == o.4
    &&& n.5 == o.5
    &&& n.6 == o.6
    &&& n.7 == StashMonitor {
        monitor: o.7.monitor,
        work: o.7.work,
        dpi_x_bits: dpi_or_default(o.7.dpi_x_bits),
        dpi_y_bits: dpi_or_default(o.7.dpi_y_bits),
    }
    &&& n.8 == o.8
}

/// Stash records after repair: the newest 64 kept, ids repaired in order
/// (so no two records share an id), each record repaired.
pub open spec fn stash_records_normalized(
    old: Seq<StashRecordView>,
    new: Seq<StashRecordView>,
) -> bool {
    let kept = newest_records(old);
    &&& new.len() == kept.len()
    &&& ids_repaired(record_ids(kept), record_ids(new))
    &&& forall|i: int| 0 <= i < new.len() ==> record_repaired(kept[i], #[trigger] new[i])
}

/// The plain content of a list of stash records.
pub open spec fn record_views(v: Seq<StashRecord>) -> Seq<StashRecordView> {
    v.map_values(|r: StashRecord| r@)
}

/// Radial slots after repair: exactly eight, each normalized against the
/// keybind ids.
pub open spec fn slots_normalized(
    old: Seq<RadialTargetSettings>,
    new: Seq<RadialTargetSettings>,
    ids: Seq<String>,
) -> bool {
    &&& new.len() == 8
    &&& forall|i: int|
        0 <= i < 8 ==> (#[trigger] new[i])@ == normalized_target(
            fitted_slots(target_views(old))[i],
            ids,
        )
}

/// An appearance mode the application knows.
pub open spec fn known_appearance(m: Seq<char>) -> bool {
    m == "Dark"@ || m == "FollowWindows"@ || m == "Light"@
}

/// Trigger fields after repair.
pub open spec fn trigger_normalized(o: AppSettings, n: AppSettings) -> bool {
    &&& n.trigger_vk == (if o.trigger_vk == 0 {
        VK_CAPITAL
    } else {
        o.trigger_vk
    })
    &&& n.trigger_modifiers == o.trigger_modifiers & MOD_MASK
    &&& n.trigger_modifier_side == o.trigger_modifier_side
    &&& n.trigger_delay_ms == clamp_range(o.trigger_delay_ms as int, 0, 1000)
    &&& n.trigger_timeout_ms == clamp_range(o.trigger_timeout_ms as int, 0, 10_000)
    &&& n.double_click_to_trigger == o.double_click_to_trigger
    &&& n.middle_click_to_trigger == o.middle_click_to_trigger
}

/// Integer sizes, flags and policies after repair.
pub open spec fn scalars_normalized(o: AppSettings, n: AppSettings) -> bool {
    &&& n.launch_at_login == o.launch_at_login
    &&& n.radial_enabled == o.radial_enabled
    &&& n.cursor_interaction_enabled == o.cursor_interaction_enabled
    &&& n.preview_enabled == o.preview_enabled
    &&& n.drag_snap_enabled == o.drag_snap_enabled
    &&& n.drag_snap_threshold == clamp_range(o.drag_snap_threshold as int, 4, 96)
    &&& n.restore_pre_drag_on_cancel == o.restore_pre_drag_on_cancel
    &&& n.stash_persistence_enabled == o.stash_persistence_enabled
    &&& n.monitor_move_policy == o.monitor_move_policy
    &&& n.global_padding == clamp_range(o.global_padding as int, 0, 128)
    &&& n.padding_left == clamp_range(o.padding_left as int, 0, 128)
    &&& n.padding_top == clamp_range(o.padding_top as int, 0, 128)
    &&& n.padding_right == clamp_range(o.padding_right as int, 0, 128)
    &&& n.padding_bottom == clamp_range(o.padding_bottom as int, 0, 128)
    &&& n.stash_peek == clamp_range(o.stash_peek as int, 1, 48)
    &&& n.stash_hit_zone == clamp_range(o.stash_hit_zone as int, 1, 96)
    &&& n.stash_reveal_delay_ms == clamp_range(o.stash_reveal_delay_ms as int, 0, 2000)
    &&& n.radial_outer_radius_bits == clamped_f64_bits(
        o.radial_outer_radius_bits,
        OUTER_RADIUS_MIN_BITS,
        OUTER_RADIUS_MAX_BITS,
        DEFAULT_OUTER_RADIUS_BITS,
    )
    &&& n.radial_inner_radius_bits == o.radial_inner_radius_bits
    &&& n.preview_padding_bits == clamped_f64_bits(
        o.preview_padding_bits,
        PREVIEW_PADDING_MIN_BITS,
        PREVIEW_PADDING_MAX_BITS,
        DEFAULT_PREVIEW_PADDING_BITS,
    )
    &&& n.preview_corner_radius_bits == clamped_f64_bits(
        o.preview_corner_radius_bits,
        PREVIEW_RADIUS_MIN_BITS,
        PREVIEW_RADIUS_MAX_BITS,
        DEFAULT_PREVIEW_RADIUS_BITS,
    )
    &&& n.preview_border_width_bits == clamped_f64_bits(
        o.preview_border_width_bits,
        PREVIEW_BORDER_MIN_BITS,
        PREVIEW_BORDER_MAX_BITS,
        DEFAULT_PREVIEW_BORDER_BITS,
    )
}

/// A size given as the bit pattern of an IEEE-754 double, clamped as
/// `clamp_finite` does: an infinity or a NaN (a magnitude, the pattern
/// without its sign bit, of at least `0x7FF0_0000_0000_0000`) becomes
/// `fallback`; a negative value is below `lo` and becomes `lo`, except
/// negative zero, which equals a zero `lo` and is kept; a non-negative
/// finite value is compared by its pattern, since such doubles order as
/// their patterns do. The bounds and the fallback are non-negative and
/// finite.
pub open spec fn clamped_f64_bits(b: u64, lo: u64, hi: u64, fallback: u64) -> u64 {
    if b % 0x8000_0000_0000_0000 >= 0x7FF0_0000_0000_0000 {
        fallback
    } else if b >= 0x8000_0000_0000_0000 {
        if b == 0x8000_0000_0000_0000 && lo == 0 {
            b
        } else {
            lo
        }
    } else if b < lo {
        lo
    } else if b > hi {
        hi
    } else {
        b
    }
}

/// Clamp a size given by its bit pattern (see [`clamped_f64_bits`]).
pub fn clamp_f64_bits(b: u64, lo: u64, hi: u64, fallback: u64) -> (r: u64)
    ensures
        r == clamped_f64_bits(b, lo, hi, fallback),
{
    if b % 0x8000_0000_0000_0000 >= 0x7FF0_0000_0000_0000 {
        fallback
    } else if b >= 0x8000_0000_0000_0000 {
        if b == 0x8000_0000_0000_0000 && lo == 0 {
            b
        } else {
            lo
        }
    } else if b < lo {
        lo
    } else if b > hi {
        hi
    } else {
        b
    }
}

/// Clamping a clamped size again changes nothing.
pub proof fn law_clamped_f64_bits_is_stable(b: u64, lo: u64, hi: u64, fallback: u64)
    requires
        lo <= fallback <= hi < 0x7FF0_0000_0000_0000,
    ensures
        clamped_f64_bits(clamped_f64_bits(b, lo, hi, fallback), lo, hi, fallback)
            == clamped_f64_bits(b, lo, hi, fallback),
{
}

/// Text fields after repair: appearance, exclusion lists, colors.
pub open spec fn texts_normalized(o: AppSettings, n: AppSettings) -> bool {
    &&& n.appearance_mode@ == (if known_appearance(o.appearance_mode@) {
        o.appearance_mode@
    } else {
        "Dark"@
    })
    &&& texts(n.excluded_executables@) == executables_normalized(texts(o.excluded_executables@))
    &&& texts(n.excluded_processes@) == processes_normalized(texts(o.excluded_processes@))
    &&& n.accent_color@ == normalized_color(o.accent_color@, "#007AFF"@)
    &&& n.radial_sector_fill@ == normalized_color(o.radial_sector_fill@, "#7A007AFF"@)
    &&& n.radial_sector_stroke@ == normalized_color(o.radial_sector_stroke@, "#F0007AFF"@)
    &&& n.radial_ring_fill@ == normalized_color(o.radial_ring_fill@, "#B61E1E1E"@)
    &&& n.preview_border_color@ == normalized_color(o.preview_border_color@, "#B8007AFF"@)
}

/// Lists after repair: keybinds, radial slots and center, stash records.
pub open spec fn lists_normalized(o: AppSettings, n: AppSettings) -> bool {
    &&& keybinds_normalized(keybind_views(o.keybinds@), keybind_views(n.keybinds@))
    &&& slots_normalized(o.radial_slots@, n.radial_slots@, keybind_id_strings(n.keybinds@))
    &&& n.center_target@ == normalized_target(o.center_target@, keybind_id_strings(n.keybinds@))
    &&& stash_records_normalized(record_views(o.stash_records@), record_views(n.stash_records@))
}

/// `n` is what normalizing `o` gives. It is a relation rather than a
/// function only because a replaced id is drawn at random.
pub open spec fn normalized_from(o: AppSettings, n: AppSettings) -> bool {
    &&& trigger_normalized(o, n)
    &&& scalars_normalized(o, n)
    &&& texts_normalized(o, n)
    &&& lists_normalized(o, n)
}

/// Repair keybinds in place (see [`keybinds_normalized`]).
pub fn normalize_keybinds(keybinds: &mut Vec<Keybind>)
    ensures
        keybinds_normalized(keybind_views(old(keybinds)@), keybind_views(final(keybinds)@)),
{
    let mut ids: Vec<String> = Vec::new();
    let mut i: usize = 0;
    while i < keybinds.len()
        invariant
            i <= keybinds.len(),
            ids@.len() == i,
            forall|j: int| 0 <= j < i ==> (#[trigger] ids@[j])@ == keybinds@[j].id@,
        decreases keybinds.len() - i,
    {
        ids.push(keybinds[i].id.clone());
        i = i + 1;
    }
    let fixed = repair_ids(ids.as_slice());
    let mut out: Vec<Keybind> = Vec::new();
    let mut k: usize = 0;
    while k < keybinds.len()
        invariant
            k <= keybinds.len(),
            fixed@.len() == keybinds.len(),
            out@.len() == k,
            forall|j: int|
                0 <= j < k ==> {
                    &&& (#[trigger] out@[j]).id@ == fixed@[j]@
                    &&& out@[j].modifiers == keybinds@[j].modifiers & MOD_MASK
                    &&& out@[j].vk == keybinds@[j].vk
                    &&& out@[j].action == keybinds@[j].action
                    &&& out@[j].cycle_enabled == keybinds@[j].cycle_enabled
                    &&& out@[j].bypass_trigger == keybinds@[j].bypass_trigger
                },
        decreases keybinds.len() - k,
    {
        let b = &keybinds[k];
        out.push(
            Keybind {
                id: fixed[k].clone(),
                modifiers: b.modifiers & MOD_MASK,
                vk: b.vk,
                action: b.action,
                cycle_enabled: b.cycle_enabled,
                bypass_trigger: b.bypass_trigger,
            },
        );
        k = k + 1;
    }
    proof {
        assert(texts(ids@) =~= keybind_view_ids(keybind_views(keybinds@)));
        assert(texts(fixed@) =~= keybind_view_ids(keybind_views(out@)));
    }
    *keybinds = out;
}

/// Repair stash records in place (see [`stash_records_normalized`]).
pub fn normalize_stash_records(records: &mut Vec<StashRecord>)
    ensures
        stash_records_normalized(record_views(old(records)@), record_views(final(records)@)),
{
    let ghost all = record_views(records@);
    let start: usize = if records.len() > MAX_STASH_RECORDS {
        records.len() - MAX_STASH_RECORDS
    } else {
        0
    };
    let ghost kept = newest_records(all);
    assert(kept =~= all.subrange(start as int, all.len() as int));
    let mut ids: Vec<String> = Vec::new();
    let mut i: usize = start;
    while i < records.len()
        invariant
            start <= i <= records.len(),
            ids@.len() == i - start,
            forall|j: int| 0 <= j < i - start ==> (#[trigger] ids@[j])@ == records@[start + j].id@,
        decreases records.len() - i,
    {
        ids.push(records[i].id.clone());
        i = i + 1;
    }
    let fixed = repair_ids(ids.as_slice());
    let mut out: Vec<StashRecord> = Vec::new();
    let mut k: usize = start;
    while k < records.len()
        invariant
            start <= k <= records.len(),
            fixed@.len() == records.len() - start,
            out@.len() == k - start,
            forall|j: int|
                0 <= j < k - start ==> (#[trigger] out@[j]).id@ == fixed@[j]@ && record_repaired(
                    records@[start + j]@,
                    out@[j]@,
                ),
        decreases records.len() - k,
    {
        let r = &records[k];
        let m = r.original_monitor;
        let dx = if 0 < m.dpi_x_bits && m.dpi_x_bits < 0x7FF0_0000_0000_0000 {
            m.dpi_x_bits
        } else {
            DPI_96_BITS
        };
        let dy = if 0 < m.dpi_y_bits && m.dpi_y_bits < 0x7FF0_0000_0000_0000 {
            m.dpi_y_bits
        } else {
            DPI_96_BITS
        };
        out.push(
            StashRecord {
                id: fixed[k - start].clone(),
                executable_path: r.executable_path.clone(),
                process_id: r.process_id,
                window_class: r.window_class.clone(),
                title: r.title.clone(),
                edge: r.edge,
                original_placement: r.original_placement,
                original_monitor: StashMonitor {
                    monitor: m.monitor,
                    work: m.work,
                    dpi_x_bits: dx,
                    dpi_y_bits: dy,
                },
                stashed_frame: r.stashed_frame,
            },
        );
        k = k + 1;
    }
    proof {
        assert(texts(ids@) =~= record_ids(kept));
        assert(texts(fixed@) =~= record_ids(record_views(out@)));
        assert forall|j: int| 0 <= j < out@.len() implies record_repaired(
            kept[j],
            #[trigger] record_views(out@)[j],
        ) by {
            assert(kept[j] == records@[start + j]@);
        }
    }
    *records = out;
}

fn keybind_ids_of(keybinds: &[Keybind]) -> (r: Vec<String>)
    ensures
        texts(r@) == texts(keybind_id_strings(keybinds@)),
{
    let mut r: Vec<String> = Vec::new();
    let mut i: usize = 0;
    while i < keybinds.len()
        invariant
            i <= keybinds.len(),
            r@.len() == i,
            forall|j: int| 0 <= j < i ==> (#[trigger] r@[j])@ == keybinds@[j].id@,
        decreases keybinds.len() - i,
    {
        r.push(keybinds[i].id.clone());
        i = i + 1;
    }
    assert(texts(r@) =~= texts(keybind_id_strings(keybinds@)));
    r
}

proof fn lemma_known_id_by_text(a: Seq<String>, b: Seq<String>, id: Seq<char>)
    requires
        texts(a) == texts(b),
    ensures
        known_id(a, id) == known_id(b, id),
{
    assert(texts(a).len() == a.len() && texts(b).len() == b.len());
    if known_id(a, id) {
        let i = choose|i: int| 0 <= i < a.len() && (#[trigger] a[i])@ == id;
        assert(texts(a)[i] == a[i]@);
        assert(texts(b)[i] == b[i]@);
    }
    if known_id(b, id) {
        let i = choose|i: int| 0 <= i < b.len() && (#[trigger] b[i])@ == id;
        assert(texts(a)[i] == a[i]@);
        assert(texts(b)[i] == b[i]@);
    }
}

pub(crate) proof fn lemma_target_by_text(t: TargetView, a: Seq<String>, b: Seq<String>)
    requires
        texts(a) == texts(b),
    ensures
        normalized_target(t, a) == normalized_target(t, b),
{
    lemma_known_id_by_text(a, b, t.2);
}

fn normalize_appearance(mode: &mut String)
    ensures
        final(mode)@ == (if known_appearance(old(mode)@) {
            old(mode)@
        } else {
            "Dark"@
        }),
{
    let known = text_eq(mode.as_str(), "Dark") || text_eq(mode.as_str(), "FollowWindows")
        || text_eq(mode.as_str(), "Light");
    if !known {
        *mode = owned("Dark");
    }
}

fn normalize_lists(
    keybinds: &mut Vec<Keybind>,
    slots: &mut Vec<RadialTargetSettings>,
    center: &mut RadialTargetSettings,
)
    ensures
        keybinds_normalized(keybind_views(old(keybinds)@), keybind_views(final(keybinds)@)),
        slots_normalized(old(slots)@, final(slots)@, keybind_id_strings(final(keybinds)@)),
        final(center)@ == normalized_target(old(center)@, keybind_id_strings(final(keybinds)@)),
{
    normalize_keybinds(keybinds);
    let ids = keybind_ids_of(keybinds.as_slice());
    let ghost start_slots = slots@;
    normalize_slots(slots, ids.as_slice());
    normalize_target(center, ids.as_slice());
    proof {
        let names = keybind_id_strings(keybinds@);
        lemma_target_by_text(old(center)@, ids@, names);
        assert(start_slots.map_values(|t: RadialTargetSettings| t@) =~= target_views(start_slots));
        assert forall|i: int| 0 <= i < 8 implies (#[trigger] slots@[i])@ == normalized_target(
            fitted_slots(target_views(start_slots))[i],
            names,
        ) by {
            lemma_target_by_text(fitted_slots(target_views(start_slots))[i], ids@, names);
        }
    }
}

/// A keybind target names a non-empty id that some keybind has.
pub open spec fn target_resolves(t: TargetView, keybinds: Seq<Keybind>) -> bool {
    t.0 == RadialTargetKind::Keybind ==> t.2.len() > 0 && known_id(keybind_id_strings(keybinds), t.2)
}

/// Every wedge and the center resolve, and there are exactly eight wedges.
pub open spec fn targets_resolve(s: AppSettings) -> bool {
    &&& s.radial_slots@.len() == 8
    &&& forall|i: int| 0 <= i < 8 ==> target_resolves((#[trigger] s.radial_slots@[i])@, s.keybinds@)
    &&& target_resolves(s.center_target@, s.keybinds@)
}

/// After normalization a wedge or the center that points at a keybind
/// points at one that exists: targets naming a missing keybind have
/// become empty.
pub proof fn law_normalized_targets_resolve(o: AppSettings, n: AppSettings)
    requires
        normalized_from(o, n),
    ensures
        targets_resolve(n),
{
    let ids = keybind_id_strings(n.keybinds@);
    assert forall|i: int| 0 <= i < 8 implies target_resolves(
        (#[trigger] n.radial_slots@[i])@,
        n.keybinds@,
    ) by {
        law_normalize_target_idempotent(fitted_slots(target_views(o.radial_slots@))[i], ids);
    }
    law_normalize_target_idempotent(o.center_target@, ids);
}

/// Every field is in its valid range and every list is repaired.
pub open spec fn settings_valid(s: AppSettings) -> bool {
    &&& s.trigger_vk != 0
    &&& s.trigger_modifiers <= MOD_MASK
    &&& 0 <= s.trigger_delay_ms <= 1000
    &&& 0 <= s.trigger_timeout_ms <= 10_000
    &&& forall|i: int| 0 <= i < s.keybinds@.len() ==> (#[trigger] s.keybinds@[i]).modifiers <= MOD_MASK
    &&& ids_unique(keybind_view_ids(keybind_views(s.keybinds@)))
    &&& targets_resolve(s)
    &&& known_appearance(s.appearance_mode@)
    &&& 4 <= s.drag_snap_threshold <= 96
    &&& 0 <= s.global_padding <= 128
    &&& 0 <= s.padding_left <= 128
    &&& 0 <= s.padding_top <= 128
    &&& 0 <= s.padding_right <= 128
    &&& 0 <= s.padding_bottom <= 128
    &&& all_non_empty(texts(s.excluded_executables@))
    &&& distinct_without_case(texts(s.excluded_executables@))
    &&& all_non_empty(texts(s.excluded_processes@))
    &&& distinct_without_case(texts(s.excluded_processes@))
    &&& 1 <= s.stash_peek <= 48
    &&& 1 <= s.stash_hit_zone <= 96
    &&& 0 <= s.stash_reveal_delay_ms <= 2000
    &&& s.stash_records@.len() <= MAX_STASH_RECORDS
    &&& ids_unique(record_ids(record_views(s.stash_records@)))
    &&& forall|i: int|
        0 <= i < s.stash_records@.len() ==> {
            &&& 0 < (#[trigger] s.stash_records@[i]).original_monitor.dpi_x_bits
                < 0x7FF0_0000_0000_0000
            &&& 0 < s.stash_records@[i].original_monitor.dpi_y_bits < 0x7FF0_0000_0000_0000
        }
    &&& is_canonical_color(s.accent_color@)
    &&& is_canonical_color(s.radial_sector_fill@)
    &&& is_canonical_color(s.radial_sector_stroke@)
    &&& is_canonical_color(s.radial_ring_fill@)
    &&& is_canonical_color(s.preview_border_color@)
}

/// Normalization always yields valid settings, whatever it starts from
/// (the floating-point sizes aside).
pub proof fn law_normalized_settings_are_valid(o: AppSettings, n: AppSettings)
    requires
        normalized_from(o, n),
    ensures
        settings_valid(n),
{
    let m = o.trigger_modifiers;
    assert(m & 0xF <= 0xF) by (bit_vector);
    assert forall|i: int| 0 <= i < n.keybinds@.len() implies (#[trigger] n.keybinds@[i]).modifiers
        <= MOD_MASK by {
        let k = o.keybinds@[i].modifiers;
        assert(keybind_views(n.keybinds@)[i].1 == keybind_views(o.keybinds@)[i].1 & MOD_MASK);
        assert(k & 0xF <= 0xF) by (bit_vector);
    }
    law_repaired_ids_are_unique(
        keybind_view_ids(keybind_views(o.keybinds@)),
        keybind_view_ids(keybind_views(n.keybinds@)),
    );
    law_normalized_targets_resolve(o, n);
    reveal_strlit("Dark");
    law_exclusions_are_clean(texts(o.excluded_executables@));
    law_exclusions_are_clean(texts(o.excluded_processes@));
    let kept = newest_records(record_views(o.stash_records@));
    law_repaired_ids_are_unique(record_ids(kept), record_ids(record_views(n.stash_records@)));
    assert forall|i: int| 0 <= i < n.stash_records@.len() implies {
        &&& 0 < (#[trigger] n.stash_records@[i]).original_monitor.dpi_x_bits
            < 0x7FF0_0000_0000_0000
        &&& 0 < n.stash_records@[i].original_monitor.dpi_y_bits < 0x7FF0_0000_0000_0000
    } by {
        assert(record_repaired(kept[i], record_views(n.stash_records@)[i]));
    }
    law_normalized_color_is_canonical(o.accent_color@, "#007AFF"@);
    law_normalized_color_is_canonical(o.radial_sector_fill@, "#7A007AFF"@);
    law_normalized_color_is_canonical(o.radial_sector_stroke@, "#F0007AFF"@);
    law_normalized_color_is_canonical(o.radial_ring_fill@, "#B61E1E1E"@);
    law_normalized_color_is_canonical(o.preview_border_color@, "#B8007AFF"@);
}

impl AppSettings {
    /// Clamp every field into its valid range and repair lists in place
    /// (see [`normalized_from`]). The floating-point sizes are left as they
    /// are.
    pub fn normalize(&mut self)
        ensures
            normalized_from(*old(self), *final(self)),
    {
        if self.trigger_vk == 0 {
            self.trigger_vk = VK_CAPITAL;
        }
        self.trigger_modifiers = self.trigger_modifiers & MOD_MASK;
        self.trigger_delay_ms = clamp_i32(self.trigger_delay_ms, 0, 1000);
        self.trigger_timeout_ms = clamp_i32(self.trigger_timeout_ms, 0, 10_000);

        normalize_lists(&mut self.keybinds, &mut self.radial_slots, &mut self.center_target);
        normalize_stash_records(&mut self.stash_records);
        normalize_appearance(&mut self.appearance_mode);

        self.drag_snap_threshold = clamp_i32(self.drag_snap_threshold, 4, 96);
        self.global_padding = clamp_i32(self.global_padding, 0, 128);
        self.padding_left = clamp_i32(self.padding_left, 0, 128);
        self.padding_top = clamp_i32(self.padding_top, 0, 128);
        self.padding_right = clamp_i32(self.padding_right, 0, 128);
        self.padding_bottom = clamp_i32(self.padding_bottom, 0, 128);

        normalize_exclusions(&mut self.excluded_executables, &mut self.excluded_processes);

        self.stash_peek = clamp_i32(self.stash_peek, 1, 48);
        self.stash_hit_zone = clamp_i32(self.stash_hit_zone, 1, 96);
        self.stash_reveal_delay_ms = clamp_i32(self.stash_reveal_delay_ms, 0, 2000);

        self.radial_outer_radius_bits = clamp_f64_bits(
            self.radial_outer_radius_bits,
            OUTER_RADIUS_MIN_BITS,
            OUTER_RADIUS_MAX_BITS,
            DEFAULT_OUTER_RADIUS_BITS,
        );
        self.preview_padding_bits = clamp_f64_bits(
            self.preview_padding_bits,
            PREVIEW_PADDING_MIN_BITS,
            PREVIEW_PADDING_MAX_BITS,
            DEFAULT_PREVIEW_PADDING_BITS,
        );
        self.preview_corner_radius_bits = clamp_f64_bits(
            self.preview_corner_radius_bits,
            PREVIEW_RADIUS_MIN_BITS,
            PREVIEW_RADIUS_MAX_BITS,
            DEFAULT_PREVIEW_RADIUS_BITS,
        );
        self.preview_border_width_bits = clamp_f64_bits(
            self.preview_border_width_bits,
            PREVIEW_BORDER_MIN_BITS,
            PREVIEW_BORDER_MAX_BITS,
            DEFAULT_PREVIEW_BORDER_BITS,
        );

        self.accent_color = normalize_color(self.accent_color.as_str(), "#007AFF");
        self.radial_sector_fill = normalize_color(self.radial_sector_fill.as_str(), "#7A007AFF");
        self.radial_sector_stroke = normalize_color(
            self.radial_sector_stroke.as_str(),
            "#F0007AFF",
        );
        self.radial_ring_fill = normalize_color(self.radial_ring_fill.as_str(), "#B61E1E1E");
        self.preview_border_color = normalize_color(
            self.preview_border_color.as_str(),
            "#B8007AFF",
        );
    }
}

} // verus!
