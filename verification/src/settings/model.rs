//! The persisted settings model and its factory defaults.
//!
//! Floating-point settings are carried as IEEE-754 bit patterns
//! (`f64::to_bits`). Normalization clamps those with fixed bounds by their
//! patterns; the application layer converts them and clamps the inner
//! radial radius, whose bound is computed from the outer one.

use vstd::prelude::*;
use crate::engine::actions::WindowAction;
use crate::engine::hotkey::{
    MOD_ALT, MOD_CONTROL, MOD_SHIFT, MOD_WIN, TriggerModifierSide, VK_CAPITAL, VK_SPACE,
};
use crate::engine::monitor::MonitorMoveSizePolicy;
use crate::engine::radial_targets::{
    RadialTargetSettings, default_center, default_slot_views, default_slots, none_target,
};
use crate::engine::stash::StashRecord;
use crate::text::{all_space, is_space, owned, text_eq};

verus! {

/// A lowercase hexadecimal digit.
pub open spec fn is_lower_hex(c: char) -> bool {
    ('0' <= c && c <= '9') || ('a' <= c && c <= 'f')
}

/// The shape of a generated id: 32 lowercase hexadecimal digits.
pub open spec fn is_generated_id(s: Seq<char>) -> bool {
    s.len() == 32 && forall|i: int| 0 <= i < 32 ==> is_lower_hex(#[trigger] s[i])
}

/// A generated id never trims to nothing.
pub proof fn lemma_generated_id_not_blank(s: Seq<char>)
    requires
        is_generated_id(s),
    ensures
        !all_space(s),
{
    assert(is_lower_hex(s[0]));
    assert(!is_space(s[0]));
}

/// A fresh random id.
///
/// Trusted: calls `uuid::Uuid::new_v4().simple().to_string()`. The `simple`
/// format writes the 128 bits as 32 lowercase hexadecimal digits without
/// hyphens; that shape is all the contract claims. Which digits come out
/// is random and left unsaid.
#[verifier::external_body]
pub(crate) fn new_id() -> (s: String)
    ensures
        is_generated_id(s@),
{
    uuid::Uuid::new_v4().simple().to_string()
}

/// A trigger + key combination that applies an action.
#[derive(Debug, Clone, PartialEq, Eq)]
pub struct Keybind {
    pub id: String,
    pub modifiers: u32,
    pub vk: u32,
    pub action: WindowAction,
    pub cycle_enabled: bool,
    pub bypass_trigger: bool,
}

/// The plain content of a keybind: id, modifiers, key, action, cycle flag,
/// bypass flag.
pub type KeybindView = (Seq<char>, u32, u32, WindowAction, bool, bool);

impl View for Keybind {
    type V = KeybindView;

    open spec fn view(&self) -> KeybindView {
        (self.id@, self.modifiers, self.vk, self.action, self.cycle_enabled, self.bypass_trigger)
    }
}

impl Default for Keybind {
    /// A new keybind: Space, no modifiers, right half, cycling on.
    fn default() -> (k: Self)
        ensures
            is_generated_id(k.id@),
            k.modifiers == 0,
            k.vk == VK_SPACE,
            k.action == WindowAction::RightHalf,
            k.cycle_enabled,
            !k.bypass_trigger,
    {
        Keybind {
            id: new_id(),
            modifiers: 0,
            vk: VK_SPACE,
            action: WindowAction::RightHalf,
            cycle_enabled: true,
            bypass_trigger: false,
        }
    }
}

/// Bit pattern of the default outer radial radius, `91.2`.
pub const DEFAULT_OUTER_RADIUS_BITS: u64 = 0x4056_cccc_cccc_cccd;

/// Bit pattern of the default inner radial radius, `57.76`.
pub const DEFAULT_INNER_RADIUS_BITS: u64 = 0x404c_e147_ae14_7ae1;

/// Bit pattern of the default preview padding, `21.0`.
pub const DEFAULT_PREVIEW_PADDING_BITS: u64 = 0x4035_0000_0000_0000;

/// Bit pattern of the default preview corner radius, `14.0`.
pub const DEFAULT_PREVIEW_RADIUS_BITS: u64 = 0x402c_0000_0000_0000;

/// Bit pattern of the default preview border width, `2.0`.
pub const DEFAULT_PREVIEW_BORDER_BITS: u64 = 0x4000_0000_0000_0000;

/// Bit patterns of the bounds the sizes are clamped to: the outer radial
/// radius to `64.0..=140.0`, the preview padding to `4.0..=48.0`, its
/// corner radius to `4.0..=32.0` and its border width to `0.0..=6.0`.
pub const OUTER_RADIUS_MIN_BITS: u64 = 0x4050_0000_0000_0000;
pub const OUTER_RADIUS_MAX_BITS: u64 = 0x4061_8000_0000_0000;
pub const PREVIEW_PADDING_MIN_BITS: u64 = 0x4010_0000_0000_0000;
pub const PREVIEW_PADDING_MAX_BITS: u64 = 0x4048_0000_0000_0000;
pub const PREVIEW_RADIUS_MIN_BITS: u64 = 0x4010_0000_0000_0000;
pub const PREVIEW_RADIUS_MAX_BITS: u64 = 0x4040_0000_0000_0000;
pub const PREVIEW_BORDER_MIN_BITS: u64 = 0;
pub const PREVIEW_BORDER_MAX_BITS: u64 = 0x4018_0000_0000_0000;

/// The full persisted settings file.
#[derive(Debug, Clone, PartialEq)]
pub struct AppSettings {
    pub trigger_vk: u32,
    pub trigger_modifiers: u32,
    pub trigger_modifier_side: TriggerModifierSide,
    pub trigger_delay_ms: i32,
    pub trigger_timeout_ms: i32,
    pub double_click_to_trigger: bool,
    pub middle_click_to_trigger: bool,
    pub keybinds: Vec<Keybind>,
    pub radial_slots: Vec<RadialTargetSettings>,
    pub center_target: RadialTargetSettings,
    pub launch_at_login: bool,
    pub appearance_mode: String,
    pub radial_enabled: bool,
    pub cursor_interaction_enabled: bool,
    pub radial_outer_radius_bits: u64,
    pub radial_inner_radius_bits: u64,
    pub preview_enabled: bool,
    pub drag_snap_enabled: bool,
    pub drag_snap_threshold: i32,
    pub restore_pre_drag_on_cancel: bool,
    pub stash_persistence_enabled: bool,
    pub monitor_move_policy: MonitorMoveSizePolicy,
    pub global_padding: i32,
    pub padding_left: i32,
    pub padding_top: i32,
    pub padding_right: i32,
    pub padding_bottom: i32,
    pub excluded_executables: Vec<String>,
    pub excluded_processes: Vec<String>,
    pub stash_peek: i32,
    pub stash_hit_zone: i32,
    pub stash_reveal_delay_ms: i32,
    pub stash_records: Vec<StashRecord>,
    pub preview_padding_bits: u64,
    pub preview_corner_radius_bits: u64,
    pub preview_border_width_bits: u64,
    pub accent_color: String,
    pub radial_sector_fill: String,
    pub radial_sector_stroke: String,
    pub radial_ring_fill: String,
    pub preview_border_color: String,
}

/// The plain content of a list of keybinds.
pub open spec fn keybind_views(v: Seq<Keybind>) -> Seq<KeybindView> {
    v.map_values(|k: Keybind| k@)
}

/// The plain content of a list of radial targets.
pub open spec fn target_views(
    v: Seq<RadialTargetSettings>,
) -> Seq<crate::engine::radial_targets::TargetView> {
    v.map_values(|t: RadialTargetSettings| t@)
}

/// Factory defaults: Caps Lock trigger, eight default wedges, an empty
/// center, dark appearance, and the stock sizes and colors.
pub open spec fn is_default(s: AppSettings) -> bool {
    &&& s.trigger_vk == VK_CAPITAL
    &&& s.trigger_modifiers == 0
    &&& s.trigger_modifier_side == TriggerModifierSide::Any
    &&& s.trigger_delay_ms == 0
    &&& s.trigger_timeout_ms == 0
    &&& !s.double_click_to_trigger
    &&& !s.middle_click_to_trigger
    &&& s.keybinds@.len() == 0
    &&& target_views(s.radial_slots@) == default_slot_views()
    &&& s.center_target@ == none_target()
    &&& !s.launch_at_login
    &&& s.appearance_mode@ == "Dark"@
    &&& s.radial_enabled
    &&& s.cursor_interaction_enabled
    &&& s.radial_outer_radius_bits == DEFAULT_OUTER_RADIUS_BITS
    &&& s.radial_inner_radius_bits == DEFAULT_INNER_RADIUS_BITS
    &&& s.preview_enabled
    &&& s.drag_snap_enabled
    &&& s.drag_snap_threshold == 24
    &&& s.restore_pre_drag_on_cancel
    &&& s.stash_persistence_enabled
    &&& s.monitor_move_policy == MonitorMoveSizePolicy::PreservePixels
    &&& s.global_padding == 0
    &&& s.padding_left == 0
    &&& s.padding_top == 0
    &&& s.padding_right == 0
    &&& s.padding_bottom == 0
    &&& s.excluded_executables@.len() == 0
    &&& s.excluded_processes@.len() == 0
    &&& s.stash_peek == 8
    &&& s.stash_hit_zone == 14
    &&& s.stash_reveal_delay_ms == 80
    &&& s.stash_records@.len() == 0
    &&& s.preview_padding_bits == DEFAULT_PREVIEW_PADDING_BITS
    &&& s.preview_corner_radius_bits == DEFAULT_PREVIEW_RADIUS_BITS
    &&& s.preview_border_width_bits == DEFAULT_PREVIEW_BORDER_BITS
    &&& s.accent_color@ == "#3D9BFF"@
    &&& s.radial_sector_fill@ == "#7A3D9BFF"@
    &&& s.radial_sector_stroke@ == "#F03D9BFF"@
    &&& s.radial_ring_fill@ == "#B61B212B"@
    &&& s.preview_border_color@ == "#B83D9BFF"@
}

impl Default for AppSettings {
    fn default() -> (s: Self)
        ensures
            is_default(s),
    {
        AppSettings {
            trigger_vk: VK_CAPITAL,
            trigger_modifiers: 0,
            trigger_modifier_side: TriggerModifierSide::Any,
            trigger_delay_ms: 0,
            trigger_timeout_ms: 0,
            double_click_to_trigger: false,
            middle_click_to_trigger: false,
            keybinds: Vec::new(),
            radial_slots: default_slots(),
            center_target: default_center(),
            launch_at_login: false,
            appearance_mode: owned("Dark"),
            radial_enabled: true,
            cursor_interaction_enabled: true,
            radial_outer_radius_bits: DEFAULT_OUTER_RADIUS_BITS,
            radial_inner_radius_bits: DEFAULT_INNER_RADIUS_BITS,
            preview_enabled: true,
            drag_snap_enabled: true,
            drag_snap_threshold: 24,
            restore_pre_drag_on_cancel: true,
            stash_persistence_enabled: true,
            monitor_move_policy: MonitorMoveSizePolicy::PreservePixels,
            global_padding: 0,
            padding_left: 0,
            padding_top: 0,
            padding_right: 0,
            padding_bottom: 0,
            excluded_executables: Vec::new(),
            excluded_processes: Vec::new(),
            stash_peek: 8,
            stash_hit_zone: 14,
            stash_reveal_delay_ms: 80,
            stash_records: Vec::new(),
            preview_padding_bits: DEFAULT_PREVIEW_PADDING_BITS,
            preview_corner_radius_bits: DEFAULT_PREVIEW_RADIUS_BITS,
            preview_border_width_bits: DEFAULT_PREVIEW_BORDER_BITS,
            accent_color: owned("#3D9BFF"),
            radial_sector_fill: owned("#7A3D9BFF"),
            radial_sector_stroke: owned("#F03D9BFF"),
            radial_ring_fill: owned("#B61B212B"),
            preview_border_color: owned("#B83D9BFF"),
        }
    }
}

/// `max(global + edge, 0)`.
pub open spec fn effective_pad(global: i32, edge: i32) -> int {
    if global + edge < 0 {
        0
    } else {
        global + edge
    }
}

impl AppSettings {
    /// The four modifier bits a trigger may carry.
    pub fn modifier_mask() -> (m: u32)
        ensures
            m == 0xF,
    {
        assert(MOD_CONTROL | MOD_ALT | MOD_SHIFT | MOD_WIN == 0xF) by (bit_vector);
        MOD_CONTROL | MOD_ALT | MOD_SHIFT | MOD_WIN
    }

    /// Reset every field to factory defaults.
    pub fn reset_all(&mut self)
        ensures
            is_default(*final(self)),
    {
        *self = AppSettings::default();
    }

    /// Effective padding edges (global + per-edge, never negative).
    pub fn padding_edges(&self) -> (r: (i32, i32, i32, i32))
        requires
            i32::MIN <= self.global_padding + self.padding_left <= i32::MAX,
            i32::MIN <= self.global_padding + self.padding_top <= i32::MAX,
            i32::MIN <= self.global_padding + self.padding_right <= i32::MAX,
            i32::MIN <= self.global_padding + self.padding_bottom <= i32::MAX,
        ensures
            r.0 == effective_pad(self.global_padding, self.padding_left),
            r.1 == effective_pad(self.global_padding, self.padding_top),
            r.2 == effective_pad(self.global_padding, self.padding_right),
            r.3 == effective_pad(self.global_padding, self.padding_bottom),
    {
        let l = self.global_padding + self.padding_left;
        let t = self.global_padding + self.padding_top;
        let r = self.global_padding + self.padding_right;
        let b = self.global_padding + self.padding_bottom;
        (
            if l < 0 { 0 } else { l },
            if t < 0 { 0 } else { t },
            if r < 0 { 0 } else { r },
            if b < 0 { 0 } else { b },
        )
    }

    /// Whether the effective appearance is light. Following the system
    /// theme resolves to dark until the platform layer reports otherwise.
    pub fn is_light(&self) -> (b: bool)
        ensures
            b == (self.appearance_mode@ == "Light"@),
    {
        text_eq(self.appearance_mode.as_str(), "Light")
    }
}

} // verus!
