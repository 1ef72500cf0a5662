//! Human-readable hotkey names (`Ctrl + Shift + A`, `Caps Lock`, ...),
//! including left/right modifier-side labels.

use vstd::prelude::*;
use crate::text::{decimal, hex_upper, push_decimal, push_hex_padded, push_str, string_of, zero_pad};

verus! {

/// Which physical side of a modifier activates the trigger.
#[derive(Debug, Clone, Copy, PartialEq, Eq, Structural)]
pub enum TriggerModifierSide {
    Any,
    Left,
    Right,
}

impl Default for TriggerModifierSide {
    fn default() -> (s: Self)
        ensures
            s == TriggerModifierSide::Any,
    {
        TriggerModifierSide::Any
    }
}

impl TriggerModifierSide {
    /// Persisted number of a side.
    pub fn discriminant(self) -> (d: u8)
        ensures
            d == side_number(self),
    {
        match self {
            TriggerModifierSide::Any => 0,
            TriggerModifierSide::Left => 1,
            TriggerModifierSide::Right => 2,
        }
    }

    /// The side stored under a persisted number, if there is one.
    pub fn from_discriminant(d: u8) -> (s: Option<TriggerModifierSide>)
        ensures
            s is Some <==> d < 3,
            s matches Some(x) ==> side_number(x) == d,
    {
        match d {
            0 => Some(TriggerModifierSide::Any),
            1 => Some(TriggerModifierSide::Left),
            2 => Some(TriggerModifierSide::Right),
            _ => None,
        }
    }
}

/// Persisted number of a modifier side.
pub open spec fn side_number(s: TriggerModifierSide) -> nat {
    match s {
        TriggerModifierSide::Any => 0,
        TriggerModifierSide::Left => 1,
        TriggerModifierSide::Right => 2,
    }
}

/// All valid modifier-side values (for normalization).
pub const TRIGGER_MODIFIER_SIDES: [TriggerModifierSide; 3] = [
    TriggerModifierSide::Any,
    TriggerModifierSide::Left,
    TriggerModifierSide::Right,
];

pub const MOD_ALT: u32 = 0x0001;

pub const MOD_CONTROL: u32 = 0x0002;

pub const MOD_SHIFT: u32 = 0x0004;

pub const MOD_WIN: u32 = 0x0008;

pub const VK_CAPITAL: u32 = 0x14;

pub const VK_SPACE: u32 = 0x20;

pub const VK_ESCAPE: u32 = 0x1B;

/// Fixed names of the keys that have one.
pub open spec fn fixed_key_name(vk: u32) -> Option<Seq<char>> {
    match vk {
        0x08 => Some("Backspace"@),
        0x09 => Some("Tab"@),
        0x0D => Some("Enter"@),
        0x13 => Some("Pause"@),
        0x1B => Some("Esc"@),
        0x14 => Some("Caps Lock"@),
        0x20 => Some("Space"@),
        0x21 => Some("PgUp"@),
        0x22 => Some("PgDn"@),
        0x23 => Some("End"@),
        0x24 => Some("Home"@),
        0x25 => Some("Left"@),
        0x26 => Some("Up"@),
        0x27 => Some("Right"@),
        0x28 => Some("Down"@),
        0x2C => Some("PrtScr"@),
        0x2D => Some("Ins"@),
        0x2E => Some("Del"@),
        0x5D => Some("Menu"@),
        0x90 => Some("Num Lock"@),
        0x91 => Some("Scroll Lock"@),
        0x6A => Some("Num *"@),
        0x6B => Some("Num +"@),
        0x6D => Some("Num -"@),
        0x6E => Some("Num ."@),
        0x6F => Some("Num /"@),
        0xBA => Some(";"@),
        0xBB => Some("="@),
        0xBC => Some(","@),
        0xBD => Some("-"@),
        0xBE => Some("."@),
        0xBF => Some("/"@),
        0xC0 => Some("`"@),
        0xDB => Some("["@),
        0xDC => Some("\\"@),
        0xDD => Some("]"@),
        0xDE => Some("'"@),
        _ => None,
    }
}

/// Name of a virtual key.
pub open spec fn key_name_of(vk: u32) -> Seq<char> {
    if fixed_key_name(vk) is Some {
        fixed_key_name(vk)->0
    } else if (0x30 <= vk <= 0x39) || (0x41 <= vk <= 0x5A) {
        seq![vk as char]
    } else if 0x60 <= vk <= 0x69 {
        "Num "@ + decimal((vk - 0x60) as nat)
    } else if 0x70 <= vk <= 0x87 {
        "F"@ + decimal((vk - 0x6F) as nat)
    } else {
        "VK"@ + zero_pad(hex_upper(vk as nat), 2)
    }
}

/// Side label put before each modifier name.
pub open spec fn side_prefix(side: TriggerModifierSide) -> Seq<char> {
    match side {
        TriggerModifierSide::Left => "Left "@,
        TriggerModifierSide::Right => "Right "@,
        TriggerModifierSide::Any => Seq::empty(),
    }
}

/// One modifier's part of a hotkey name, with its `" + "` joiner.
pub open spec fn modifier_part(on: bool, side: TriggerModifierSide, base: Seq<char>) -> Seq<char> {
    if on {
        side_prefix(side) + base + " + "@
    } else {
        Seq::empty()
    }
}

/// `Ctrl`, `Alt`, `Shift`, `Win` (those present, in that order), then the
/// key, joined by `" + "`.
pub open spec fn hotkey_name_of(modifiers: u32, vk: u32, side: TriggerModifierSide) -> Seq<char> {
    modifier_part(modifiers & MOD_CONTROL != 0, side, "Ctrl"@) + modifier_part(
        modifiers & MOD_ALT != 0,
        side,
        "Alt"@,
    ) + modifier_part(modifiers & MOD_SHIFT != 0, side, "Shift"@) + modifier_part(
        modifiers & MOD_WIN != 0,
        side,
        "Win"@,
    ) + key_name_of(vk)
}

fn fixed_key(vk: u32) -> (r: Option<&'static str>)
    ensures
        r is Some <==> fixed_key_name(vk) is Some,
        r matches Some(s) ==> s@ == fixed_key_name(vk)->0,
{
    match vk {
        0x08 => Some("Backspace"),
        0x09 => Some("Tab"),
        0x0D => Some("Enter"),
        0x13 => Some("Pause"),
        0x1B => Some("Esc"),
        0x14 => Some("Caps Lock"),
        0x20 => Some("Space"),
        0x21 => Some("PgUp"),
        0x22 => Some("PgDn"),
        0x23 => Some("End"),
        0x24 => Some("Home"),
        0x25 => Some("Left"),
        0x26 => Some("Up"),
        0x27 => Some("Right"),
        0x28 => Some("Down"),
        0x2C => Some("PrtScr"),
        0x2D => Some("Ins"),
        0x2E => Some("Del"),
        0x5D => Some("Menu"),
        0x90 => Some("Num Lock"),
        0x91 => Some("Scroll Lock"),
        0x6A => Some("Num *"),
        0x6B => Some("Num +"),
        0x6D => Some("Num -"),
        0x6E => Some("Num ."),
        0x6F => Some("Num /"),
        0xBA => Some(";"),
        0xBB => Some("="),
        0xBC => Some(","),
        0xBD => Some("-"),
        0xBE => Some("."),
        0xBF => Some("/"),
        0xC0 => Some("`"),
        0xDB => Some("["),
        0xDC => Some("\\"),
        0xDD => Some("]"),
        0xDE => Some("'"),
        _ => None,
    }
}

fn push_key_name(out: &mut Vec<char>, vk: u32)
    ensures
        final(out)@ == old(out)@ + key_name_of(vk),
{
    match fixed_key(vk) {
        Some(name) => {
            push_str(out, name);
        },
        None => {
            if (0x30 <= vk && vk <= 0x39) || (0x41 <= vk && vk <= 0x5A) {
                let b: u8 = vk as u8;
                out.push(b as char);
                assert(final(out)@ =~= old(out)@ + seq![vk as char]);
            } else if 0x60 <= vk && vk <= 0x69 {
                push_str(out, "Num ");
                push_decimal(out, (vk - 0x60) as u64);
                assert(final(out)@ =~= old(out)@ + ("Num "@ + decimal((vk - 0x60) as nat)));
            } else if 0x70 <= vk && vk <= 0x87 {
                push_str(out, "F");
                push_decimal(out, (vk - 0x6F) as u64);
                assert(final(out)@ =~= old(out)@ + ("F"@ + decimal((vk - 0x6F) as nat)));
            } else {
                push_str(out, "VK");
                push_hex_padded(out, vk as u64, 2);
                assert(final(out)@ =~= old(out)@ + ("VK"@ + zero_pad(hex_upper(vk as nat), 2)));
            }
        },
    }
}

pub fn key_name(vk: u32) -> (s: String)
    ensures
        s@ == key_name_of(vk),
{
    let mut out: Vec<char> = Vec::new();
    push_key_name(&mut out, vk);
    assert(out@ =~= key_name_of(vk));
    string_of(out.as_slice())
}

fn push_modifier(out: &mut Vec<char>, on: bool, side: TriggerModifierSide, base: &str)
    ensures
        final(out)@ == old(out)@ + modifier_part(on, side, base@),
{
    if on {
        match side {
            TriggerModifierSide::Left => push_str(out, "Left "),
            TriggerModifierSide::Right => push_str(out, "Right "),
            TriggerModifierSide::Any => {},
        }
        push_str(out, base);
        push_str(out, " + ");
        assert(final(out)@ =~= old(out)@ + modifier_part(on, side, base@));
    } else {
        assert(final(out)@ =~= old(out)@ + modifier_part(on, side, base@));
    }
}

/// Appends the hotkey name to `out`.
pub fn push_hotkey_name(out: &mut Vec<char>, modifiers: u32, vk: u32, side: TriggerModifierSide)
    ensures
        final(out)@ == old(out)@ + hotkey_name_of(modifiers, vk, side),
{
    push_modifier(out, modifiers & MOD_CONTROL != 0, side, "Ctrl");
    push_modifier(out, modifiers & MOD_ALT != 0, side, "Alt");
    push_modifier(out, modifiers & MOD_SHIFT != 0, side, "Shift");
    push_modifier(out, modifiers & MOD_WIN != 0, side, "Win");
    push_key_name(out, vk);
    assert(final(out)@ =~= old(out)@ + hotkey_name_of(modifiers, vk, side));
}

pub fn hotkey_name(modifiers: u32, vk: u32, side: TriggerModifierSide) -> (s: String)
    ensures
        s@ == hotkey_name_of(modifiers, vk, side),
{
    let mut out: Vec<char> = Vec::new();
    push_hotkey_name(&mut out, modifiers, vk, side);
    assert(out@ =~= hotkey_name_of(modifiers, vk, side));
    string_of(out.as_slice())
}

} // verus!
