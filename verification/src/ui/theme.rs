//! Curated appearance presets.
//!
//! Presets apply immediately and save; diverging from a preset surfaces a
//! "Custom" state while keeping raw color editing available underneath.

use vstd::prelude::*;
use crate::settings::color::{color_body, color_body_exec, radix16, radix16_exec};

verus! {

/// Named preset driving accent + overlay colors.
#[derive(Debug, Clone, Copy, PartialEq, Eq)]
pub struct Preset {
    pub name: &'static str,
    pub accent: &'static str,
    pub sector_fill: &'static str,
    pub sector_stroke: &'static str,
    pub ring_fill: &'static str,
    pub preview_border: &'static str,
}

/// Number of presets.
pub const PRESET_COUNT: usize = 3;

/// Preset names, in menu order.
pub const PRESET_NAMES: [&'static str; 3] = ["LoopW Blue", "LoopW Cobalt", "LoopW Violet"];

/// The preset at `i`, in menu order.
pub open spec fn preset_at(i: int) -> Preset {
    if i == 0 {
        Preset {
            name: "LoopW Blue",
            accent: "#3D9BFF",
            sector_fill: "#7A3D9BFF",
            sector_stroke: "#F03D9BFF",
            ring_fill: "#B61B212B",
            preview_border: "#B83D9BFF",
        }
    } else if i == 1 {
        Preset {
            name: "LoopW Cobalt",
            accent: "#2F6BFF",
            sector_fill: "#7A2F6BFF",
            sector_stroke: "#F02F6BFF",
            ring_fill: "#B6161D2B",
            preview_border: "#B82F6BFF",
        }
    } else {
        Preset {
            name: "LoopW Violet",
            accent: "#8B5CF6",
            sector_fill: "#7A8B5CF6",
            sector_stroke: "#F08B5CF6",
            ring_fill: "#B61E1B2E",
            preview_border: "#B88B5CF6",
        }
    }
}

/// The preset at `index`, in menu order.
pub fn preset(index: usize) -> (p: Preset)
    requires
        index < PRESET_COUNT,
    ensures
        p == preset_at(index as int),
{
    if index == 0 {
        Preset {
            name: "LoopW Blue",
            accent: "#3D9BFF",
            sector_fill: "#7A3D9BFF",
            sector_stroke: "#F03D9BFF",
            ring_fill: "#B61B212B",
            preview_border: "#B83D9BFF",
        }
    } else if index == 1 {
        Preset {
            name: "LoopW Cobalt",
            accent: "#2F6BFF",
            sector_fill: "#7A2F6BFF",
            sector_stroke: "#F02F6BFF",
            ring_fill: "#B6161D2B",
            preview_border: "#B82F6BFF",
        }
    } else {
        Preset {
            name: "LoopW Violet",
            accent: "#8B5CF6",
            sector_fill: "#7A8B5CF6",
            sector_stroke: "#F08B5CF6",
            ring_fill: "#B61E1B2E",
            preview_border: "#B88B5CF6",
        }
    }
}

/// Every preset, in menu order.
pub fn presets() -> (v: Vec<Preset>)
    ensures
        v@ == seq![preset_at(0), preset_at(1), preset_at(2)],
{
    let mut v: Vec<Preset> = Vec::new();
    v.push(preset(0));
    v.push(preset(1));
    v.push(preset(2));
    v
}

/// The `[a, r, g, b]` bytes of a `#RRGGBB` (opaque) or `#AARRGGBB` color.
pub open spec fn color_bytes(value: Seq<char>) -> Option<Seq<u8>> {
    let hex = color_body(value);
    if hex.len() == 6 && radix16(hex) is Some {
        let v = radix16(hex)->0;
        Some(seq![0xFFu8, ((v / 0x1_0000) % 256) as u8, ((v / 0x100) % 256) as u8, (v % 256) as u8])
    } else if hex.len() == 8 && radix16(hex) is Some {
        let v = radix16(hex)->0;
        Some(
            seq![
                ((v / 0x100_0000) % 256) as u8,
                ((v / 0x1_0000) % 256) as u8,
                ((v / 0x100) % 256) as u8,
                (v % 256) as u8,
            ],
        )
    } else {
        None
    }
}

fn parse_color_bytes(value: &str) -> (r: Option<[u8; 4]>)
    ensures
        match r {
            Some(b) => color_bytes(value@) == Some(b@),
            None => color_bytes(value@) is None,
        },
{
    let hex = color_body_exec(value);
    if hex.len() == 6 {
        match radix16_exec(&hex) {
            Some(v) => {
                let b = [0xFFu8, ((v / 0x1_0000) % 256) as u8, ((v / 0x100) % 256) as u8, (v
                    % 256) as u8];
                assert(b@ =~= color_bytes(value@)->0);
                Some(b)
            },
            None => None,
        }
    } else if hex.len() == 8 {
        match radix16_exec(&hex) {
            Some(v) => {
                let b = [
                    ((v / 0x100_0000) % 256) as u8,
                    ((v / 0x1_0000) % 256) as u8,
                    ((v / 0x100) % 256) as u8,
                    (v % 256) as u8,
                ];
                assert(b@ =~= color_bytes(value@)->0);
                Some(b)
            },
            None => None,
        }
    } else {
        None
    }
}

/// The parsed colors of a preset, in field order.
pub open spec fn preset_bytes(p: Preset) -> Seq<Option<Seq<u8>>> {
    seq![
        color_bytes(p.accent@),
        color_bytes(p.sector_fill@),
        color_bytes(p.sector_stroke@),
        color_bytes(p.ring_fill@),
        color_bytes(p.preview_border@),
    ]
}

/// The name of the first preset whose colors parse to `colors`, when all
/// five of `colors` parse.
pub open spec fn matching_preset_of(colors: Seq<Option<Seq<u8>>>) -> Option<Seq<char>> {
    if exists|i: int| 0 <= i < 5 && (#[trigger] colors[i]) is None {
        None
    } else if preset_bytes(preset_at(0)) == colors {
        Some(preset_at(0).name@)
    } else if preset_bytes(preset_at(1)) == colors {
        Some(preset_at(1).name@)
    } else if preset_bytes(preset_at(2)) == colors {
        Some(preset_at(2).name@)
    } else {
        None
    }
}

fn same_bytes(a: [u8; 4], b: [u8; 4]) -> (r: bool)
    ensures
        r == (a@ == b@),
{
    let r = a[0] == b[0] && a[1] == b[1] && a[2] == b[2] && a[3] == b[3];
    if r {
        assert(a@ =~= b@);
    } else {
        assert(a@ != b@) by {
            if a@ == b@ {
                assert(a@[0] == b@[0] && a@[1] == b@[1] && a@[2] == b@[2] && a@[3] == b@[3]);
            }
        }
    }
    r
}

fn preset_has_colors(p: &Preset, colors: &[[u8; 4]; 5]) -> (r: bool)
    ensures
        r == (preset_bytes(*p) == seq![
            Some(colors@[0]@),
            Some(colors@[1]@),
            Some(colors@[2]@),
            Some(colors@[3]@),
            Some(colors@[4]@),
        ]),
{
    let ghost want = seq![
        Some(colors@[0]@),
        Some(colors@[1]@),
        Some(colors@[2]@),
        Some(colors@[3]@),
        Some(colors@[4]@),
    ];
    let fields = [p.accent, p.sector_fill, p.sector_stroke, p.ring_fill, p.preview_border];
    let mut i: usize = 0;
    while i < 5
        invariant
            i <= 5,
            fields@ == seq![p.accent, p.sector_fill, p.sector_stroke, p.ring_fill, p.preview_border],
            want == seq![
                Some(colors@[0]@),
                Some(colors@[1]@),
                Some(colors@[2]@),
                Some(colors@[3]@),
                Some(colors@[4]@),
            ],
            forall|j: int| 0 <= j < i ==> (#[trigger] preset_bytes(*p)[j]) == want[j],
        decreases 5 - i,
    {
        let ok = match parse_color_bytes(fields[i]) {
            Some(b) => same_bytes(b, colors[i]),
            None => false,
        };
        if !ok {
            assert(preset_bytes(*p)[i as int] != want[i as int]);
            return false;
        }
        i = i + 1;
    }
    assert(preset_bytes(*p) =~= want);
    true
}

/// Name of the preset matching the current colors, if any.
pub fn matching_preset(
    accent: &str,
    sector_fill: &str,
    sector_stroke: &str,
    ring_fill: &str,
    preview_border: &str,
) -> (r: Option<&'static str>)
    ensures
        match r {
            Some(n) => matching_preset_of(
                seq![
                    color_bytes(accent@),
                    color_bytes(sector_fill@),
                    color_bytes(sector_stroke@),
                    color_bytes(ring_fill@),
                    color_bytes(preview_border@),
                ],
            ) == Some(n@),
            None => matching_preset_of(
                seq![
                    color_bytes(accent@),
                    color_bytes(sector_fill@),
                    color_bytes(sector_stroke@),
                    color_bytes(ring_fill@),
                    color_bytes(preview_border@),
                ],
            ) is None,
        },
{
    let ghost given = seq![
        color_bytes(accent@),
        color_bytes(sector_fill@),
        color_bytes(sector_stroke@),
        color_bytes(ring_fill@),
        color_bytes(preview_border@),
    ];
    let a = match parse_color_bytes(accent) {
        Some(b) => b,
        None => {
            assert(given[0] is None);
            return None;
        },
    };
    let b = match parse_color_bytes(sector_fill) {
        Some(b) => b,
        None => {
            assert(given[1] is None);
            return None;
        },
    };
    let c = match parse_color_bytes(sector_stroke) {
        Some(b) => b,
        None => {
            assert(given[2] is None);
            return None;
        },
    };
    let d = match parse_color_bytes(ring_fill) {
        Some(b) => b,
        None => {
            assert(given[3] is None);
            return None;
        },
    };
    let e = match parse_color_bytes(preview_border) {
        Some(b) => b,
        None => {
            assert(given[4] is None);
            return None;
        },
    };
    let colors = [a, b, c, d, e];
    assert(given =~= seq![
        Some(colors@[0]@),
        Some(colors@[1]@),
        Some(colors@[2]@),
        Some(colors@[3]@),
        Some(colors@[4]@),
    ]);
    assert(!(exists|i: int| 0 <= i < 5 && (#[trigger] given[i]) is None));
    let p0 = preset(0);
    if preset_has_colors(&p0, &colors) {
        return Some(p0.name);
    }
    let p1 = preset(1);
    if preset_has_colors(&p1, &colors) {
        return Some(p1.name);
    }
    let p2 = preset(2);
    if preset_has_colors(&p2, &colors) {
        return Some(p2.name);
    }
    None
}

} // verus!
