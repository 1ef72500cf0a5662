//! `#RRGGBB` / `#AARRGGBB` color normalization.
//!
//! Always returns an uppercase `#AARRGGBB` string so overlay code has one
//! canonical form. Invalid values fall back without breaking the file.

use vstd::prelude::*;
use crate::text::{
    chars_of, hex_number, hex_upper, is_hex_digit, push_hex_padded, push_str, string_of, trim,
    trimmed, zero_pad, hex_value,
};

verus! {

/// `s` without any leading `#` characters.
pub open spec fn strip_hashes(s: Seq<char>) -> Seq<char>
    decreases s.len(),
{
    if s.len() > 0 && s[0] == '#' {
        strip_hashes(s.drop_first())
    } else {
        s
    }
}

/// All characters are hexadecimal digits.
pub open spec fn all_hex(s: Seq<char>) -> bool {
    forall|i: int| 0 <= i < s.len() ==> is_hex_digit(#[trigger] s[i])
}

/// The value of a base-16 number written with hexadecimal digits only (at
/// least one; no sign, as `#RRGGBB` and `#AARRGGBB` colors are written).
pub open spec fn radix16(s: Seq<char>) -> Option<nat> {
    if s.len() > 0 && all_hex(s) {
        Some(hex_number(s))
    } else {
        None
    }
}

/// The hexadecimal body of a color: trimmed, leading `#`s removed.
pub open spec fn color_body(value: Seq<char>) -> Seq<char> {
    strip_hashes(trimmed(value))
}

/// Canonical `#AARRGGBB` form of a color string, if it is one: six digits
/// get an opaque `FF` alpha, eight digits are taken as they are.
pub open spec fn canonical_color(value: Seq<char>) -> Option<Seq<char>> {
    let hex = color_body(value);
    if hex.len() == 6 && radix16(hex) is Some {
        Some("#FF"@ + zero_pad(hex_upper(radix16(hex)->0), 6))
    } else if hex.len() == 8 && radix16(hex) is Some {
        Some("#"@ + zero_pad(hex_upper(radix16(hex)->0), 8))
    } else {
        None
    }
}

/// What `normalize_color` returns.
pub open spec fn normalized_color(value: Seq<char>, fallback: Seq<char>) -> Seq<char> {
    match canonical_color(value) {
        Some(c) => c,
        None => match canonical_color(fallback) {
            Some(c) => c,
            None => "#FF007AFF"@,
        },
    }
}

proof fn lemma_hex_number_bound(s: Seq<char>)
    requires
        all_hex(s),
    ensures
        hex_number(s) < vstd::arithmetic::power::pow(16, s.len()),
    decreases s.len(),
{
    if s.len() > 0 {
        assert(all_hex(s.drop_last())) by {
            assert forall|i: int| 0 <= i < s.drop_last().len() implies is_hex_digit(
                #[trigger] s.drop_last()[i],
            ) by {
                assert(s.drop_last()[i] == s[i]);
            }
        }
        lemma_hex_number_bound(s.drop_last());
        assert(is_hex_digit(s[s.len() - 1]));
        assert(hex_value(s.last()) < 16);
        vstd::arithmetic::power::lemma_pow_adds(16, (s.len() - 1) as nat, 1);
        vstd::arithmetic::power::lemma_pow1(16);
        let p = vstd::arithmetic::power::pow(16, (s.len() - 1) as nat);
        assert(hex_number(s.drop_last()) * 16 + hex_value(s.last()) < p * 16) by (nonlinear_arith)
            requires
                hex_number(s.drop_last()) < p,
                hex_value(s.last()) < 16,
        ;
    } else {
        vstd::arithmetic::power::lemma_pow0(16);
    }
}

proof fn lemma_sixteen_to_the_seventh()
    ensures
        vstd::arithmetic::power::pow(16, 7) == 0x1000_0000,
{
    reveal_with_fuel(vstd::arithmetic::power::pow, 8);
}

fn strip_leading_hashes(v: &Vec<char>) -> (r: Vec<char>)
    ensures
        r@ == strip_hashes(v@),
{
    let mut i: usize = 0;
    assert(v@.subrange(0, v@.len() as int) =~= v@);
    while i < v.len() && v[i] == '#'
        invariant
            i <= v.len(),
            strip_hashes(v@) == strip_hashes(v@.subrange(i as int, v@.len() as int)),
        decreases v.len() - i,
    {
        assert(v@.subrange(i as int, v@.len() as int).drop_first() =~= v@.subrange(
            i as int + 1,
            v@.len() as int,
        ));
        i = i + 1;
    }
    let mut r: Vec<char> = Vec::new();
    let mut k: usize = i;
    while k < v.len()
        invariant
            i <= k <= v.len(),
            r@ == v@.subrange(i as int, k as int),
        decreases v.len() - k,
    {
        r.push(v[k]);
        k = k + 1;
    }
    r
}

fn hex_digit_value(c: char) -> (r: Option<u32>)
    ensures
        r is Some <==> is_hex_digit(c),
        r matches Some(d) ==> d == hex_value(c) && d < 16,
{
    if '0' <= c && c <= '9' {
        Some(c as u32 - 48)
    } else if 'a' <= c && c <= 'f' {
        Some(c as u32 - 87)
    } else if 'A' <= c && c <= 'F' {
        Some(c as u32 - 55)
    } else {
        None
    }
}

/// Parse the hexadecimal digits `v[from..]` (at most eight of them).
fn parse_hex_digits(v: &Vec<char>, from: usize) -> (r: Option<u32>)
    requires
        from <= v.len(),
        v.len() - from <= 8,
    ensures
        r is Some <==> all_hex(v@.subrange(from as int, v@.len() as int)),
        r matches Some(x) ==> x == hex_number(v@.subrange(from as int, v@.len() as int)),
{
    let mut acc: u32 = 0;
    let mut i: usize = from;
    while i < v.len()
        invariant
            from <= i <= v.len(),
            v.len() - from <= 8,
            all_hex(v@.subrange(from as int, i as int)),
            acc == hex_number(v@.subrange(from as int, i as int)),
        decreases v.len() - i,
    {
        let d = match hex_digit_value(v[i]) {
            Some(d) => d,
            None => {
                assert(!all_hex(v@.subrange(from as int, v@.len() as int))) by {
                    assert(v@.subrange(from as int, v@.len() as int)[i - from] == v@[i as int]);
                }
                return None;
            },
        };
        proof {
            let s = v@.subrange(from as int, i as int + 1);
            assert(s.drop_last() =~= v@.subrange(from as int, i as int));
            lemma_hex_number_bound(v@.subrange(from as int, i as int));
            vstd::arithmetic::power::lemma_pow_increases(16, (i - from) as nat, 7);
            lemma_sixteen_to_the_seventh();
            assert(all_hex(s)) by {
                assert forall|j: int| 0 <= j < s.len() implies is_hex_digit(#[trigger] s[j]) by {
                    if j < s.len() - 1 {
                        assert(s[j] == v@.subrange(from as int, i as int)[j]);
                    }
                }
            }
        }
        acc = acc * 16 + d;
        i = i + 1;
    }
    Some(acc)
}

/// The value of a body of at most eight hexadecimal digits.
pub(crate) fn radix16_exec(v: &Vec<char>) -> (r: Option<u32>)
    requires
        v.len() <= 8,
    ensures
        r is Some <==> radix16(v@) is Some,
        r matches Some(x) ==> x == radix16(v@)->0,
{
    if v.len() > 0 {
        assert(v@ =~= v@.subrange(0, v@.len() as int));
        parse_hex_digits(v, 0)
    } else {
        None
    }
}

pub(crate) fn color_body_exec(value: &str) -> (r: Vec<char>)
    ensures
        r@ == color_body(value@),
{
    let v = chars_of(value);
    let t = trim(v.as_slice());
    strip_leading_hashes(&t)
}

fn parse_color(value: &str) -> (r: Option<String>)
    ensures
        match r {
            Some(s) => canonical_color(value@) == Some(s@),
            None => canonical_color(value@) is None,
        },
{
    let hex = color_body_exec(value);
    if hex.len() == 6 {
        match radix16_exec(&hex) {
            Some(rgb) => {
                let mut out: Vec<char> = Vec::new();
                push_str(&mut out, "#FF");
                push_hex_padded(&mut out, rgb as u64, 6);
                Some(string_of(out.as_slice()))
            },
            None => None,
        }
    } else if hex.len() == 8 {
        match radix16_exec(&hex) {
            Some(argb) => {
                let mut out: Vec<char> = Vec::new();
                push_str(&mut out, "#");
                push_hex_padded(&mut out, argb as u64, 8);
                Some(string_of(out.as_slice()))
            },
            None => None,
        }
    } else {
        None
    }
}

/// Normalize a color string, returning `fallback` when invalid.
pub fn normalize_color(value: &str, fallback: &str) -> (s: String)
    ensures
        s@ == normalized_color(value@, fallback@),
{
    match parse_color(value) {
        Some(s) => s,
        None => match parse_color(fallback) {
            Some(s) => s,
            None => crate::text::owned("#FF007AFF"),
        },
    }
}

/// A normalized color always starts with `#`.
pub proof fn lemma_normalized_starts_with_hash(value: Seq<char>, fallback: Seq<char>)
    ensures
        normalized_color(value, fallback).len() >= 1,
        normalized_color(value, fallback)[0] == '#',
{
    reveal_strlit("#FF");
    reveal_strlit("#");
    reveal_strlit("#FF007AFF");
    let hex = color_body(value);
    let fb = color_body(fallback);
    if hex.len() == 6 && radix16(hex) is Some {
        assert(("#FF"@ + zero_pad(hex_upper(radix16(hex)->0), 6))[0] == '#');
    } else if hex.len() == 8 && radix16(hex) is Some {
        assert(("#"@ + zero_pad(hex_upper(radix16(hex)->0), 8))[0] == '#');
    } else if fb.len() == 6 && radix16(fb) is Some {
        assert(("#FF"@ + zero_pad(hex_upper(radix16(fb)->0), 6))[0] == '#');
    } else if fb.len() == 8 && radix16(fb) is Some {
        assert(("#"@ + zero_pad(hex_upper(radix16(fb)->0), 8))[0] == '#');
    }
}

/// An uppercase hexadecimal digit.
pub open spec fn is_upper_hex(c: char) -> bool {
    ('0' <= c && c <= '9') || ('A' <= c && c <= 'F')
}

/// The canonical color form: `#` and eight uppercase hexadecimal digits.
pub open spec fn is_canonical_color(s: Seq<char>) -> bool {
    &&& s.len() == 9
    &&& s[0] == '#'
    &&& forall|i: int| 1 <= i < 9 ==> is_upper_hex(#[trigger] s[i])
}

proof fn lemma_hex_upper_shape(n: nat, k: nat)
    requires
        k >= 1,
        n < vstd::arithmetic::power::pow(16, k),
    ensures
        hex_upper(n).len() <= k,
        forall|i: int| 0 <= i < hex_upper(n).len() ==> is_upper_hex(#[trigger] hex_upper(n)[i]),
    decreases n,
{
    if n >= 16 {
        vstd::arithmetic::power::lemma_pow1(16);
        if k == 1 {
            assert(false);
        }
        vstd::arithmetic::power::lemma_pow_adds(16, (k - 1) as nat, 1);
        let p = vstd::arithmetic::power::pow(16, (k - 1) as nat);
        assert(n / 16 < p) by (nonlinear_arith)
            requires
                n < p * 16,
        ;
        lemma_hex_upper_shape(n / 16, (k - 1) as nat);
        let h = hex_upper(n / 16);
        assert forall|i: int| 0 <= i < hex_upper(n).len() implies is_upper_hex(
            #[trigger] hex_upper(n)[i],
        ) by {
            if i < h.len() {
                assert(hex_upper(n)[i] == h[i]);
            }
        }
    }
}

proof fn lemma_radix16_bound(hex: Seq<char>)
    requires
        radix16(hex) is Some,
    ensures
        radix16(hex)->0 < vstd::arithmetic::power::pow(16, hex.len()),
{
    lemma_hex_number_bound(hex);
}

proof fn lemma_padded_shape(h: Seq<char>, w: nat)
    requires
        h.len() <= w,
        forall|i: int| 0 <= i < h.len() ==> is_upper_hex(#[trigger] h[i]),
    ensures
        zero_pad(h, w).len() == w,
        forall|i: int| 0 <= i < w ==> is_upper_hex(#[trigger] zero_pad(h, w)[i]),
{
    let z = zero_pad(h, w);
    assert forall|i: int| 0 <= i < w implies is_upper_hex(#[trigger] z[i]) by {
        if h.len() < w {
            let pad = (w - h.len()) as int;
            if i >= pad {
                assert(z[i] == h[i - pad]);
            }
        }
    }
}

proof fn lemma_canonical_shape(value: Seq<char>)
    requires
        canonical_color(value) is Some,
    ensures
        is_canonical_color(canonical_color(value)->0),
{
    reveal_strlit("#FF");
    reveal_strlit("#");
    let hex = color_body(value);
    lemma_radix16_bound(hex);
    let x = radix16(hex)->0;
    if hex.len() == 6 {
        lemma_hex_upper_shape(x, 6);
        lemma_padded_shape(hex_upper(x), 6);
        let c = "#FF"@ + zero_pad(hex_upper(x), 6);
        assert forall|i: int| 1 <= i < 9 implies is_upper_hex(#[trigger] c[i]) by {
            if i >= 3 {
                assert(c[i] == zero_pad(hex_upper(x), 6)[i - 3]);
            }
        }
    } else {
        lemma_hex_upper_shape(x, 8);
        lemma_padded_shape(hex_upper(x), 8);
        let c = "#"@ + zero_pad(hex_upper(x), 8);
        assert forall|i: int| 1 <= i < 9 implies is_upper_hex(#[trigger] c[i]) by {
            assert(c[i] == zero_pad(hex_upper(x), 8)[i - 1]);
        }
    }
}

/// A normalized color is always in the canonical uppercase `#AARRGGBB`
/// form, whatever the value and the fallback.
pub proof fn law_normalized_color_is_canonical(value: Seq<char>, fallback: Seq<char>)
    ensures
        is_canonical_color(normalized_color(value, fallback)),
{
    if canonical_color(value) is Some {
        lemma_canonical_shape(value);
    } else if canonical_color(fallback) is Some {
        lemma_canonical_shape(fallback);
    } else {
        reveal_strlit("#FF007AFF");
    }
}

proof fn lemma_hex_char_of_value(c: char)
    requires
        is_upper_hex(c),
    ensures
        hex_value(c) < 16,
        crate::text::hex_char(hex_value(c)) == c,
{
}

proof fn lemma_hex_round_trip(d: Seq<char>)
    requires
        d.len() >= 1,
        forall|i: int| 0 <= i < d.len() ==> is_upper_hex(#[trigger] d[i]),
    ensures
        zero_pad(hex_upper(hex_number(d)), d.len()) == d,
    decreases d.len(),
{
    let c = d.last();
    lemma_hex_char_of_value(c);
    let hv = hex_value(c);
    if d.len() == 1 {
        assert(d.drop_last() =~= Seq::<char>::empty());
        assert(hex_number(d) == hv);
        assert(hex_upper(hv) =~= d);
    } else {
        let p = d.drop_last();
        assert forall|i: int| 0 <= i < p.len() implies is_upper_hex(#[trigger] p[i]) by {
            assert(p[i] == d[i]);
        }
        lemma_hex_round_trip(p);
        let hp = hex_number(p);
        let v = hex_number(d);
        assert(v == hp * 16 + hv);
        let k = d.len();
        if hp == 0 {
            assert(v == hv);
            assert(hex_upper(v) =~= seq![c]);
            assert(hex_upper(0) =~= seq!['0']);
            assert forall|i: int| 0 <= i < p.len() implies p[i] == '0' by {
                assert(zero_pad(hex_upper(0), (k - 1) as nat)[i] == '0');
            }
            assert(p =~= Seq::new((k - 1) as nat, |i: int| '0'));
            assert(d =~= p.push(c));
            assert(zero_pad(seq![c], k) =~= Seq::new((k - 1) as nat, |i: int| '0') + seq![c]);
            assert(zero_pad(seq![c], k) =~= d);
        } else {
            assert(v / 16 == hp && v % 16 == hv) by (nonlinear_arith)
                requires
                    v == hp * 16 + hv,
                    hv < 16,
            ;
            let h = hex_upper(hp);
            assert(hex_upper(v) == h.push(c));
            assert(h.len() <= k - 1);
            if h.len() == k - 1 {
                assert(zero_pad(h, (k - 1) as nat) == h);
                assert(zero_pad(h.push(c), k) =~= d);
            } else {
                assert(zero_pad(h.push(c), k) =~= zero_pad(h, (k - 1) as nat).push(c));
            }
        }
    }
}

proof fn lemma_canonical_body(c: Seq<char>)
    requires
        is_canonical_color(c),
    ensures
        color_body(c) == c.drop_first(),
{
    assert(!crate::text::is_space(c[0]));
    assert(is_upper_hex(c[8]));
    assert(!crate::text::is_space(c.last()));
    assert(crate::text::lead_space(c) == 0);
    assert(crate::text::trail_space(c) == 0);
    assert(trimmed(c) =~= c);
    let d = c.drop_first();
    assert(is_upper_hex(c[1]));
    assert(d[0] == c[1]);
    assert(strip_hashes(d) == d);
    assert(strip_hashes(c) == d);
}

/// Normalizing a color that is already canonical gives it back unchanged,
/// whatever the fallback.
pub proof fn law_canonical_color_is_kept(c: Seq<char>, fallback: Seq<char>)
    requires
        is_canonical_color(c),
    ensures
        normalized_color(c, fallback) == c,
{
    reveal_strlit("#");
    lemma_canonical_body(c);
    let d = c.drop_first();
    assert forall|i: int| 0 <= i < d.len() implies is_upper_hex(#[trigger] d[i]) by {
        assert(d[i] == c[i + 1]);
    }
    assert(all_hex(d));
    assert(radix16(d) == Some(hex_number(d)));
    lemma_hex_round_trip(d);
    assert("#"@ + d =~= c);
}

/// The four bytes `[a, r, g, b]` of a canonical color.
pub open spec fn argb_bytes_of(canonical: Seq<char>) -> Option<Seq<u8>> {
    let hex = color_body(canonical);
    if hex.len() == 8 && radix16(hex) is Some {
        let v = radix16(hex)->0;
        Some(
            seq![
                ((v / 0x100_0000) % 256) as u8,
                ((v / 0x1_0000) % 256) as u8,
                ((v / 0x100) % 256) as u8,
                (v % 256) as u8,
            ],
        )
    } else {
        None
    }
}

/// Split a canonical `#AARRGGBB` color into `[a, r, g, b]` bytes.
pub fn to_argb_bytes(canonical: &str) -> (r: Option<[u8; 4]>)
    ensures
        match r {
            Some(b) => argb_bytes_of(canonical@) == Some(b@),
            None => argb_bytes_of(canonical@) is None,
        },
{
    let hex = color_body_exec(canonical);
    if hex.len() != 8 {
        return None;
    }
    match radix16_exec(&hex) {
        Some(argb) => {
            let b = [
                ((argb / 0x100_0000) % 256) as u8,
                ((argb / 0x1_0000) % 256) as u8,
                ((argb / 0x100) % 256) as u8,
                (argb % 256) as u8,
            ];
            assert(b@ =~= argb_bytes_of(canonical@)->0);
            Some(b)
        },
        None => None,
    }
}

/// Two uppercase hexadecimal digits for a byte (`{:02X}`).
pub open spec fn hex2(x: u8) -> Seq<char> {
    zero_pad(hex_upper(x as nat), 2)
}

/// The canonical `#AARRGGBB` text of four bytes.
pub open spec fn argb_text(a: u8, r: u8, g: u8, b: u8) -> Seq<char> {
    "#"@ + hex2(a) + hex2(r) + hex2(g) + hex2(b)
}

proof fn lemma_hex2(x: u8)
    ensures
        hex2(x) == seq![
            crate::text::hex_char((x / 16) as nat),
            crate::text::hex_char((x % 16) as nat),
        ],
        hex_number(hex2(x)) == x,
        is_upper_hex(hex2(x)[0]),
        is_upper_hex(hex2(x)[1]),
{
    let hi = crate::text::hex_char((x / 16) as nat);
    let lo = crate::text::hex_char((x % 16) as nat);
    if x < 16 {
        assert(hex_upper(x as nat) =~= seq![lo]);
        assert(hex2(x) =~= seq!['0', lo]);
        assert(hi == '0');
    } else {
        assert(hex_upper((x / 16) as nat) =~= seq![hi]);
        assert(hex_upper(x as nat) =~= seq![hi, lo]);
    }
    let h = hex2(x);
    lemma_hex_number_pair(h);
}

proof fn lemma_hex_number_pair(y: Seq<char>)
    requires
        y.len() == 2,
    ensures
        hex_number(y) == hex_value(y[0]) * 16 + hex_value(y[1]),
{
    let one = seq![y[0]];
    assert(one.drop_last() =~= Seq::<char>::empty());
    assert(hex_number(Seq::<char>::empty()) == 0);
    assert(hex_number(one) == hex_number(one.drop_last()) * 16 + hex_value(one.last()));
    assert(y.drop_last() =~= one);
    assert(hex_number(y) == hex_number(y.drop_last()) * 16 + hex_value(y.last()));
}

proof fn lemma_hex_number_append2(x: Seq<char>, y: Seq<char>)
    requires
        y.len() == 2,
    ensures
        hex_number(x + y) == hex_number(x) * 256 + hex_number(y),
{
    let xy = x + y;
    let xp = x.push(y[0]);
    lemma_hex_number_pair(y);
    assert(xy.drop_last() =~= xp);
    assert(xp.drop_last() =~= x);
    assert(hex_number(xp) == hex_number(xp.drop_last()) * 16 + hex_value(xp.last()));
    assert(hex_number(xy) == hex_number(xy.drop_last()) * 16 + hex_value(xy.last()));
}

/// Formatting four bytes as `#AARRGGBB` and splitting the text again gives
/// the same four bytes back.
pub proof fn law_argb_round_trip(a: u8, r: u8, g: u8, b: u8)
    ensures
        argb_bytes_of(argb_text(a, r, g, b)) == Some(seq![a, r, g, b]),
{
    reveal_strlit("#");
    lemma_hex2(a);
    lemma_hex2(r);
    lemma_hex2(g);
    lemma_hex2(b);
    let d = hex2(a) + hex2(r) + hex2(g) + hex2(b);
    let c = argb_text(a, r, g, b);
    assert(c =~= "#"@ + d);
    assert(d =~= seq![
        hex2(a)[0], hex2(a)[1], hex2(r)[0], hex2(r)[1],
        hex2(g)[0], hex2(g)[1], hex2(b)[0], hex2(b)[1],
    ]);
    assert forall|i: int| 0 <= i < 8 implies is_upper_hex(#[trigger] d[i]) by {}
    assert forall|i: int| 1 <= i < 9 implies is_upper_hex(#[trigger] c[i]) by {
        assert(c[i] == d[i - 1]);
    }
    lemma_canonical_body(c);
    assert(c.drop_first() =~= d);
    assert forall|i: int| 0 <= i < d.len() implies is_hex_digit(#[trigger] d[i]) by {
        assert(is_upper_hex(d[i]));
    }
    lemma_hex_number_append2(hex2(a), hex2(r));
    lemma_hex_number_append2(hex2(a) + hex2(r), hex2(g));
    lemma_hex_number_append2(hex2(a) + hex2(r) + hex2(g), hex2(b));
    let v = hex_number(d);
    assert(v == ((a * 256 + r) * 256 + g) * 256 + b);
    assert(radix16(d) == Some(v));
    let (av, rv, gv, bv) = (a as int, r as int, g as int, b as int);
    assert((v / 0x100_0000) % 256 == av && (v / 0x1_0000) % 256 == rv && (v / 0x100) % 256 == gv
        && v % 256 == bv) by (nonlinear_arith)
        requires
            v == ((av * 256 + rv) * 256 + gv) * 256 + bv,
            0 <= av < 256,
            0 <= rv < 256,
            0 <= gv < 256,
            0 <= bv < 256,
    ;
    assert(argb_bytes_of(c)->0 =~= seq![a, r, g, b]);
}

} // verus!
