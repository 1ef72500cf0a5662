//! Laws about action names: a token or a display name names exactly one
//! action, so every action's token parses back to that action.

use vstd::prelude::*;
use super::actions::{
    WindowAction, display_name_of, is_separator, law_token_lookup_is_first_match, strip_separators,
    token_lookup, token_of, tokens_match, variant_name_of,
};
use crate::text::ascii_lower_seq;

verus! {

/// No character is a separator.
pub open spec fn no_separators(s: Seq<char>) -> bool {
    forall|i: int| 0 <= i < s.len() ==> !is_separator(#[trigger] s[i])
}

proof fn lemma_strip_removes_separators(s: Seq<char>)
    ensures
        no_separators(strip_separators(s)),
    decreases s.len(),
{
    if s.len() > 0 {
        lemma_strip_removes_separators(s.drop_last());
        let r = strip_separators(s.drop_last());
        if !is_separator(s.last()) {
            assert forall|i: int| 0 <= i < r.push(s.last()).len() implies !is_separator(
                #[trigger] r.push(s.last())[i],
            ) by {
                if i < r.len() {
                    assert(r.push(s.last())[i] == r[i]);
                }
            }
        }
    }
}

proof fn lemma_strip_keeps_clean(s: Seq<char>)
    requires
        no_separators(s),
    ensures
        strip_separators(s) == s,
    decreases s.len(),
{
    if s.len() > 0 {
        assert(no_separators(s.drop_last())) by {
            assert forall|i: int| 0 <= i < s.drop_last().len() implies !is_separator(
                #[trigger] s.drop_last()[i],
            ) by {
                assert(s.drop_last()[i] == s[i]);
            }
        }
        lemma_strip_keeps_clean(s.drop_last());
        assert(!is_separator(s[s.len() - 1]));
        assert(s.drop_last().push(s.last()) =~= s);
    }
}

/// Normalizing a token again changes nothing.
pub proof fn lemma_token_of_idempotent(s: Seq<char>)
    ensures
        token_of(token_of(s)) == token_of(s),
{
    let t = strip_separators(s);
    lemma_strip_removes_separators(s);
    let l = ascii_lower_seq(t);
    assert(no_separators(l)) by {
        assert forall|i: int| 0 <= i < l.len() implies !is_separator(#[trigger] l[i]) by {
            assert(!is_separator(t[i]));
        }
    }
    lemma_strip_keeps_clean(l);
    assert(ascii_lower_seq(l) =~= l);
}

/// A short fingerprint of a token: length, first two and last two
/// characters.
pub open spec fn fingerprint(t: Seq<char>) -> (int, char, char, char, char) {
    (t.len() as int, t[0], t[1], t[t.len() - 1], t[t.len() - 2])
}

/// The fingerprint of each action's token.
pub open spec fn token_fingerprint(a: WindowAction) -> (int, char, char, char, char) {
    match a {
        WindowAction::LeftHalf => (8, 'l', 'e', 'f', 'l'),
        WindowAction::RightHalf => (9, 'r', 'i', 'f', 'l'),
        WindowAction::TopHalf => (7, 't', 'o', 'f', 'l'),
        WindowAction::BottomHalf => (10, 'b', 'o', 'f', 'l'),
        WindowAction::TopLeftQuarter => (14, 't', 'o', 'r', 'e'),
        WindowAction::TopRightQuarter => (15, 't', 'o', 'r', 'e'),
        WindowAction::BottomLeftQuarter => (17, 'b', 'o', 'r', 'e'),
        WindowAction::BottomRightQuarter => (18, 'b', 'o', 'r', 'e'),
        WindowAction::LeftThird => (9, 'l', 'e', 'd', 'r'),
        WindowAction::LeftTwoThirds => (13, 'l', 'e', 's', 'd'),
        WindowAction::HorizontalCenterThird => (21, 'h', 'o', 'd', 'r'),
        WindowAction::RightTwoThirds => (14, 'r', 'i', 's', 'd'),
        WindowAction::RightThird => (10, 'r', 'i', 'd', 'r'),
        WindowAction::TopThird => (8, 't', 'o', 'd', 'r'),
        WindowAction::TopTwoThirds => (12, 't', 'o', 's', 'd'),
        WindowAction::VerticalCenterThird => (19, 'v', 'e', 'd', 'r'),
        WindowAction::BottomTwoThirds => (15, 'b', 'o', 's', 'd'),
        WindowAction::BottomThird => (11, 'b', 'o', 'd', 'r'),
        WindowAction::Center => (6, 'c', 'e', 'r', 'e'),
        WindowAction::Maximize => (8, 'm', 'a', 'e', 'z'),
        WindowAction::AlmostMaximize => (14, 'a', 'l', 'e', 'z'),
        WindowAction::Fullscreen => (10, 'f', 'u', 'n', 'e'),
        WindowAction::MaximizeHeight => (14, 'm', 'a', 't', 'h'),
        WindowAction::MaximizeWidth => (13, 'm', 'a', 'h', 't'),
        WindowAction::FillAvailableSpace => (18, 'f', 'i', 'e', 'c'),
        WindowAction::MinimizeOthers => (14, 'm', 'i', 's', 'r'),
        WindowAction::HorizontalCenterHalf => (20, 'h', 'o', 'f', 'l'),
        WindowAction::VerticalCenterHalf => (18, 'v', 'e', 'f', 'l'),
        WindowAction::FirstFourth => (11, 'f', 'i', 'h', 't'),
        WindowAction::SecondFourth => (12, 's', 'e', 'h', 't'),
        WindowAction::ThirdFourth => (11, 't', 'h', 'h', 't'),
        WindowAction::FourthFourth => (12, 'f', 'o', 'h', 't'),
        WindowAction::LeftThreeFourths => (16, 'l', 'e', 's', 'h'),
        WindowAction::RightThreeFourths => (17, 'r', 'i', 's', 'h'),
        WindowAction::NextScreen => (10, 'n', 'e', 'n', 'e'),
        WindowAction::PreviousScreen => (14, 'p', 'r', 'n', 'e'),
        WindowAction::LeftScreen => (10, 'l', 'e', 'n', 'e'),
        WindowAction::RightScreen => (11, 'r', 'i', 'n', 'e'),
        WindowAction::TopScreen => (9, 't', 'o', 'n', 'e'),
        WindowAction::BottomScreen => (12, 'b', 'o', 'n', 'e'),
        WindowAction::Larger => (6, 'l', 'a', 'r', 'e'),
        WindowAction::Smaller => (7, 's', 'm', 'r', 'e'),
        WindowAction::ScaleUp => (7, 's', 'c', 'p', 'u'),
        WindowAction::ScaleDown => (9, 's', 'c', 'n', 'w'),
        WindowAction::GrowLeft => (8, 'g', 'r', 't', 'f'),
        WindowAction::GrowRight => (9, 'g', 'r', 't', 'h'),
        WindowAction::GrowTop => (7, 'g', 'r', 'p', 'o'),
        WindowAction::GrowBottom => (10, 'g', 'r', 'm', 'o'),
        WindowAction::GrowHorizontal => (14, 'g', 'r', 'l', 'a'),
        WindowAction::GrowVertical => (12, 'g', 'r', 'l', 'a'),
        WindowAction::ShrinkLeft => (10, 's', 'h', 't', 'f'),
        WindowAction::ShrinkRight => (11, 's', 'h', 't', 'h'),
        WindowAction::ShrinkTop => (9, 's', 'h', 'p', 'o'),
        WindowAction::ShrinkBottom => (12, 's', 'h', 'm', 'o'),
        WindowAction::ShrinkHorizontal => (16, 's', 'h', 'l', 'a'),
        WindowAction::ShrinkVertical => (14, 's', 'h', 'l', 'a'),
        WindowAction::MoveLeft => (8, 'm', 'o', 't', 'f'),
        WindowAction::MoveRight => (9, 'm', 'o', 't', 'h'),
        WindowAction::MoveUp => (6, 'm', 'o', 'p', 'u'),
        WindowAction::MoveDown => (8, 'm', 'o', 'n', 'w'),
        WindowAction::FocusUp => (7, 'f', 'o', 'p', 'u'),
        WindowAction::FocusDown => (9, 'f', 'o', 'n', 'w'),
        WindowAction::FocusLeft => (9, 'f', 'o', 't', 'f'),
        WindowAction::FocusRight => (10, 'f', 'o', 't', 'h'),
        WindowAction::FocusNextInStack => (16, 'f', 'o', 'k', 'c'),
        WindowAction::Minimize => (8, 'm', 'i', 'e', 'z'),
        WindowAction::Stash => (5, 's', 't', 'h', 's'),
        WindowAction::RevealStashed => (13, 'r', 'e', 'd', 'e'),
        WindowAction::Hide => (4, 'h', 'i', 'e', 'd'),
        WindowAction::RestoreInitialFrame => (19, 'r', 'e', 'e', 'm'),
        WindowAction::Undo => (4, 'u', 'n', 'o', 'd'),
    }
}

/// The action a token fingerprint belongs to.
pub open spec fn action_of_fingerprint(s: (int, char, char, char, char)) -> Option<WindowAction> {
    if false {
        None
    } else if s == (8int, 'l', 'e', 'f', 'l') {
        Some(WindowAction::LeftHalf)
    } else if s == (9int, 'r', 'i', 'f', 'l') {
        Some(WindowAction::RightHalf)
    } else if s == (7int, 't', 'o', 'f', 'l') {
        Some(WindowAction::TopHalf)
    } else if s == (10int, 'b', 'o', 'f', 'l') {
        Some(WindowAction::BottomHalf)
    } else if s == (14int, 't', 'o', 'r', 'e') {
        Some(WindowAction::TopLeftQuarter)
    } else if s == (15int, 't', 'o', 'r', 'e') {
        Some(WindowAction::TopRightQuarter)
    } else if s == (17int, 'b', 'o', 'r', 'e') {
        Some(WindowAction::BottomLeftQuarter)
    } else if s == (18int, 'b', 'o', 'r', 'e') {
        Some(WindowAction::BottomRightQuarter)
    } else if s == (9int, 'l', 'e', 'd', 'r') {
        Some(WindowAction::LeftThird)
    } else if s == (13int, 'l', 'e', 's', 'd') {
        Some(WindowAction::LeftTwoThirds)
    } else if s == (21int, 'h', 'o', 'd', 'r') {
        Some(WindowAction::HorizontalCenterThird)
    } else if s == (14int, 'r', 'i', 's', 'd') {
        Some(WindowAction::RightTwoThirds)
    } else if s == (10int, 'r', 'i', 'd', 'r') {
        Some(WindowAction::RightThird)
    } else if s == (8int, 't', 'o', 'd', 'r') {
        Some(WindowAction::TopThird)
    } else if s == (12int, 't', 'o', 's', 'd') {
        Some(WindowAction::TopTwoThirds)
    } else if s == (19int, 'v', 'e', 'd', 'r') {
        Some(WindowAction::VerticalCenterThird)
    } else if s == (15int, 'b', 'o', 's', 'd') {
        Some(WindowAction::BottomTwoThirds)
    } else if s == (11int, 'b', 'o', 'd', 'r') {
        Some(WindowAction::BottomThird)
    } else if s == (6int, 'c', 'e', 'r', 'e') {
        Some(WindowAction::Center)
    } else if s == (8int, 'm', 'a', 'e', 'z') {
        Some(WindowAction::Maximize)
    } else if s == (14int, 'a', 'l', 'e', 'z') {
        Some(WindowAction::AlmostMaximize)
    } else if s == (10int, 'f', 'u', 'n', 'e') {
        Some(WindowAction::Fullscreen)
    } else if s == (14int, 'm', 'a', 't', 'h') {
        Some(WindowAction::MaximizeHeight)
    } else if s == (13int, 'm', 'a', 'h', 't') {
        Some(WindowAction::MaximizeWidth)
    } else if s == (18int, 'f', 'i', 'e', 'c') {
        Some(WindowAction::FillAvailableSpace)
    } else if s == (14int, 'm', 'i', 's', 'r') {
        Some(WindowAction::MinimizeOthers)
    } else if s == (20int, 'h', 'o', 'f', 'l') {
        Some(WindowAction::HorizontalCenterHalf)
    } else if s == (18int, 'v', 'e', 'f', 'l') {
        Some(WindowAction::VerticalCenterHalf)
    } else if s == (11int, 'f', 'i', 'h', 't') {
        Some(WindowAction::FirstFourth)
    } else if s == (12int, 's', 'e', 'h', 't') {
        Some(WindowAction::SecondFourth)
    } else if s == (11int, 't', 'h', 'h', 't') {
        Some(WindowAction::ThirdFourth)
    } else if s == (12int, 'f', 'o', 'h', 't') {
        Some(WindowAction::FourthFourth)
    } else if s == (16int, 'l', 'e', 's', 'h') {
        Some(WindowAction::LeftThreeFourths)
    } else if s == (17int, 'r', 'i', 's', 'h') {
        Some(WindowAction::RightThreeFourths)
    } else if s == (10int, 'n', 'e', 'n', 'e') {
        Some(WindowAction::NextScreen)
    } else if s == (14int, 'p', 'r', 'n', 'e') {
        Some(WindowAction::PreviousScreen)
    } else if s == (10int, 'l', 'e', 'n', 'e') {
        Some(WindowAction::LeftScreen)
    } else if s == (11int, 'r', 'i', 'n', 'e') {
        Some(WindowAction::RightScreen)
    } else if s == (9int, 't', 'o', 'n', 'e') {
        Some(WindowAction::TopScreen)
    } else if s == (12int, 'b', 'o', 'n', 'e') {
        Some(WindowAction::BottomScreen)
    } else if s == (6int, 'l', 'a', 'r', 'e') {
        Some(WindowAction::Larger)
    } else if s == (7int, 's', 'm', 'r', 'e') {
        Some(WindowAction::Smaller)
    } else if s == (7int, 's', 'c', 'p', 'u') {
        Some(WindowAction::ScaleUp)
    } else if s == (9int, 's', 'c', 'n', 'w') {
        Some(WindowAction::ScaleDown)
    } else if s == (8int, 'g', 'r', 't', 'f') {
        Some(WindowAction::GrowLeft)
    } else if s == (9int, 'g', 'r', 't', 'h') {
        Some(WindowAction::GrowRight)
    } else if s == (7int, 'g', 'r', 'p', 'o') {
        Some(WindowAction::GrowTop)
    } else if s == (10int, 'g', 'r', 'm', 'o') {
        Some(WindowAction::GrowBottom)
    } else if s == (14int, 'g', 'r', 'l', 'a') {
        Some(WindowAction::GrowHorizontal)
    } else if s == (12int, 'g', 'r', 'l', 'a') {
        Some(WindowAction::GrowVertical)
    } else if s == (10int, 's', 'h', 't', 'f') {
        Some(WindowAction::ShrinkLeft)
    } else if s == (11int, 's', 'h', 't', 'h') {
        Some(WindowAction::ShrinkRight)
    } else if s == (9int, 's', 'h', 'p', 'o') {
        Some(WindowAction::ShrinkTop)
    } else if s == (12int, 's', 'h', 'm', 'o') {
        Some(WindowAction::ShrinkBottom)
    } else if s == (16int, 's', 'h', 'l', 'a') {
        Some(WindowAction::ShrinkHorizontal)
    } else if s == (14int, 's', 'h', 'l', 'a') {
        Some(WindowAction::ShrinkVertical)
    } else if s == (8int, 'm', 'o', 't', 'f') {
        Some(WindowAction::MoveLeft)
    } else if s == (9int, 'm', 'o', 't', 'h') {
        Some(WindowAction::MoveRight)
    } else if s == (6int, 'm', 'o', 'p', 'u') {
        Some(WindowAction::MoveUp)
    } else if s == (8int, 'm', 'o', 'n', 'w') {
        Some(WindowAction::MoveDown)
    } else if s == (7int, 'f', 'o', 'p', 'u') {
        Some(WindowAction::FocusUp)
    } else if s == (9int, 'f', 'o', 'n', 'w') {
        Some(WindowAction::FocusDown)
    } else if s == (9int, 'f', 'o', 't', 'f') {
        Some(WindowAction::FocusLeft)
    } else if s == (10int, 'f', 'o', 't', 'h') {
        Some(WindowAction::FocusRight)
    } else if s == (16int, 'f', 'o', 'k', 'c') {
        Some(WindowAction::FocusNextInStack)
    } else if s == (8int, 'm', 'i', 'e', 'z') {
        Some(WindowAction::Minimize)
    } else if s == (5int, 's', 't', 'h', 's') {
        Some(WindowAction::Stash)
    } else if s == (13int, 'r', 'e', 'd', 'e') {
        Some(WindowAction::RevealStashed)
    } else if s == (4int, 'h', 'i', 'e', 'd') {
        Some(WindowAction::Hide)
    } else if s == (19int, 'r', 'e', 'e', 'm') {
        Some(WindowAction::RestoreInitialFrame)
    } else if s == (4int, 'u', 'n', 'o', 'd') {
        Some(WindowAction::Undo)
    } else {
        None
    }
}

proof fn lemma_fingerprint_decodes(a: WindowAction)
    ensures
        action_of_fingerprint(token_fingerprint(a)) == Some(a),
{
}

#[verifier::rlimit(100)]
proof fn lemma_fingerprint_of_token(a: WindowAction)
    ensures
        fingerprint(token_of(variant_name_of(a))) == token_fingerprint(a),
{
    let v = variant_name_of(a);
    reveal_strlit("LeftHalf");
    reveal_strlit("RightHalf");
    reveal_strlit("TopHalf");
    reveal_strlit("BottomHalf");
    reveal_strlit("TopLeftQuarter");
    reveal_strlit("TopRightQuarter");
    reveal_strlit("BottomLeftQuarter");
    reveal_strlit("BottomRightQuarter");
    reveal_strlit("LeftThird");
    reveal_strlit("LeftTwoThirds");
    reveal_strlit("HorizontalCenterThird");
    reveal_strlit("RightTwoThirds");
    reveal_strlit("RightThird");
    reveal_strlit("TopThird");
    reveal_strlit("TopTwoThirds");
    reveal_strlit("VerticalCenterThird");
    reveal_strlit("BottomTwoThirds");
    reveal_strlit("BottomThird");
    reveal_strlit("Center");
    reveal_strlit("Maximize");
    reveal_strlit("AlmostMaximize");
    reveal_strlit("Fullscreen");
    reveal_strlit("MaximizeHeight");
    reveal_strlit("MaximizeWidth");
    reveal_strlit("FillAvailableSpace");
    reveal_strlit("MinimizeOthers");
    reveal_strlit("HorizontalCenterHalf");
    reveal_strlit("VerticalCenterHalf");
    reveal_strlit("FirstFourth");
    reveal_strlit("SecondFourth");
    reveal_strlit("ThirdFourth");
    reveal_strlit("FourthFourth");
    reveal_strlit("LeftThreeFourths");
    reveal_strlit("RightThreeFourths");
    reveal_strlit("NextScreen");
    reveal_strlit("PreviousScreen");
    reveal_strlit("LeftScreen");
    reveal_strlit("RightScreen");
    reveal_strlit("TopScreen");
    reveal_strlit("BottomScreen");
    reveal_strlit("Larger");
    reveal_strlit("Smaller");
    reveal_strlit("ScaleUp");
    reveal_strlit("ScaleDown");
    reveal_strlit("GrowLeft");
    reveal_strlit("GrowRight");
    reveal_strlit("GrowTop");
    reveal_strlit("GrowBottom");
    reveal_strlit("GrowHorizontal");
    reveal_strlit("GrowVertical");
    reveal_strlit("ShrinkLeft");
    reveal_strlit("ShrinkRight");
    reveal_strlit("ShrinkTop");
    reveal_strlit("ShrinkBottom");
    reveal_strlit("ShrinkHorizontal");
    reveal_strlit("ShrinkVertical");
    reveal_strlit("MoveLeft");
    reveal_strlit("MoveRight");
    reveal_strlit("MoveUp");
    reveal_strlit("MoveDown");
    reveal_strlit("FocusUp");
    reveal_strlit("FocusDown");
    reveal_strlit("FocusLeft");
    reveal_strlit("FocusRight");
    reveal_strlit("FocusNextInStack");
    reveal_strlit("Minimize");
    reveal_strlit("Stash");
    reveal_strlit("RevealStashed");
    reveal_strlit("Hide");
    reveal_strlit("RestoreInitialFrame");
    reveal_strlit("Undo");
    lemma_strip_keeps_clean(v);
}

/// Different actions have different tokens.
pub proof fn law_tokens_are_distinct(a: WindowAction, b: WindowAction)
    requires
        a != b,
    ensures
        token_of(variant_name_of(a)) != token_of(variant_name_of(b)),
{
    lemma_fingerprint_of_token(a);
    lemma_fingerprint_of_token(b);
    lemma_fingerprint_decodes(a);
    lemma_fingerprint_decodes(b);
}

/// Every action's token parses back to that action.
pub proof fn law_token_round_trip(a: WindowAction)
    ensures
        token_lookup(token_of(variant_name_of(a))) == Some(a),
{
    let t = token_of(variant_name_of(a));
    lemma_token_of_idempotent(variant_name_of(a));
    law_token_lookup_is_first_match(t);
    assert(tokens_match(t, variant_name_of(a)));
    match token_lookup(t) {
        Some(c) => {
            if c != a {
                law_tokens_are_distinct(a, c);
            }
        },
        None => {
            assert(!tokens_match(t, variant_name_of(a)));
        },
    }
}

/// The fingerprint of each action's display name.
pub open spec fn display_fingerprint(a: WindowAction) -> (int, char, char, char, char) {
    match a {
        WindowAction::LeftHalf => (9, 'L', 'e', 'f', 'l'),
        WindowAction::RightHalf => (10, 'R', 'i', 'f', 'l'),
        WindowAction::TopHalf => (8, 'T', 'o', 'f', 'l'),
        WindowAction::BottomHalf => (11, 'B', 'o', 'f', 'l'),
        WindowAction::TopLeftQuarter => (16, 'T', 'o', 'r', 'e'),
        WindowAction::TopRightQuarter => (17, 'T', 'o', 'r', 'e'),
        WindowAction::BottomLeftQuarter => (19, 'B', 'o', 'r', 'e'),
        WindowAction::BottomRightQuarter => (20, 'B', 'o', 'r', 'e'),
        WindowAction::LeftThird => (10, 'L', 'e', 'd', 'r'),
        WindowAction::LeftTwoThirds => (15, 'L', 'e', 's', 'd'),
        WindowAction::HorizontalCenterThird => (23, 'H', 'o', 'd', 'r'),
        WindowAction::RightTwoThirds => (16, 'R', 'i', 's', 'd'),
        WindowAction::RightThird => (11, 'R', 'i', 'd', 'r'),
        WindowAction::TopThird => (9, 'T', 'o', 'd', 'r'),
        WindowAction::TopTwoThirds => (14, 'T', 'o', 's', 'd'),
        WindowAction::VerticalCenterThird => (21, 'V', 'e', 'd', 'r'),
        WindowAction::BottomTwoThirds => (17, 'B', 'o', 's', 'd'),
        WindowAction::BottomThird => (12, 'B', 'o', 'd', 'r'),
        WindowAction::Center => (6, 'C', 'e', 'r', 'e'),
        WindowAction::Maximize => (8, 'M', 'a', 'e', 'z'),
        WindowAction::AlmostMaximize => (15, 'A', 'l', 'e', 'z'),
        WindowAction::Fullscreen => (10, 'F', 'u', 'n', 'e'),
        WindowAction::MaximizeHeight => (15, 'M', 'a', 't', 'h'),
        WindowAction::MaximizeWidth => (14, 'M', 'a', 'h', 't'),
        WindowAction::FillAvailableSpace => (20, 'F', 'i', 'e', 'c'),
        WindowAction::MinimizeOthers => (22, 'M', 'i', 's', 'w'),
        WindowAction::HorizontalCenterHalf => (22, 'H', 'o', 'f', 'l'),
        WindowAction::VerticalCenterHalf => (20, 'V', 'e', 'f', 'l'),
        WindowAction::FirstFourth => (12, 'F', 'i', 'h', 't'),
        WindowAction::SecondFourth => (13, 'S', 'e', 'h', 't'),
        WindowAction::ThirdFourth => (12, 'T', 'h', 'h', 't'),
        WindowAction::FourthFourth => (13, 'F', 'o', 'h', 't'),
        WindowAction::LeftThreeFourths => (18, 'L', 'e', 's', 'h'),
        WindowAction::RightThreeFourths => (19, 'R', 'i', 's', 'h'),
        WindowAction::NextScreen => (11, 'N', 'e', 'n', 'e'),
        WindowAction::PreviousScreen => (15, 'P', 'r', 'n', 'e'),
        WindowAction::LeftScreen => (18, 'S', 'c', 't', 'f'),
        WindowAction::RightScreen => (19, 'S', 'c', 't', 'h'),
        WindowAction::TopScreen => (12, 'S', 'c', 'e', 'v'),
        WindowAction::BottomScreen => (12, 'S', 'c', 'w', 'o'),
        WindowAction::Larger => (6, 'L', 'a', 'r', 'e'),
        WindowAction::Smaller => (7, 'S', 'm', 'r', 'e'),
        WindowAction::ScaleUp => (8, 'S', 'c', 'p', 'u'),
        WindowAction::ScaleDown => (10, 'S', 'c', 'n', 'w'),
        WindowAction::GrowLeft => (9, 'G', 'r', 't', 'f'),
        WindowAction::GrowRight => (10, 'G', 'r', 't', 'h'),
        WindowAction::GrowTop => (8, 'G', 'r', 'p', 'o'),
        WindowAction::GrowBottom => (11, 'G', 'r', 'm', 'o'),
        WindowAction::GrowHorizontal => (17, 'G', 'r', 'y', 'l'),
        WindowAction::GrowVertical => (15, 'G', 'r', 'y', 'l'),
        WindowAction::ShrinkLeft => (11, 'S', 'h', 't', 'f'),
        WindowAction::ShrinkRight => (12, 'S', 'h', 't', 'h'),
        WindowAction::ShrinkTop => (10, 'S', 'h', 'p', 'o'),
        WindowAction::ShrinkBottom => (13, 'S', 'h', 'm', 'o'),
        WindowAction::ShrinkHorizontal => (19, 'S', 'h', 'y', 'l'),
        WindowAction::ShrinkVertical => (17, 'S', 'h', 'y', 'l'),
        WindowAction::MoveLeft => (9, 'M', 'o', 't', 'f'),
        WindowAction::MoveRight => (10, 'M', 'o', 't', 'h'),
        WindowAction::MoveUp => (7, 'M', 'o', 'p', 'u'),
        WindowAction::MoveDown => (9, 'M', 'o', 'n', 'w'),
        WindowAction::FocusUp => (8, 'F', 'o', 'p', 'u'),
        WindowAction::FocusDown => (10, 'F', 'o', 'n', 'w'),
        WindowAction::FocusLeft => (10, 'F', 'o', 't', 'f'),
        WindowAction::FocusRight => (11, 'F', 'o', 't', 'h'),
        WindowAction::FocusNextInStack => (19, 'F', 'o', 'k', 'c'),
        WindowAction::Minimize => (8, 'M', 'i', 'e', 'z'),
        WindowAction::Stash => (13, 'S', 't', 'e', 'g'),
        WindowAction::RevealStashed => (21, 'R', 'e', 'w', 'o'),
        WindowAction::Hide => (4, 'H', 'i', 'e', 'd'),
        WindowAction::RestoreInitialFrame => (22, 'R', 'e', 'e', 'm'),
        WindowAction::Undo => (4, 'U', 'n', 'o', 'd'),
    }
}

/// The action a display-name fingerprint belongs to.
pub open spec fn action_of_display_fingerprint(s: (int, char, char, char, char)) -> Option<
    WindowAction,
> {
    if false {
        None
    } else if s == (9int, 'L', 'e', 'f', 'l') {
        Some(WindowAction::LeftHalf)
    } else if s == (10int, 'R', 'i', 'f', 'l') {
        Some(WindowAction::RightHalf)
    } else if s == (8int, 'T', 'o', 'f', 'l') {
        Some(WindowAction::TopHalf)
    } else if s == (11int, 'B', 'o', 'f', 'l') {
        Some(WindowAction::BottomHalf)
    } else if s == (16int, 'T', 'o', 'r', 'e') {
        Some(WindowAction::TopLeftQuarter)
    } else if s == (17int, 'T', 'o', 'r', 'e') {
        Some(WindowAction::TopRightQuarter)
    } else if s == (19int, 'B', 'o', 'r', 'e') {
        Some(WindowAction::BottomLeftQuarter)
    } else if s == (20int, 'B', 'o', 'r', 'e') {
        Some(WindowAction::BottomRightQuarter)
    } else if s == (10int, 'L', 'e', 'd', 'r') {
        Some(WindowAction::LeftThird)
    } else if s == (15int, 'L', 'e', 's', 'd') {
        Some(WindowAction::LeftTwoThirds)
    } else if s == (23int, 'H', 'o', 'd', 'r') {
        Some(WindowAction::HorizontalCenterThird)
    } else if s == (16int, 'R', 'i', 's', 'd') {
        Some(WindowAction::RightTwoThirds)
    } else if s == (11int, 'R', 'i', 'd', 'r') {
        Some(WindowAction::RightThird)
    } else if s == (9int, 'T', 'o', 'd', 'r') {
        Some(WindowAction::TopThird)
    } else if s == (14int, 'T', 'o', 's', 'd') {
        Some(WindowAction::TopTwoThirds)
    } else if s == (21int, 'V', 'e', 'd', 'r') {
        Some(WindowAction::VerticalCenterThird)
    } else if s == (17int, 'B', 'o', 's', 'd') {
        Some(WindowAction::BottomTwoThirds)
    } else if s == (12int, 'B', 'o', 'd', 'r') {
        Some(WindowAction::BottomThird)
    } else if s == (6int, 'C', 'e', 'r', 'e') {
        Some(WindowAction::Center)
    } else if s == (8int, 'M', 'a', 'e', 'z') {
        Some(WindowAction::Maximize)
    } else if s == (15int, 'A', 'l', 'e', 'z') {
        Some(WindowAction::AlmostMaximize)
    } else if s == (10int, 'F', 'u', 'n', 'e') {
        Some(WindowAction::Fullscreen)
    } else if s == (15int, 'M', 'a', 't', 'h') {
        Some(WindowAction::MaximizeHeight)
    } else if s == (14int, 'M', 'a', 'h', 't') {
        Some(WindowAction::MaximizeWidth)
    } else if s == (20int, 'F', 'i', 'e', 'c') {
        Some(WindowAction::FillAvailableSpace)
    } else if s == (22int, 'M', 'i', 's', 'w') {
        Some(WindowAction::MinimizeOthers)
    } else if s == (22int, 'H', 'o', 'f', 'l') {
        Some(WindowAction::HorizontalCenterHalf)
    } else if s == (20int, 'V', 'e', 'f', 'l') {
        Some(WindowAction::VerticalCenterHalf)
    } else if s == (12int, 'F', 'i', 'h', 't') {
        Some(WindowAction::FirstFourth)
    } else if s == (13int, 'S', 'e', 'h', 't') {
        Some(WindowAction::SecondFourth)
    } else if s == (12int, 'T', 'h', 'h', 't') {
        Some(WindowAction::ThirdFourth)
    } else if s == (13int, 'F', 'o', 'h', 't') {
        Some(WindowAction::FourthFourth)
    } else if s == (18int, 'L', 'e', 's', 'h') {
        Some(WindowAction::LeftThreeFourths)
    } else if s == (19int, 'R', 'i', 's', 'h') {
        Some(WindowAction::RightThreeFourths)
    } else if s == (11int, 'N', 'e', 'n', 'e') {
        Some(WindowAction::NextScreen)
    } else if s == (15int, 'P', 'r', 'n', 'e') {
        Some(WindowAction::PreviousScreen)
    } else if s == (18int, 'S', 'c', 't', 'f') {
        Some(WindowAction::LeftScreen)
    } else if s == (19int, 'S', 'c', 't', 'h') {
        Some(WindowAction::RightScreen)
    } else if s == (12int, 'S', 'c', 'e', 'v') {
        Some(WindowAction::TopScreen)
    } else if s == (12int, 'S', 'c', 'w', 'o') {
        Some(WindowAction::BottomScreen)
    } else if s == (6int, 'L', 'a', 'r', 'e') {
        Some(WindowAction::Larger)
    } else if s == (7int, 'S', 'm', 'r', 'e') {
        Some(WindowAction::Smaller)
    } else if s == (8int, 'S', 'c', 'p', 'u') {
        Some(WindowAction::ScaleUp)
    } else if s == (10int, 'S', 'c', 'n', 'w') {
        Some(WindowAction::ScaleDown)
    } else if s == (9int, 'G', 'r', 't', 'f') {
        Some(WindowAction::GrowLeft)
    } else if s == (10int, 'G', 'r', 't', 'h') {
        Some(WindowAction::GrowRight)
    } else if s == (8int, 'G', 'r', 'p', 'o') {
        Some(WindowAction::GrowTop)
    } else if s == (11int, 'G', 'r', 'm', 'o') {
        Some(WindowAction::GrowBottom)
    } else if s == (17int, 'G', 'r', 'y', 'l') {
        Some(WindowAction::GrowHorizontal)
    } else if s == (15int, 'G', 'r', 'y', 'l') {
        Some(WindowAction::GrowVertical)
    } else if s == (11int, 'S', 'h', 't', 'f') {
        Some(WindowAction::ShrinkLeft)
    } else if s == (12int, 'S', 'h', 't', 'h') {
        Some(WindowAction::ShrinkRight)
    } else if s == (10int, 'S', 'h', 'p', 'o') {
        Some(WindowAction::ShrinkTop)
    } else if s == (13int, 'S', 'h', 'm', 'o') {
        Some(WindowAction::ShrinkBottom)
    } else if s == (19int, 'S', 'h', 'y', 'l') {
        Some(WindowAction::ShrinkHorizontal)
    } else if s == (17int, 'S', 'h', 'y', 'l') {
        Some(WindowAction::ShrinkVertical)
    } else if s == (9int, 'M', 'o', 't', 'f') {
        Some(WindowAction::MoveLeft)
    } else if s == (10int, 'M', 'o', 't', 'h') {
        Some(WindowAction::MoveRight)
    } else if s == (7int, 'M', 'o', 'p', 'u') {
        Some(WindowAction::MoveUp)
    } else if s == (9int, 'M', 'o', 'n', 'w') {
        Some(WindowAction::MoveDown)
    } else if s == (8int, 'F', 'o', 'p', 'u') {
        Some(WindowAction::FocusUp)
    } else if s == (10int, 'F', 'o', 'n', 'w') {
        Some(WindowAction::FocusDown)
    } else if s == (10int, 'F', 'o', 't', 'f') {
        Some(WindowAction::FocusLeft)
    } else if s == (11int, 'F', 'o', 't', 'h') {
        Some(WindowAction::FocusRight)
    } else if s == (19int, 'F', 'o', 'k', 'c') {
        Some(WindowAction::FocusNextInStack)
    } else if s == (8int, 'M', 'i', 'e', 'z') {
        Some(WindowAction::Minimize)
    } else if s == (13int, 'S', 't', 'e', 'g') {
        Some(WindowAction::Stash)
    } else if s == (21int, 'R', 'e', 'w', 'o') {
        Some(WindowAction::RevealStashed)
    } else if s == (4int, 'H', 'i', 'e', 'd') {
        Some(WindowAction::Hide)
    } else if s == (22int, 'R', 'e', 'e', 'm') {
        Some(WindowAction::RestoreInitialFrame)
    } else if s == (4int, 'U', 'n', 'o', 'd') {
        Some(WindowAction::Undo)
    } else {
        None
    }
}

proof fn lemma_display_fingerprint_decodes(a: WindowAction)
    ensures
        action_of_display_fingerprint(display_fingerprint(a)) == Some(a),
{
}

#[verifier::rlimit(100)]
proof fn lemma_fingerprint_of_display_name(a: WindowAction)
    ensures
        fingerprint(display_name_of(a)) == display_fingerprint(a),
{
    reveal_strlit("Left half");
    reveal_strlit("Right half");
    reveal_strlit("Top half");
    reveal_strlit("Bottom half");
    reveal_strlit("Top-left quarter");
    reveal_strlit("Top-right quarter");
    reveal_strlit("Bottom-left quarter");
    reveal_strlit("Bottom-right quarter");
    reveal_strlit("Left third");
    reveal_strlit("Left two-thirds");
    reveal_strlit("Horizontal center third");
    reveal_strlit("Right two-thirds");
    reveal_strlit("Right third");
    reveal_strlit("Top third");
    reveal_strlit("Top two-thirds");
    reveal_strlit("Vertical center third");
    reveal_strlit("Bottom two-thirds");
    reveal_strlit("Bottom third");
    reveal_strlit("Center");
    reveal_strlit("Maximize");
    reveal_strlit("Almost maximize");
    reveal_strlit("Fullscreen");
    reveal_strlit("Maximize height");
    reveal_strlit("Maximize width");
    reveal_strlit("Fill available space");
    reveal_strlit("Minimize other windows");
    reveal_strlit("Horizontal center half");
    reveal_strlit("Vertical center half");
    reveal_strlit("First fourth");
    reveal_strlit("Second fourth");
    reveal_strlit("Third fourth");
    reveal_strlit("Fourth fourth");
    reveal_strlit("Left three-fourths");
    reveal_strlit("Right three-fourths");
    reveal_strlit("Next screen");
    reveal_strlit("Previous screen");
    reveal_strlit("Screen to the left");
    reveal_strlit("Screen to the right");
    reveal_strlit("Screen above");
    reveal_strlit("Screen below");
    reveal_strlit("Larger");
    reveal_strlit("Smaller");
    reveal_strlit("Scale up");
    reveal_strlit("Scale down");
    reveal_strlit("Grow left");
    reveal_strlit("Grow right");
    reveal_strlit("Grow top");
    reveal_strlit("Grow bottom");
    reveal_strlit("Grow horizontally");
    reveal_strlit("Grow vertically");
    reveal_strlit("Shrink left");
    reveal_strlit("Shrink right");
    reveal_strlit("Shrink top");
    reveal_strlit("Shrink bottom");
    reveal_strlit("Shrink horizontally");
    reveal_strlit("Shrink vertically");
    reveal_strlit("Move left");
    reveal_strlit("Move right");
    reveal_strlit("Move up");
    reveal_strlit("Move down");
    reveal_strlit("Focus up");
    reveal_strlit("Focus down");
    reveal_strlit("Focus left");
    reveal_strlit("Focus right");
    reveal_strlit("Focus next in stack");
    reveal_strlit("Minimize");
    reveal_strlit("Stash at edge");
    reveal_strlit("Reveal stashed window");
    reveal_strlit("Hide");
    reveal_strlit("Restore original frame");
    reveal_strlit("Undo");
}

/// Different actions have different display names.
pub proof fn law_display_names_are_distinct(a: WindowAction, b: WindowAction)
    requires
        a != b,
    ensures
        display_name_of(a) != display_name_of(b),
{
    lemma_fingerprint_of_display_name(a);
    lemma_fingerprint_of_display_name(b);
    lemma_display_fingerprint_decodes(a);
    lemma_display_fingerprint_decodes(b);
}

} // verus!
