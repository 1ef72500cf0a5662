//! `WindowAction` catalog: stable discriminants, display names, token parsing.
//!
//! Discriminants stay in the persisted order so existing settings files,
//! which store actions as integers, keep loading without loss.

use vstd::prelude::*;
use crate::text::{ascii_lower_seq, chars_of, lower_char, string_of};

verus! {

/// Every window operation LoopW can perform.
#[derive(Debug, Clone, Copy, PartialEq, Eq, Hash, Structural)]
pub enum WindowAction {
    LeftHalf,
    RightHalf,
    TopHalf,
    BottomHalf,
    TopLeftQuarter,
    TopRightQuarter,
    BottomLeftQuarter,
    BottomRightQuarter,
    LeftThird,
    LeftTwoThirds,
    HorizontalCenterThird,
    RightTwoThirds,
    RightThird,
    TopThird,
    TopTwoThirds,
    VerticalCenterThird,
    BottomTwoThirds,
    BottomThird,
    Center,
    Maximize,
    AlmostMaximize,
    Fullscreen,
    MaximizeHeight,
    MaximizeWidth,
    FillAvailableSpace,
    MinimizeOthers,
    HorizontalCenterHalf,
    VerticalCenterHalf,
    FirstFourth,
    SecondFourth,
    ThirdFourth,
    FourthFourth,
    LeftThreeFourths,
    RightThreeFourths,
    NextScreen,
    PreviousScreen,
    LeftScreen,
    RightScreen,
    TopScreen,
    BottomScreen,
    Larger,
    Smaller,
    ScaleUp,
    ScaleDown,
    GrowLeft,
    GrowRight,
    GrowTop,
    GrowBottom,
    GrowHorizontal,
    GrowVertical,
    ShrinkLeft,
    ShrinkRight,
    ShrinkTop,
    ShrinkBottom,
    ShrinkHorizontal,
    ShrinkVertical,
    MoveLeft,
    MoveRight,
    MoveUp,
    MoveDown,
    FocusUp,
    FocusDown,
    FocusLeft,
    FocusRight,
    FocusNextInStack,
    Minimize,
    Stash,
    RevealStashed,
    Hide,
    RestoreInitialFrame,
    Undo,
}

/// Persisted number of an action (its position in the catalog).
pub open spec fn action_number(a: WindowAction) -> nat {
    match a {
        WindowAction::LeftHalf => 0,
        WindowAction::RightHalf => 1,
        WindowAction::TopHalf => 2,
        WindowAction::BottomHalf => 3,
        WindowAction::TopLeftQuarter => 4,
        WindowAction::TopRightQuarter => 5,
        WindowAction::BottomLeftQuarter => 6,
        WindowAction::BottomRightQuarter => 7,
        WindowAction::LeftThird => 8,
        WindowAction::LeftTwoThirds => 9,
        WindowAction::HorizontalCenterThird => 10,
        WindowAction::RightTwoThirds => 11,
        WindowAction::RightThird => 12,
        WindowAction::TopThird => 13,
        WindowAction::TopTwoThirds => 14,
        WindowAction::VerticalCenterThird => 15,
        WindowAction::BottomTwoThirds => 16,
        WindowAction::BottomThird => 17,
        WindowAction::Center => 18,
        WindowAction::Maximize => 19,
        WindowAction::AlmostMaximize => 20,
        WindowAction::Fullscreen => 21,
        WindowAction::MaximizeHeight => 22,
        WindowAction::MaximizeWidth => 23,
        WindowAction::FillAvailableSpace => 24,
        WindowAction::MinimizeOthers => 25,
        WindowAction::HorizontalCenterHalf => 26,
        WindowAction::VerticalCenterHalf => 27,
        WindowAction::FirstFourth => 28,
        WindowAction::SecondFourth => 29,
        WindowAction::ThirdFourth => 30,
        WindowAction::FourthFourth => 31,
        WindowAction::LeftThreeFourths => 32,
        WindowAction::RightThreeFourths => 33,
        WindowAction::NextScreen => 34,
        WindowAction::PreviousScreen => 35,
        WindowAction::LeftScreen => 36,
        WindowAction::RightScreen => 37,
        WindowAction::TopScreen => 38,
        WindowAction::BottomScreen => 39,
        WindowAction::Larger => 40,
        WindowAction::Smaller => 41,
        WindowAction::ScaleUp => 42,
        WindowAction::ScaleDown => 43,
        WindowAction::GrowLeft => 44,
        WindowAction::GrowRight => 45,
        WindowAction::GrowTop => 46,
        WindowAction::GrowBottom => 47,
        WindowAction::GrowHorizontal => 48,
        WindowAction::GrowVertical => 49,
        WindowAction::ShrinkLeft => 50,
        WindowAction::ShrinkRight => 51,
        WindowAction::ShrinkTop => 52,
        WindowAction::ShrinkBottom => 53,
        WindowAction::ShrinkHorizontal => 54,
        WindowAction::ShrinkVertical => 55,
        WindowAction::MoveLeft => 56,
        WindowAction::MoveRight => 57,
        WindowAction::MoveUp => 58,
        WindowAction::MoveDown => 59,
        WindowAction::FocusUp => 60,
        WindowAction::FocusDown => 61,
        WindowAction::FocusLeft => 62,
        WindowAction::FocusRight => 63,
        WindowAction::FocusNextInStack => 64,
        WindowAction::Minimize => 65,
        WindowAction::Stash => 66,
        WindowAction::RevealStashed => 67,
        WindowAction::Hide => 68,
        WindowAction::RestoreInitialFrame => 69,
        WindowAction::Undo => 70,
    }
}

/// The action with a given persisted number.
pub open spec fn action_with_number(n: nat) -> WindowAction {
    if n == 0 {
        WindowAction::LeftHalf
    } else if n == 1 {
        WindowAction::RightHalf
    } else if n == 2 {
        WindowAction::TopHalf
    } else if n == 3 {
        WindowAction::BottomHalf
    } else if n == 4 {
        WindowAction::TopLeftQuarter
    } else if n == 5 {
        WindowAction::TopRightQuarter
    } else if n == 6 {
        WindowAction::BottomLeftQuarter
    } else if n == 7 {
        WindowAction::BottomRightQuarter
    } else if n == 8 {
        WindowAction::LeftThird
    } else if n == 9 {
        WindowAction::LeftTwoThirds
    } else if n == 10 {
        WindowAction::HorizontalCenterThird
    } else if n == 11 {
        WindowAction::RightTwoThirds
    } else if n == 12 {
        WindowAction::RightThird
    } else if n == 13 {
        WindowAction::TopThird
    } else if n == 14 {
        WindowAction::TopTwoThirds
    } else if n == 15 {
        WindowAction::VerticalCenterThird
    } else if n == 16 {
        WindowAction::BottomTwoThirds
    } else if n == 17 {
        WindowAction::BottomThird
    } else if n == 18 {
        WindowAction::Center
    } else if n == 19 {
        WindowAction::Maximize
    } else if n == 20 {
        WindowAction::AlmostMaximize
    } else if n == 21 {
        WindowAction::Fullscreen
    } else if n == 22 {
        WindowAction::MaximizeHeight
    } else if n == 23 {
        WindowAction::MaximizeWidth
    } else if n == 24 {
        WindowAction::FillAvailableSpace
    } else if n == 25 {
        WindowAction::MinimizeOthers
    } else if n == 26 {
        WindowAction::HorizontalCenterHalf
    } else if n == 27 {
        WindowAction::VerticalCenterHalf
    } else if n == 28 {
        WindowAction::FirstFourth
    } else if n == 29 {
        WindowAction::SecondFourth
    } else if n == 30 {
        WindowAction::ThirdFourth
    } else if n == 31 {
        WindowAction::FourthFourth
    } else if n == 32 {
        WindowAction::LeftThreeFourths
    } else if n == 33 {
        WindowAction::RightThreeFourths
    } else if n == 34 {
        WindowAction::NextScreen
    } else if n == 35 {
        WindowAction::PreviousScreen
    } else if n == 36 {
        WindowAction::LeftScreen
    } else if n == 37 {
        WindowAction::RightScreen
    } else if n == 38 {
        WindowAction::TopScreen
    } else if n == 39 {
        WindowAction::BottomScreen
    } else if n == 40 {
        WindowAction::Larger
    } else if n == 41 {
        WindowAction::Smaller
    } else if n == 42 {
        WindowAction::ScaleUp
    } else if n == 43 {
        WindowAction::ScaleDown
    } else if n == 44 {
        WindowAction::GrowLeft
    } else if n == 45 {
        WindowAction::GrowRight
    } else if n == 46 {
        WindowAction::GrowTop
    } else if n == 47 {
        WindowAction::GrowBottom
    } else if n == 48 {
        WindowAction::GrowHorizontal
    } else if n == 49 {
        WindowAction::GrowVertical
    } else if n == 50 {
        WindowAction::ShrinkLeft
    } else if n == 51 {
        WindowAction::ShrinkRight
    } else if n == 52 {
        WindowAction::ShrinkTop
    } else if n == 53 {
        WindowAction::ShrinkBottom
    } else if n == 54 {
        WindowAction::ShrinkHorizontal
    } else if n == 55 {
        WindowAction::ShrinkVertical
    } else if n == 56 {
        WindowAction::MoveLeft
    } else if n == 57 {
        WindowAction::MoveRight
    } else if n == 58 {
        WindowAction::MoveUp
    } else if n == 59 {
        WindowAction::MoveDown
    } else if n == 60 {
        WindowAction::FocusUp
    } else if n == 61 {
        WindowAction::FocusDown
    } else if n == 62 {
        WindowAction::FocusLeft
    } else if n == 63 {
        WindowAction::FocusRight
    } else if n == 64 {
        WindowAction::FocusNextInStack
    } else if n == 65 {
        WindowAction::Minimize
    } else if n == 66 {
        WindowAction::Stash
    } else if n == 67 {
        WindowAction::RevealStashed
    } else if n == 68 {
        WindowAction::Hide
    } else if n == 69 {
        WindowAction::RestoreInitialFrame
    } else {
        WindowAction::Undo
    }
}

/// Number of actions in the catalog.
pub const ACTION_COUNT: usize = 71;

/// Settings label of an action.
pub open spec fn display_name_of(a: WindowAction) -> Seq<char> {
    match a {
        WindowAction::LeftHalf => "Left half"@,
        WindowAction::RightHalf => "Right half"@,
        WindowAction::TopHalf => "Top half"@,
        WindowAction::BottomHalf => "Bottom half"@,
        WindowAction::TopLeftQuarter => "Top-left quarter"@,
        WindowAction::TopRightQuarter => "Top-right quarter"@,
        WindowAction::BottomLeftQuarter => "Bottom-left quarter"@,
        WindowAction::BottomRightQuarter => "Bottom-right quarter"@,
        WindowAction::LeftThird => "Left third"@,
        WindowAction::LeftTwoThirds => "Left two-thirds"@,
        WindowAction::HorizontalCenterThird => "Horizontal center third"@,
        WindowAction::RightTwoThirds => "Right two-thirds"@,
        WindowAction::RightThird => "Right third"@,
        WindowAction::TopThird => "Top third"@,
        WindowAction::TopTwoThirds => "Top two-thirds"@,
        WindowAction::VerticalCenterThird => "Vertical center third"@,
        WindowAction::BottomTwoThirds => "Bottom two-thirds"@,
        WindowAction::BottomThird => "Bottom third"@,
        WindowAction::Center => "Center"@,
        WindowAction::Maximize => "Maximize"@,
        WindowAction::AlmostMaximize => "Almost maximize"@,
        WindowAction::Fullscreen => "Fullscreen"@,
        WindowAction::MaximizeHeight => "Maximize height"@,
        WindowAction::MaximizeWidth => "Maximize width"@,
        WindowAction::FillAvailableSpace => "Fill available space"@,
        WindowAction::MinimizeOthers => "Minimize other windows"@,
        WindowAction::HorizontalCenterHalf => "Horizontal center half"@,
        WindowAction::VerticalCenterHalf => "Vertical center half"@,
        WindowAction::FirstFourth => "First fourth"@,
        WindowAction::SecondFourth => "Second fourth"@,
        WindowAction::ThirdFourth => "Third fourth"@,
        WindowAction::FourthFourth => "Fourth fourth"@,
        WindowAction::LeftThreeFourths => "Left three-fourths"@,
        WindowAction::RightThreeFourths => "Right three-fourths"@,
        WindowAction::NextScreen => "Next screen"@,
        WindowAction::PreviousScreen => "Previous screen"@,
        WindowAction::LeftScreen => "Screen to the left"@,
        WindowAction::RightScreen => "Screen to the right"@,
        WindowAction::TopScreen => "Screen above"@,
        WindowAction::BottomScreen => "Screen below"@,
        WindowAction::Larger => "Larger"@,
        WindowAction::Smaller => "Smaller"@,
        WindowAction::ScaleUp => "Scale up"@,
        WindowAction::ScaleDown => "Scale down"@,
        WindowAction::GrowLeft => "Grow left"@,
        WindowAction::GrowRight => "Grow right"@,
        WindowAction::GrowTop => "Grow top"@,
        WindowAction::GrowBottom => "Grow bottom"@,
        WindowAction::GrowHorizontal => "Grow horizontally"@,
        WindowAction::GrowVertical => "Grow vertically"@,
        WindowAction::ShrinkLeft => "Shrink left"@,
        WindowAction::ShrinkRight => "Shrink right"@,
        WindowAction::ShrinkTop => "Shrink top"@,
        WindowAction::ShrinkBottom => "Shrink bottom"@,
        WindowAction::ShrinkHorizontal => "Shrink horizontally"@,
        WindowAction::ShrinkVertical => "Shrink vertically"@,
        WindowAction::MoveLeft => "Move left"@,
        WindowAction::MoveRight => "Move right"@,
        WindowAction::MoveUp => "Move up"@,
        WindowAction::MoveDown => "Move down"@,
        WindowAction::FocusUp => "Focus up"@,
        WindowAction::FocusDown => "Focus down"@,
        WindowAction::FocusLeft => "Focus left"@,
        WindowAction::FocusRight => "Focus right"@,
        WindowAction::FocusNextInStack => "Focus next in stack"@,
        WindowAction::Minimize => "Minimize"@,
        WindowAction::Stash => "Stash at edge"@,
        WindowAction::RevealStashed => "Reveal stashed window"@,
        WindowAction::Hide => "Hide"@,
        WindowAction::RestoreInitialFrame => "Restore original frame"@,
        WindowAction::Undo => "Undo"@,
    }
}

/// Variant name of an action, the source of its command token.
pub open spec fn variant_name_of(a: WindowAction) -> Seq<char> {
    match a {
        WindowAction::LeftHalf => "LeftHalf"@,
        WindowAction::RightHalf => "RightHalf"@,
        WindowAction::TopHalf => "TopHalf"@,
        WindowAction::BottomHalf => "BottomHalf"@,
        WindowAction::TopLeftQuarter => "TopLeftQuarter"@,
        WindowAction::TopRightQuarter => "TopRightQuarter"@,
        WindowAction::BottomLeftQuarter => "BottomLeftQuarter"@,
        WindowAction::BottomRightQuarter => "BottomRightQuarter"@,
        WindowAction::LeftThird => "LeftThird"@,
        WindowAction::LeftTwoThirds => "LeftTwoThirds"@,
        WindowAction::HorizontalCenterThird => "HorizontalCenterThird"@,
        WindowAction::RightTwoThirds => "RightTwoThirds"@,
        WindowAction::RightThird => "RightThird"@,
        WindowAction::TopThird => "TopThird"@,
        WindowAction::TopTwoThirds => "TopTwoThirds"@,
        WindowAction::VerticalCenterThird => "VerticalCenterThird"@,
        WindowAction::BottomTwoThirds => "BottomTwoThirds"@,
        WindowAction::BottomThird => "BottomThird"@,
        WindowAction::Center => "Center"@,
        WindowAction::Maximize => "Maximize"@,
        WindowAction::AlmostMaximize => "AlmostMaximize"@,
        WindowAction::Fullscreen => "Fullscreen"@,
        WindowAction::MaximizeHeight => "MaximizeHeight"@,
        WindowAction::MaximizeWidth => "MaximizeWidth"@,
        WindowAction::FillAvailableSpace => "FillAvailableSpace"@,
        WindowAction::MinimizeOthers => "MinimizeOthers"@,
        WindowAction::HorizontalCenterHalf => "HorizontalCenterHalf"@,
        WindowAction::VerticalCenterHalf => "VerticalCenterHalf"@,
        WindowAction::FirstFourth => "FirstFourth"@,
        WindowAction::SecondFourth => "SecondFourth"@,
        WindowAction::ThirdFourth => "ThirdFourth"@,
        WindowAction::FourthFourth => "FourthFourth"@,
        WindowAction::LeftThreeFourths => "LeftThreeFourths"@,
        WindowAction::RightThreeFourths => "RightThreeFourths"@,
        WindowAction::NextScreen => "NextScreen"@,
        WindowAction::PreviousScreen => "PreviousScreen"@,
        WindowAction::LeftScreen => "LeftScreen"@,
        WindowAction::RightScreen => "RightScreen"@,
        WindowAction::TopScreen => "TopScreen"@,
        WindowAction::BottomScreen => "BottomScreen"@,
        WindowAction::Larger => "Larger"@,
        WindowAction::Smaller => "Smaller"@,
        WindowAction::ScaleUp => "ScaleUp"@,
        WindowAction::ScaleDown => "ScaleDown"@,
        WindowAction::GrowLeft => "GrowLeft"@,
        WindowAction::GrowRight => "GrowRight"@,
        WindowAction::GrowTop => "GrowTop"@,
        WindowAction::GrowBottom => "GrowBottom"@,
        WindowAction::GrowHorizontal => "GrowHorizontal"@,
        WindowAction::GrowVertical => "GrowVertical"@,
        WindowAction::ShrinkLeft => "ShrinkLeft"@,
        WindowAction::ShrinkRight => "ShrinkRight"@,
        WindowAction::ShrinkTop => "ShrinkTop"@,
        WindowAction::ShrinkBottom => "ShrinkBottom"@,
        WindowAction::ShrinkHorizontal => "ShrinkHorizontal"@,
        WindowAction::ShrinkVertical => "ShrinkVertical"@,
        WindowAction::MoveLeft => "MoveLeft"@,
        WindowAction::MoveRight => "MoveRight"@,
        WindowAction::MoveUp => "MoveUp"@,
        WindowAction::MoveDown => "MoveDown"@,
        WindowAction::FocusUp => "FocusUp"@,
        WindowAction::FocusDown => "FocusDown"@,
        WindowAction::FocusLeft => "FocusLeft"@,
        WindowAction::FocusRight => "FocusRight"@,
        WindowAction::FocusNextInStack => "FocusNextInStack"@,
        WindowAction::Minimize => "Minimize"@,
        WindowAction::Stash => "Stash"@,
        WindowAction::RevealStashed => "RevealStashed"@,
        WindowAction::Hide => "Hide"@,
        WindowAction::RestoreInitialFrame => "RestoreInitialFrame"@,
        WindowAction::Undo => "Undo"@,
    }
}
impl WindowAction {
    /// All actions in discriminant order.
    pub const ALL: [WindowAction; 71] = [
        WindowAction::LeftHalf,
        WindowAction::RightHalf,
        WindowAction::TopHalf,
        WindowAction::BottomHalf,
        WindowAction::TopLeftQuarter,
        WindowAction::TopRightQuarter,
        WindowAction::BottomLeftQuarter,
        WindowAction::BottomRightQuarter,
        WindowAction::LeftThird,
        WindowAction::LeftTwoThirds,
        WindowAction::HorizontalCenterThird,
        WindowAction::RightTwoThirds,
        WindowAction::RightThird,
        WindowAction::TopThird,
        WindowAction::TopTwoThirds,
        WindowAction::VerticalCenterThird,
        WindowAction::BottomTwoThirds,
        WindowAction::BottomThird,
        WindowAction::Center,
        WindowAction::Maximize,
        WindowAction::AlmostMaximize,
        WindowAction::Fullscreen,
        WindowAction::MaximizeHeight,
        WindowAction::MaximizeWidth,
        WindowAction::FillAvailableSpace,
        WindowAction::MinimizeOthers,
        WindowAction::HorizontalCenterHalf,
        WindowAction::VerticalCenterHalf,
        WindowAction::FirstFourth,
        WindowAction::SecondFourth,
        WindowAction::ThirdFourth,
        WindowAction::FourthFourth,
        WindowAction::LeftThreeFourths,
        WindowAction::RightThreeFourths,
        WindowAction::NextScreen,
        WindowAction::PreviousScreen,
        WindowAction::LeftScreen,
        WindowAction::RightScreen,
        WindowAction::TopScreen,
        WindowAction::BottomScreen,
        WindowAction::Larger,
        WindowAction::Smaller,
        WindowAction::ScaleUp,
        WindowAction::ScaleDown,
        WindowAction::GrowLeft,
        WindowAction::GrowRight,
        WindowAction::GrowTop,
        WindowAction::GrowBottom,
        WindowAction::GrowHorizontal,
        WindowAction::GrowVertical,
        WindowAction::ShrinkLeft,
        WindowAction::ShrinkRight,
        WindowAction::ShrinkTop,
        WindowAction::ShrinkBottom,
        WindowAction::ShrinkHorizontal,
        WindowAction::ShrinkVertical,
        WindowAction::MoveLeft,
        WindowAction::MoveRight,
        WindowAction::MoveUp,
        WindowAction::MoveDown,
        WindowAction::FocusUp,
        WindowAction::FocusDown,
        WindowAction::FocusLeft,
        WindowAction::FocusRight,
        WindowAction::FocusNextInStack,
        WindowAction::Minimize,
        WindowAction::Stash,
        WindowAction::RevealStashed,
        WindowAction::Hide,
        WindowAction::RestoreInitialFrame,
        WindowAction::Undo,
    ];

    /// Plain-language name shown in settings (never in the radial overlay).
    pub fn display_name(self) -> (s: &'static str)
        ensures
            s@ == display_name_of(self),
    {
        match self {
            WindowAction::LeftHalf => "Left half",
            WindowAction::RightHalf => "Right half",
            WindowAction::TopHalf => "Top half",
            WindowAction::BottomHalf => "Bottom half",
            WindowAction::TopLeftQuarter => "Top-left quarter",
            WindowAction::TopRightQuarter => "Top-right quarter",
            WindowAction::BottomLeftQuarter => "Bottom-left quarter",
            WindowAction::BottomRightQuarter => "Bottom-right quarter",
            WindowAction::LeftThird => "Left third",
            WindowAction::LeftTwoThirds => "Left two-thirds",
            WindowAction::HorizontalCenterThird => "Horizontal center third",
            WindowAction::RightTwoThirds => "Right two-thirds",
            WindowAction::RightThird => "Right third",
            WindowAction::TopThird => "Top third",
            WindowAction::TopTwoThirds => "Top two-thirds",
            WindowAction::VerticalCenterThird => "Vertical center third",
            WindowAction::BottomTwoThirds => "Bottom two-thirds",
            WindowAction::BottomThird => "Bottom third",
            WindowAction::Center => "Center",
            WindowAction::Maximize => "Maximize",
            WindowAction::AlmostMaximize => "Almost maximize",
            WindowAction::Fullscreen => "Fullscreen",
            WindowAction::MaximizeHeight => "Maximize height",
            WindowAction::MaximizeWidth => "Maximize width",
            WindowAction::FillAvailableSpace => "Fill available space",
            WindowAction::MinimizeOthers => "Minimize other windows",
            WindowAction::HorizontalCenterHalf => "Horizontal center half",
            WindowAction::VerticalCenterHalf => "Vertical center half",
            WindowAction::FirstFourth => "First fourth",
            WindowAction::SecondFourth => "Second fourth",
            WindowAction::ThirdFourth => "Third fourth",
            WindowAction::FourthFourth => "Fourth fourth",
            WindowAction::LeftThreeFourths => "Left three-fourths",
            WindowAction::RightThreeFourths => "Right three-fourths",
            WindowAction::NextScreen => "Next screen",
            WindowAction::PreviousScreen => "Previous screen",
            WindowAction::LeftScreen => "Screen to the left",
            WindowAction::RightScreen => "Screen to the right",
            WindowAction::TopScreen => "Screen above",
            WindowAction::BottomScreen => "Screen below",
            WindowAction::Larger => "Larger",
            WindowAction::Smaller => "Smaller",
            WindowAction::ScaleUp => "Scale up",
            WindowAction::ScaleDown => "Scale down",
            WindowAction::GrowLeft => "Grow left",
            WindowAction::GrowRight => "Grow right",
            WindowAction::GrowTop => "Grow top",
            WindowAction::GrowBottom => "Grow bottom",
            WindowAction::GrowHorizontal => "Grow horizontally",
            WindowAction::GrowVertical => "Grow vertically",
            WindowAction::ShrinkLeft => "Shrink left",
            WindowAction::ShrinkRight => "Shrink right",
            WindowAction::ShrinkTop => "Shrink top",
            WindowAction::ShrinkBottom => "Shrink bottom",
            WindowAction::ShrinkHorizontal => "Shrink horizontally",
            WindowAction::ShrinkVertical => "Shrink vertically",
            WindowAction::MoveLeft => "Move left",
            WindowAction::MoveRight => "Move right",
            WindowAction::MoveUp => "Move up",
            WindowAction::MoveDown => "Move down",
            WindowAction::FocusUp => "Focus up",
            WindowAction::FocusDown => "Focus down",
            WindowAction::FocusLeft => "Focus left",
            WindowAction::FocusRight => "Focus right",
            WindowAction::FocusNextInStack => "Focus next in stack",
            WindowAction::Minimize => "Minimize",
            WindowAction::Stash => "Stash at edge",
            WindowAction::RevealStashed => "Reveal stashed window",
            WindowAction::Hide => "Hide",
            WindowAction::RestoreInitialFrame => "Restore original frame",
            WindowAction::Undo => "Undo",
        }
    }

    fn variant_name(self) -> (s: &'static str)
        ensures
            s@ == variant_name_of(self),
    {
        match self {
            WindowAction::LeftHalf => "LeftHalf",
            WindowAction::RightHalf => "RightHalf",
            WindowAction::TopHalf => "TopHalf",
            WindowAction::BottomHalf => "BottomHalf",
            WindowAction::TopLeftQuarter => "TopLeftQuarter",
            WindowAction::TopRightQuarter => "TopRightQuarter",
            WindowAction::BottomLeftQuarter => "BottomLeftQuarter",
            WindowAction::BottomRightQuarter => "BottomRightQuarter",
            WindowAction::LeftThird => "LeftThird",
            WindowAction::LeftTwoThirds => "LeftTwoThirds",
            WindowAction::HorizontalCenterThird => "HorizontalCenterThird",
            WindowAction::RightTwoThirds => "RightTwoThirds",
            WindowAction::RightThird => "RightThird",
            WindowAction::TopThird => "TopThird",
            WindowAction::TopTwoThirds => "TopTwoThirds",
            WindowAction::VerticalCenterThird => "VerticalCenterThird",
            WindowAction::BottomTwoThirds => "BottomTwoThirds",
            WindowAction::BottomThird => "BottomThird",
            WindowAction::Center => "Center",
            WindowAction::Maximize => "Maximize",
            WindowAction::AlmostMaximize => "AlmostMaximize",
            WindowAction::Fullscreen => "Fullscreen",
            WindowAction::MaximizeHeight => "MaximizeHeight",
            WindowAction::MaximizeWidth => "MaximizeWidth",
            WindowAction::FillAvailableSpace => "FillAvailableSpace",
            WindowAction::MinimizeOthers => "MinimizeOthers",
            WindowAction::HorizontalCenterHalf => "HorizontalCenterHalf",
            WindowAction::VerticalCenterHalf => "VerticalCenterHalf",
            WindowAction::FirstFourth => "FirstFourth",
            WindowAction::SecondFourth => "SecondFourth",
            WindowAction::ThirdFourth => "ThirdFourth",
            WindowAction::FourthFourth => "FourthFourth",
            WindowAction::LeftThreeFourths => "LeftThreeFourths",
            WindowAction::RightThreeFourths => "RightThreeFourths",
            WindowAction::NextScreen => "NextScreen",
            WindowAction::PreviousScreen => "PreviousScreen",
            WindowAction::LeftScreen => "LeftScreen",
            WindowAction::RightScreen => "RightScreen",
            WindowAction::TopScreen => "TopScreen",
            WindowAction::BottomScreen => "BottomScreen",
            WindowAction::Larger => "Larger",
            WindowAction::Smaller => "Smaller",
            WindowAction::ScaleUp => "ScaleUp",
            WindowAction::ScaleDown => "ScaleDown",
            WindowAction::GrowLeft => "GrowLeft",
            WindowAction::GrowRight => "GrowRight",
            WindowAction::GrowTop => "GrowTop",
            WindowAction::GrowBottom => "GrowBottom",
            WindowAction::GrowHorizontal => "GrowHorizontal",
            WindowAction::GrowVertical => "GrowVertical",
            WindowAction::ShrinkLeft => "ShrinkLeft",
            WindowAction::ShrinkRight => "ShrinkRight",
            WindowAction::ShrinkTop => "ShrinkTop",
            WindowAction::ShrinkBottom => "ShrinkBottom",
            WindowAction::ShrinkHorizontal => "ShrinkHorizontal",
            WindowAction::ShrinkVertical => "ShrinkVertical",
            WindowAction::MoveLeft => "MoveLeft",
            WindowAction::MoveRight => "MoveRight",
            WindowAction::MoveUp => "MoveUp",
            WindowAction::MoveDown => "MoveDown",
            WindowAction::FocusUp => "FocusUp",
            WindowAction::FocusDown => "FocusDown",
            WindowAction::FocusLeft => "FocusLeft",
            WindowAction::FocusRight => "FocusRight",
            WindowAction::FocusNextInStack => "FocusNextInStack",
            WindowAction::Minimize => "Minimize",
            WindowAction::Stash => "Stash",
            WindowAction::RevealStashed => "RevealStashed",
            WindowAction::Hide => "Hide",
            WindowAction::RestoreInitialFrame => "RestoreInitialFrame",
            WindowAction::Undo => "Undo",
        }
    }

    /// Numeric discriminant used in persisted JSON.
    pub fn discriminant(self) -> (d: u8)
        ensures
            d == action_number(self),
    {
        match self {
            WindowAction::LeftHalf => 0,
            WindowAction::RightHalf => 1,
            WindowAction::TopHalf => 2,
            WindowAction::BottomHalf => 3,
            WindowAction::TopLeftQuarter => 4,
            WindowAction::TopRightQuarter => 5,
            WindowAction::BottomLeftQuarter => 6,
            WindowAction::BottomRightQuarter => 7,
            WindowAction::LeftThird => 8,
            WindowAction::LeftTwoThirds => 9,
            WindowAction::HorizontalCenterThird => 10,
            WindowAction::RightTwoThirds => 11,
            WindowAction::RightThird => 12,
            WindowAction::TopThird => 13,
            WindowAction::TopTwoThirds => 14,
            WindowAction::VerticalCenterThird => 15,
            WindowAction::BottomTwoThirds => 16,
            WindowAction::BottomThird => 17,
            WindowAction::Center => 18,
            WindowAction::Maximize => 19,
            WindowAction::AlmostMaximize => 20,
            WindowAction::Fullscreen => 21,
            WindowAction::MaximizeHeight => 22,
            WindowAction::MaximizeWidth => 23,
            WindowAction::FillAvailableSpace => 24,
            WindowAction::MinimizeOthers => 25,
            WindowAction::HorizontalCenterHalf => 26,
            WindowAction::VerticalCenterHalf => 27,
            WindowAction::FirstFourth => 28,
            WindowAction::SecondFourth => 29,
            WindowAction::ThirdFourth => 30,
            WindowAction::FourthFourth => 31,
            WindowAction::LeftThreeFourths => 32,
            WindowAction::RightThreeFourths => 33,
            WindowAction::NextScreen => 34,
            WindowAction::PreviousScreen => 35,
            WindowAction::LeftScreen => 36,
            WindowAction::RightScreen => 37,
            WindowAction::TopScreen => 38,
            WindowAction::BottomScreen => 39,
            WindowAction::Larger => 40,
            WindowAction::Smaller => 41,
            WindowAction::ScaleUp => 42,
            WindowAction::ScaleDown => 43,
            WindowAction::GrowLeft => 44,
            WindowAction::GrowRight => 45,
            WindowAction::GrowTop => 46,
            WindowAction::GrowBottom => 47,
            WindowAction::GrowHorizontal => 48,
            WindowAction::GrowVertical => 49,
            WindowAction::ShrinkLeft => 50,
            WindowAction::ShrinkRight => 51,
            WindowAction::ShrinkTop => 52,
            WindowAction::ShrinkBottom => 53,
            WindowAction::ShrinkHorizontal => 54,
            WindowAction::ShrinkVertical => 55,
            WindowAction::MoveLeft => 56,
            WindowAction::MoveRight => 57,
            WindowAction::MoveUp => 58,
            WindowAction::MoveDown => 59,
            WindowAction::FocusUp => 60,
            WindowAction::FocusDown => 61,
            WindowAction::FocusLeft => 62,
            WindowAction::FocusRight => 63,
            WindowAction::FocusNextInStack => 64,
            WindowAction::Minimize => 65,
            WindowAction::Stash => 66,
            WindowAction::RevealStashed => 67,
            WindowAction::Hide => 68,
            WindowAction::RestoreInitialFrame => 69,
            WindowAction::Undo => 70,
        }
    }

    /// The action stored under a persisted number, if there is one.
    pub fn from_discriminant(d: u8) -> (a: Option<WindowAction>)
        ensures
            a == (if d < 71 { Some(action_with_number(d as nat)) } else { None::<WindowAction> }),
    {
        match d {
            0 => Some(WindowAction::LeftHalf),
            1 => Some(WindowAction::RightHalf),
            2 => Some(WindowAction::TopHalf),
            3 => Some(WindowAction::BottomHalf),
            4 => Some(WindowAction::TopLeftQuarter),
            5 => Some(WindowAction::TopRightQuarter),
            6 => Some(WindowAction::BottomLeftQuarter),
            7 => Some(WindowAction::BottomRightQuarter),
            8 => Some(WindowAction::LeftThird),
            9 => Some(WindowAction::LeftTwoThirds),
            10 => Some(WindowAction::HorizontalCenterThird),
            11 => Some(WindowAction::RightTwoThirds),
            12 => Some(WindowAction::RightThird),
            13 => Some(WindowAction::TopThird),
            14 => Some(WindowAction::TopTwoThirds),
            15 => Some(WindowAction::VerticalCenterThird),
            16 => Some(WindowAction::BottomTwoThirds),
            17 => Some(WindowAction::BottomThird),
            18 => Some(WindowAction::Center),
            19 => Some(WindowAction::Maximize),
            20 => Some(WindowAction::AlmostMaximize),
            21 => Some(WindowAction::Fullscreen),
            22 => Some(WindowAction::MaximizeHeight),
            23 => Some(WindowAction::MaximizeWidth),
            24 => Some(WindowAction::FillAvailableSpace),
            25 => Some(WindowAction::MinimizeOthers),
            26 => Some(WindowAction::HorizontalCenterHalf),
            27 => Some(WindowAction::VerticalCenterHalf),
            28 => Some(WindowAction::FirstFourth),
            29 => Some(WindowAction::SecondFourth),
            30 => Some(WindowAction::ThirdFourth),
            31 => Some(WindowAction::FourthFourth),
            32 => Some(WindowAction::LeftThreeFourths),
            33 => Some(WindowAction::RightThreeFourths),
            34 => Some(WindowAction::NextScreen),
            35 => Some(WindowAction::PreviousScreen),
            36 => Some(WindowAction::LeftScreen),
            37 => Some(WindowAction::RightScreen),
            38 => Some(WindowAction::TopScreen),
            39 => Some(WindowAction::BottomScreen),
            40 => Some(WindowAction::Larger),
            41 => Some(WindowAction::Smaller),
            42 => Some(WindowAction::ScaleUp),
            43 => Some(WindowAction::ScaleDown),
            44 => Some(WindowAction::GrowLeft),
            45 => Some(WindowAction::GrowRight),
            46 => Some(WindowAction::GrowTop),
            47 => Some(WindowAction::GrowBottom),
            48 => Some(WindowAction::GrowHorizontal),
            49 => Some(WindowAction::GrowVertical),
            50 => Some(WindowAction::ShrinkLeft),
            51 => Some(WindowAction::ShrinkRight),
            52 => Some(WindowAction::ShrinkTop),
            53 => Some(WindowAction::ShrinkBottom),
            54 => Some(WindowAction::ShrinkHorizontal),
            55 => Some(WindowAction::ShrinkVertical),
            56 => Some(WindowAction::MoveLeft),
            57 => Some(WindowAction::MoveRight),
            58 => Some(WindowAction::MoveUp),
            59 => Some(WindowAction::MoveDown),
            60 => Some(WindowAction::FocusUp),
            61 => Some(WindowAction::FocusDown),
            62 => Some(WindowAction::FocusLeft),
            63 => Some(WindowAction::FocusRight),
            64 => Some(WindowAction::FocusNextInStack),
            65 => Some(WindowAction::Minimize),
            66 => Some(WindowAction::Stash),
            67 => Some(WindowAction::RevealStashed),
            68 => Some(WindowAction::Hide),
            69 => Some(WindowAction::RestoreInitialFrame),
            70 => Some(WindowAction::Undo),
            _ => None,
        }
    }

    /// CLI token: lowercased variant name without separators.
    pub fn token(self) -> (t: String)
        ensures
            t@ == token_of(variant_name_of(self)),
    {
        normalize_token(self.variant_name())
    }

    /// Parse a CLI token back into an action (case/separator insensitive).
    /// The first action in catalog order whose variant name matches wins.
    pub fn parse_token(value: &str) -> (r: Option<WindowAction>)
        ensures
            r == token_lookup(value@),
    {
        let mut d: u8 = 0;
        while d < 71
            invariant
                d <= 71,
                token_lookup(value@) == token_lookup_from(value@, d as nat),
            decreases 71 - d,
        {
            let a = match WindowAction::from_discriminant(d) {
                Some(a) => a,
                None => { return None; },
            };
            if normalized_eq(value, a.variant_name()) {
                return Some(a);
            }
            d = d + 1;
        }
        None
    }
}

/// The first action, from number `n` on, whose variant name is the same
/// token as `value`.
pub open spec fn token_lookup_from(value: Seq<char>, n: nat) -> Option<WindowAction>
    decreases 71 - n,
{
    if n >= 71 {
        None
    } else if tokens_match(value, variant_name_of(action_with_number(n))) {
        Some(action_with_number(n))
    } else {
        token_lookup_from(value, n + 1)
    }
}

/// The first action in catalog order whose variant name is the same token
/// as `value`.
pub open spec fn token_lookup(value: Seq<char>) -> Option<WindowAction> {
    token_lookup_from(value, 0)
}

/// What `token_lookup` finds matches the value, and nothing earlier in the
/// catalog does; when it finds nothing, no action matches.
pub proof fn law_token_lookup_is_first_match(value: Seq<char>)
    ensures
        match token_lookup(value) {
            Some(a) => {
                &&& tokens_match(value, variant_name_of(a))
                &&& forall|b: WindowAction|
                    action_number(b) < action_number(a) ==> !tokens_match(
                        value,
                        #[trigger] variant_name_of(b),
                    )
            },
            None => forall|b: WindowAction| !tokens_match(value, #[trigger] variant_name_of(b)),
        },
{
    lemma_lookup_from(value, 0);
}

proof fn lemma_lookup_from(value: Seq<char>, n: nat)
    ensures
        match token_lookup_from(value, n) {
            Some(a) => {
                &&& n <= action_number(a) < 71
                &&& tokens_match(value, variant_name_of(a))
                &&& forall|b: WindowAction|
                    n <= action_number(b) < action_number(a) ==> !tokens_match(
                        value,
                        #[trigger] variant_name_of(b),
                    )
            },
            None => forall|b: WindowAction|
                n <= action_number(b) ==> !tokens_match(value, #[trigger] variant_name_of(b)),
        },
    decreases 71 - n,
{
    if n < 71 {
        lemma_lookup_from(value, n + 1);
        lemma_number_roundtrip(n);
        assert forall|b: WindowAction| action_number(b) == n implies b == action_with_number(n) by {
            lemma_number_bound(b);
        }
    } else {
        assert forall|b: WindowAction| n <= action_number(b) implies !tokens_match(
            value,
            #[trigger] variant_name_of(b),
        ) by {
            lemma_number_bound(b);
        }
    }
}

/// Characters that token comparison ignores.
pub open spec fn is_separator(c: char) -> bool {
    c == '-' || c == '_'
}

/// A string with every `-` and `_` removed.
pub open spec fn strip_separators(s: Seq<char>) -> Seq<char>
    decreases s.len(),
{
    if s.len() == 0 {
        Seq::empty()
    } else if is_separator(s.last()) {
        strip_separators(s.drop_last())
    } else {
        strip_separators(s.drop_last()).push(s.last())
    }
}

/// Normalized token text: separators dropped, ASCII lowercased.
pub open spec fn token_of(s: Seq<char>) -> Seq<char> {
    ascii_lower_seq(strip_separators(s))
}

/// Two names are the same token: equal after dropping separators and
/// ignoring ASCII case.
pub open spec fn tokens_match(a: Seq<char>, b: Seq<char>) -> bool {
    token_of(a) == token_of(b)
}

proof fn lemma_number_roundtrip(n: nat)
    requires
        n < 71,
    ensures
        action_number(action_with_number(n)) == n,
{
}

proof fn lemma_number_bound(a: WindowAction)
    ensures
        action_number(a) < 71,
        action_with_number(action_number(a)) == a,
{
}

/// Number of actions equals the catalog length, and numbering is a
/// bijection between actions and `0..71`.
pub proof fn law_numbering_is_bijective(a: WindowAction, n: nat)
    ensures
        action_number(a) < 71,
        action_with_number(action_number(a)) == a,
        n < 71 ==> action_number(action_with_number(n)) == n,
{
}

fn strip_and_lower(v: &Vec<char>) -> (r: Vec<char>)
    ensures
        r@ == token_of(v@),
{
    let mut r: Vec<char> = Vec::new();
    let mut i: usize = 0;
    while i < v.len()
        invariant
            i <= v.len(),
            r@ == token_of(v@.subrange(0, i as int)),
        decreases v.len() - i,
    {
        let c = v[i];
        proof {
            let s = v@.subrange(0, i as int + 1);
            assert(s.drop_last() =~= v@.subrange(0, i as int));
            assert(s.last() == c);
        }
        if !(c == '-' || c == '_') {
            r.push(lower_char(c));
            assert(r@ =~= token_of(v@.subrange(0, i as int + 1)));
        } else {
            assert(r@ =~= token_of(v@.subrange(0, i as int + 1)));
        }
        i = i + 1;
    }
    assert(v@.subrange(0, v@.len() as int) =~= v@);
    r
}

/// Drop `-` and `_`, then lowercase ASCII letters.
pub fn normalize_token(value: &str) -> (t: String)
    ensures
        t@ == token_of(value@),
{
    let v = chars_of(value);
    let r = strip_and_lower(&v);
    string_of(r.as_slice())
}

/// Compare action names ignoring separators and ASCII case.
fn normalized_eq(left: &str, right: &str) -> (b: bool)
    ensures
        b == tokens_match(left@, right@),
{
    let l = strip_and_lower(&chars_of(left));
    let r = strip_and_lower(&chars_of(right));
    if l.len() != r.len() {
        return false;
    }
    let mut i: usize = 0;
    while i < l.len()
        invariant
            l@ == token_of(left@),
            r@ == token_of(right@),
            l.len() == r.len(),
            i <= l.len(),
            forall|j: int| 0 <= j < i ==> l@[j] == r@[j],
        decreases l.len() - i,
    {
        if l[i] != r[i] {
            assert(l@[i as int] != r@[i as int]);
            return false;
        }
        i = i + 1;
    }
    assert(l@ =~= r@);
    true
}

} // verus!
