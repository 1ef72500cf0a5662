//! Left-nav sections of the settings window.

use vstd::prelude::*;

verus! {

/// Left-nav sections (General first).
#[derive(Debug, Clone, Copy, PartialEq, Eq, Structural)]
pub enum Section {
    General,
    Radial,
    Preview,
    Appearance,
    Advanced,
}

/// The title of a section.
pub open spec fn section_label(s: Section) -> Seq<char> {
    match s {
        Section::General => "General"@,
        Section::Radial => "Radial menu"@,
        Section::Preview => "Preview"@,
        Section::Appearance => "Appearance"@,
        Section::Advanced => "Advanced"@,
    }
}

/// The one-line hint under a section's title.
pub open spec fn section_hint(s: Section) -> Seq<char> {
    match s {
        Section::General => "Trigger and launch"@,
        Section::Radial => "Menu shape and slots"@,
        Section::Preview => "Target preview and snapping"@,
        Section::Appearance => "Theme and colors"@,
        Section::Advanced => "Keybinds and recovery"@,
    }
}

impl Section {
    /// Every section, in navigation order.
    pub const ALL: [Section; 5] = [
        Section::General,
        Section::Radial,
        Section::Preview,
        Section::Appearance,
        Section::Advanced,
    ];

    pub fn label(self) -> (s: &'static str)
        ensures
            s@ == section_label(self),
    {
        match self {
            Section::General => "General",
            Section::Radial => "Radial menu",
            Section::Preview => "Preview",
            Section::Appearance => "Appearance",
            Section::Advanced => "Advanced",
        }
    }

    pub fn hint(self) -> (s: &'static str)
        ensures
            s@ == section_hint(self),
    {
        match self {
            Section::General => "Trigger and launch",
            Section::Radial => "Menu shape and slots",
            Section::Preview => "Target preview and snapping",
            Section::Appearance => "Theme and colors",
            Section::Advanced => "Keybinds and recovery",
        }
    }
}

} // verus!
