//! What the resident app does with one command line: reply directly, show
//! the settings window, reveal a stashed window, or act on the foreground
//! window. Window work is left to the caller.

use vstd::prelude::*;
use crate::engine::actions::WindowAction;
use crate::engine::commands::{
    LoopCommand, action_listing, command_of, format_actions, format_keybinds, keybind_listing,
    parse_command,
};
use crate::settings::model::{AppSettings, Keybind};
use crate::text::{push_str, string_of};

verus! {

/// The next step for one command.
#[derive(Debug, Clone, PartialEq, Eq)]
pub enum CommandStep {
    /// Reply with this text and do nothing else.
    Reply(String),
    /// Show the settings window, then reply `"LoopW activated."`.
    Activate,
    /// Reveal the next stashed window and reply with the result.
    RevealStashed,
    /// Apply the action to the foreground window, when that window exists
    /// and belongs to another process.
    ApplyToForeground(WindowAction),
}

/// The listing row of a keybind: modifiers, key, action, cycle, bypass.
pub open spec fn listing_row(k: Keybind) -> (u32, u32, WindowAction, bool, bool) {
    (k.modifiers, k.vk, k.action, k.cycle_enabled, k.bypass_trigger)
}

/// The `list/keybinds` text for a settings value.
pub open spec fn keybinds_text(s: AppSettings) -> Seq<char> {
    keybind_listing(
        s.keybinds@.map_values(|k: Keybind| listing_row(k)),
        s.trigger_modifiers,
        s.trigger_vk,
        s.trigger_modifier_side,
    )
}

/// The step a command leads to: errors are replied as `ERROR: <message>`,
/// listings are replied in full (`list/all` joins both under headings).
pub open spec fn step_of(command: Seq<char>, s: AppSettings) -> Option<Seq<char>> {
    match command_of(command) {
        Err(e) => Some("ERROR: "@ + e),
        Ok(LoopCommand::ListActions) => Some(action_listing(71)),
        Ok(LoopCommand::ListKeybinds) => Some(keybinds_text(s)),
        Ok(LoopCommand::ListAll) => Some(
            "Actions:\r\n"@ + action_listing(71) + "\r\n\r\nKeybinds:\r\n"@ + keybinds_text(s),
        ),
        _ => None,
    }
}

fn keybind_rows(keybinds: &[Keybind]) -> (v: Vec<(u32, u32, WindowAction, bool, bool)>)
    ensures
        v@ == keybinds@.map_values(|k: Keybind| listing_row(k)),
{
    let mut v: Vec<(u32, u32, WindowAction, bool, bool)> = Vec::new();
    let mut i: usize = 0;
    while i < keybinds.len()
        invariant
            i <= keybinds.len(),
            v@ == keybinds@.take(i as int).map_values(|k: Keybind| listing_row(k)),
        decreases keybinds.len() - i,
    {
        let b = &keybinds[i];
        v.push((b.modifiers, b.vk, b.action, b.cycle_enabled, b.bypass_trigger));
        assert(keybinds@.take(i as int + 1).map_values(|k: Keybind| listing_row(k)) =~= keybinds@.take(
            i as int,
        ).map_values(|k: Keybind| listing_row(k)).push(listing_row(keybinds@[i as int])));
        i = i + 1;
    }
    assert(keybinds@.take(keybinds.len() as int) =~= keybinds@);
    v
}

fn keybinds_listing(settings: &AppSettings) -> (s: String)
    ensures
        s@ == keybinds_text(*settings),
{
    let rows = keybind_rows(settings.keybinds.as_slice());
    format_keybinds(
        rows.as_slice(),
        settings.trigger_modifiers,
        settings.trigger_vk,
        settings.trigger_modifier_side,
    )
}

/// Decide what one command line does, given the current settings.
pub fn plan_command(command: &str, settings: &AppSettings) -> (step: CommandStep)
    ensures
        match step {
            CommandStep::Reply(text) => step_of(command@, *settings) == Some(text@),
            CommandStep::Activate => command_of(command@) == Ok::<LoopCommand, Seq<char>>(
                LoopCommand::Activate,
            ),
            CommandStep::RevealStashed => command_of(command@) == Ok::<LoopCommand, Seq<char>>(
                LoopCommand::Apply(WindowAction::RevealStashed),
            ),
            CommandStep::ApplyToForeground(a) => a != WindowAction::RevealStashed && command_of(
                command@,
            ) == Ok::<LoopCommand, Seq<char>>(LoopCommand::Apply(a)),
        },
{
    match parse_command(command) {
        Err(error) => {
            let mut out: Vec<char> = Vec::new();
            push_str(&mut out, "ERROR: ");
            push_str(&mut out, error.as_str());
            CommandStep::Reply(string_of(out.as_slice()))
        },
        Ok(LoopCommand::Activate) => CommandStep::Activate,
        Ok(LoopCommand::Apply(action)) => {
            if action == WindowAction::RevealStashed {
                CommandStep::RevealStashed
            } else {
                CommandStep::ApplyToForeground(action)
            }
        },
        Ok(LoopCommand::ListActions) => CommandStep::Reply(format_actions()),
        Ok(LoopCommand::ListKeybinds) => CommandStep::Reply(keybinds_listing(settings)),
        Ok(LoopCommand::ListAll) => {
            let actions = format_actions();
            let keybinds = keybinds_listing(settings);
            let mut out: Vec<char> = Vec::new();
            push_str(&mut out, "Actions:\r\n");
            push_str(&mut out, actions.as_str());
            push_str(&mut out, "\r\n\r\nKeybinds:\r\n");
            push_str(&mut out, keybinds.as_str());
            assert(out@ =~= "Actions:\r\n"@ + action_listing(71) + "\r\n\r\nKeybinds:\r\n"@
                + keybinds_text(*settings));
            CommandStep::Reply(string_of(out.as_slice()))
        },
    }
}

} // verus!
