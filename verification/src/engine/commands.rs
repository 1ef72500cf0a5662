//! `LoopW.exe <command>` parsing and list formatting, including direction
//! aliases and the single-token command contract.

use vstd::prelude::*;
use super::actions::{
    WindowAction, action_with_number, display_name_of, token_lookup, token_of,
    variant_name_of,
};
use super::hotkey::{TriggerModifierSide, hotkey_name_of, push_hotkey_name};
use crate::text::{
    all_space, chars_of, eq_ascii_ci, eq_ignore_ascii_case, is_blank, is_space, is_space_char,
    owned, push_str, string_of, trim, trimmed,
};

verus! {

/// A parsed CLI / named-pipe command.
#[derive(Debug, Clone, Copy, PartialEq, Eq, Structural)]
pub enum LoopCommand {
    Activate,
    Apply(WindowAction),
    ListActions,
    ListKeybinds,
    ListAll,
}

/// Reply when the input is not exactly one command token.
pub open spec fn one_command_message() -> Seq<char> {
    "Expected one command, such as direction/right or list/actions."@
}

/// Whether a sequence contains a white-space character.
pub open spec fn has_space(s: Seq<char>) -> bool {
    exists|i: int| 0 <= i < s.len() && is_space(#[trigger] s[i])
}

/// `prefix` matches the start of `s` up to ASCII case; the rest of `s`.
pub open spec fn ci_prefix_rest(s: Seq<char>, prefix: Seq<char>) -> Option<Seq<char>> {
    if s.len() >= prefix.len() && eq_ascii_ci(s.subrange(0, prefix.len() as int), prefix) {
        Some(s.subrange(prefix.len() as int, s.len() as int))
    } else {
        None
    }
}

/// Direction aliases accepted after `direction/`.
pub open spec fn direction_of(name: Seq<char>) -> Option<WindowAction> {
    if eq_ascii_ci(name, "left"@) {
        Some(WindowAction::LeftHalf)
    } else if eq_ascii_ci(name, "right"@) {
        Some(WindowAction::RightHalf)
    } else if eq_ascii_ci(name, "top"@) {
        Some(WindowAction::TopHalf)
    } else if eq_ascii_ci(name, "bottom"@) {
        Some(WindowAction::BottomHalf)
    } else if eq_ascii_ci(name, "next"@) {
        Some(WindowAction::NextScreen)
    } else if eq_ascii_ci(name, "previous"@) || eq_ascii_ci(name, "prev"@) {
        Some(WindowAction::PreviousScreen)
    } else if eq_ascii_ci(name, "left-screen"@) {
        Some(WindowAction::LeftScreen)
    } else if eq_ascii_ci(name, "right-screen"@) {
        Some(WindowAction::RightScreen)
    } else if eq_ascii_ci(name, "top-screen"@) {
        Some(WindowAction::TopScreen)
    } else if eq_ascii_ci(name, "bottom-screen"@) {
        Some(WindowAction::BottomScreen)
    } else {
        None
    }
}

/// The command a single token denotes, or the error reply.
pub open spec fn command_of_token(token: Seq<char>) -> Result<LoopCommand, Seq<char>> {
    if eq_ascii_ci(token, "activate"@) {
        Ok(LoopCommand::Activate)
    } else if eq_ascii_ci(token, "list/actions"@) {
        Ok(LoopCommand::ListActions)
    } else if eq_ascii_ci(token, "list/keybinds"@) {
        Ok(LoopCommand::ListKeybinds)
    } else if eq_ascii_ci(token, "list/all"@) {
        Ok(LoopCommand::ListAll)
    } else if ci_prefix_rest(token, "direction/"@) is Some {
        let body = ci_prefix_rest(token, "direction/"@)->0;
        match direction_of(body) {
            Some(a) => Ok(LoopCommand::Apply(a)),
            None => Err(
                "Unknown direction '"@ + body
                    + "'. Use left, right, top, bottom, next, previous, or a directional screen command."@,
            ),
        }
    } else if ci_prefix_rest(token, "action/"@) is Some {
        let name = ci_prefix_rest(token, "action/"@)->0;
        match token_lookup(name) {
            Some(a) => Ok(LoopCommand::Apply(a)),
            None => Err("Unknown action '"@ + name + "'. Use list/actions to see valid actions."@),
        }
    } else {
        Err(
            "Unknown command '"@ + token
                + "'. Use direction/<name>, action/<name>, or list/<scope>."@,
        )
    }
}

/// The command denoted by raw input: exactly one white-space separated
/// token is required.
pub open spec fn command_of(raw: Seq<char>) -> Result<LoopCommand, Seq<char>> {
    if all_space(raw) || has_space(trimmed(raw)) {
        Err(one_command_message())
    } else {
        command_of_token(trimmed(raw))
    }
}

fn ci_eq_str(token: &Vec<char>, lit: &str) -> (b: bool)
    ensures
        b == eq_ascii_ci(token@, lit@),
{
    let l = chars_of(lit);
    eq_ignore_ascii_case(token.as_slice(), l.as_slice())
}

fn slice_from(v: &Vec<char>, from: usize, to: usize) -> (r: Vec<char>)
    requires
        from <= to <= v.len(),
    ensures
        r@ == v@.subrange(from as int, to as int),
{
    let mut r: Vec<char> = Vec::new();
    let mut i: usize = from;
    while i < to
        invariant
            from <= i <= to <= v.len(),
            r@ == v@.subrange(from as int, i as int),
        decreases to - i,
    {
        r.push(v[i]);
        i = i + 1;
    }
    r
}

fn strip_ascii_prefix(value: &Vec<char>, prefix: &str) -> (r: Option<Vec<char>>)
    ensures
        match r {
            Some(rest) => ci_prefix_rest(value@, prefix@) == Some(rest@),
            None => ci_prefix_rest(value@, prefix@) is None,
        },
{
    let p = chars_of(prefix);
    if value.len() < p.len() {
        return None;
    }
    let head = slice_from(value, 0, p.len());
    if eq_ignore_ascii_case(head.as_slice(), p.as_slice()) {
        Some(slice_from(value, p.len(), value.len()))
    } else {
        None
    }
}

fn parse_direction(name: &Vec<char>) -> (r: Option<WindowAction>)
    ensures
        r == direction_of(name@),
{
    if ci_eq_str(name, "left") {
        Some(WindowAction::LeftHalf)
    } else if ci_eq_str(name, "right") {
        Some(WindowAction::RightHalf)
    } else if ci_eq_str(name, "top") {
        Some(WindowAction::TopHalf)
    } else if ci_eq_str(name, "bottom") {
        Some(WindowAction::BottomHalf)
    } else if ci_eq_str(name, "next") {
        Some(WindowAction::NextScreen)
    } else if ci_eq_str(name, "previous") || ci_eq_str(name, "prev") {
        Some(WindowAction::PreviousScreen)
    } else if ci_eq_str(name, "left-screen") {
        Some(WindowAction::LeftScreen)
    } else if ci_eq_str(name, "right-screen") {
        Some(WindowAction::RightScreen)
    } else if ci_eq_str(name, "top-screen") {
        Some(WindowAction::TopScreen)
    } else if ci_eq_str(name, "bottom-screen") {
        Some(WindowAction::BottomScreen)
    } else {
        None
    }
}

fn contains_space(v: &Vec<char>) -> (b: bool)
    ensures
        b == has_space(v@),
{
    let mut i: usize = 0;
    while i < v.len()
        invariant
            i <= v.len(),
            forall|j: int| 0 <= j < i ==> !is_space(#[trigger] v@[j]),
        decreases v.len() - i,
    {
        if is_space_char(v[i]) {
            return true;
        }
        i = i + 1;
    }
    false
}

fn error_with(before: &str, middle: &Vec<char>, after: &str) -> (s: String)
    ensures
        s@ == before@ + middle@ + after@,
{
    let mut out: Vec<char> = Vec::new();
    push_str(&mut out, before);
    let mut i: usize = 0;
    let ghost start = out@;
    while i < middle.len()
        invariant
            i <= middle.len(),
            out@ == start + middle@.subrange(0, i as int),
        decreases middle.len() - i,
    {
        out.push(middle[i]);
        i = i + 1;
    }
    push_str(&mut out, after);
    assert(out@ =~= before@ + middle@ + after@);
    string_of(out.as_slice())
}

/// Parse one raw command token.
pub fn parse_command(raw: &str) -> (r: Result<LoopCommand, String>)
    ensures
        match r {
            Ok(c) => command_of(raw@) == Ok::<LoopCommand, Seq<char>>(c),
            Err(e) => command_of(raw@) == Err::<LoopCommand, Seq<char>>(e@),
        },
{
    let chars = chars_of(raw);
    if is_blank(chars.as_slice()) {
        return Err(owned("Expected one command, such as direction/right or list/actions."));
    }
    let token = trim(chars.as_slice());
    if contains_space(&token) {
        return Err(owned("Expected one command, such as direction/right or list/actions."));
    }
    if ci_eq_str(&token, "activate") {
        return Ok(LoopCommand::Activate);
    }
    if ci_eq_str(&token, "list/actions") {
        return Ok(LoopCommand::ListActions);
    }
    if ci_eq_str(&token, "list/keybinds") {
        return Ok(LoopCommand::ListKeybinds);
    }
    if ci_eq_str(&token, "list/all") {
        return Ok(LoopCommand::ListAll);
    }
    if let Some(body) = strip_ascii_prefix(&token, "direction/") {
        if let Some(action) = parse_direction(&body) {
            return Ok(LoopCommand::Apply(action));
        }
        return Err(
            error_with(
                "Unknown direction '",
                &body,
                "'. Use left, right, top, bottom, next, previous, or a directional screen command.",
            ),
        );
    }
    if let Some(name) = strip_ascii_prefix(&token, "action/") {
        let name_str = string_of(name.as_slice());
        if let Some(action) = WindowAction::parse_token(name_str.as_str()) {
            return Ok(LoopCommand::Apply(action));
        }
        return Err(error_with("Unknown action '", &name, "'. Use list/actions to see valid actions."));
    }
    Err(
        error_with(
            "Unknown command '",
            &token,
            "'. Use direction/<name>, action/<name>, or list/<scope>.",
        ),
    )
}

/// One line of `list/actions`: `action/<token> - <name>`.
pub open spec fn action_line(a: WindowAction) -> Seq<char> {
    "action/"@ + token_of(variant_name_of(a)) + " - "@ + display_name_of(a)
}

/// The lines of the first `n` actions, joined with CRLF.
pub open spec fn action_listing(n: nat) -> Seq<char>
    decreases n,
{
    if n == 0 {
        Seq::empty()
    } else if n == 1 {
        action_line(action_with_number(0))
    } else {
        action_listing((n - 1) as nat) + "\r\n"@ + action_line(action_with_number((n - 1) as nat))
    }
}

/// One line per action: `action/<token> - <name>`.
/// Lines join with CRLF, matching Environment.NewLine on Windows.
pub fn format_actions() -> (s: String)
    ensures
        s@ == action_listing(71),
{
    let mut out: Vec<char> = Vec::new();
    let mut d: u8 = 0;
    while d < 71
        invariant
            d <= 71,
            out@ == action_listing(d as nat),
        decreases 71 - d,
    {
        let a = match WindowAction::from_discriminant(d) {
            Some(a) => a,
            None => WindowAction::LeftHalf,
        };
        if d > 0 {
            push_str(&mut out, "\r\n");
        }
        push_str(&mut out, "action/");
        let t = a.token();
        push_str(&mut out, t.as_str());
        push_str(&mut out, " - ");
        push_str(&mut out, a.display_name());
        assert(out@ =~= action_listing(d as nat + 1));
        d = d + 1;
    }
    string_of(out.as_slice())
}

/// One keybind listing line.
pub open spec fn keybind_line(k: (u32, u32, WindowAction, bool, bool)) -> Seq<char> {
    hotkey_name_of(k.0, k.1, TriggerModifierSide::Any) + " -> action/"@ + token_of(
        variant_name_of(k.2),
    ) + (if k.3 {
        " (cycle)"@
    } else {
        Seq::empty()
    }) + (if k.4 {
        " (bypass trigger)"@
    } else {
        Seq::empty()
    })
}

/// Each keybind line preceded by CRLF.
pub open spec fn keybind_lines(ks: Seq<(u32, u32, WindowAction, bool, bool)>) -> Seq<char>
    decreases ks.len(),
{
    if ks.len() == 0 {
        Seq::empty()
    } else {
        keybind_lines(ks.drop_last()) + "\r\n"@ + keybind_line(ks.last())
    }
}

/// The `list/keybinds` text.
pub open spec fn keybind_listing(
    ks: Seq<(u32, u32, WindowAction, bool, bool)>,
    trigger_modifiers: u32,
    trigger_vk: u32,
    side: TriggerModifierSide,
) -> Seq<char> {
    "trigger: "@ + hotkey_name_of(trigger_modifiers, trigger_vk, side) + if ks.len() == 0 {
        "\r\nkeybinds: none"@
    } else {
        keybind_lines(ks)
    }
}

fn push_keybind_line(out: &mut Vec<char>, k: (u32, u32, WindowAction, bool, bool))
    ensures
        final(out)@ == old(out)@ + "\r\n"@ + keybind_line(k),
{
    let (modifiers, vk, action, cycle, bypass) = k;
    push_str(out, "\r\n");
    push_hotkey_name(out, modifiers, vk, TriggerModifierSide::Any);
    push_str(out, " -> action/");
    let t = action.token();
    push_str(out, t.as_str());
    if cycle {
        push_str(out, " (cycle)");
    }
    if bypass {
        push_str(out, " (bypass trigger)");
    }
    assert(final(out)@ =~= old(out)@ + "\r\n"@ + keybind_line(k));
}

/// Keybind listing used by `list/keybinds`.
pub fn format_keybinds(
    keybinds: &[(u32, u32, WindowAction, bool, bool)],
    trigger_modifiers: u32,
    trigger_vk: u32,
    side: TriggerModifierSide,
) -> (s: String)
    ensures
        s@ == keybind_listing(keybinds@, trigger_modifiers, trigger_vk, side),
{
    let mut out: Vec<char> = Vec::new();
    push_str(&mut out, "trigger: ");
    push_hotkey_name(&mut out, trigger_modifiers, trigger_vk, side);
    let ghost head = out@;
    if keybinds.len() == 0 {
        push_str(&mut out, "\r\nkeybinds: none");
        assert(out@ =~= keybind_listing(keybinds@, trigger_modifiers, trigger_vk, side));
        return string_of(out.as_slice());
    }
    let mut i: usize = 0;
    while i < keybinds.len()
        invariant
            i <= keybinds.len(),
            out@ == head + keybind_lines(keybinds@.subrange(0, i as int)),
        decreases keybinds.len() - i,
    {
        push_keybind_line(&mut out, keybinds[i]);
        proof {
            let s = keybinds@.subrange(0, i as int + 1);
            assert(s.drop_last() =~= keybinds@.subrange(0, i as int));
            assert(s.last() == keybinds@[i as int]);
        }
        assert(out@ =~= head + keybind_lines(keybinds@.subrange(0, i as int + 1)));
        i = i + 1;
    }
    assert(keybinds@.subrange(0, keybinds@.len() as int) =~= keybinds@);
    assert(out@ =~= keybind_listing(keybinds@, trigger_modifiers, trigger_vk, side));
    string_of(out.as_slice())
}

proof fn lemma_lower_of_plain(s: Seq<char>)
    requires
        forall|i: int| 0 <= i < s.len() ==> !('A' <= #[trigger] s[i] && s[i] <= 'Z'),
    ensures
        crate::text::ascii_lower_seq(s) == s,
{
    assert(crate::text::ascii_lower_seq(s) =~= s);
}

/// The direction aliases, in lowercase.
pub open spec fn is_direction_alias(lit: Seq<char>) -> bool {
    ||| lit == "left"@
    ||| lit == "right"@
    ||| lit == "top"@
    ||| lit == "bottom"@
    ||| lit == "next"@
    ||| lit == "previous"@
    ||| lit == "prev"@
    ||| lit == "left-screen"@
    ||| lit == "right-screen"@
    ||| lit == "top-screen"@
    ||| lit == "bottom-screen"@
}

proof fn lemma_literals_plain()
    ensures
        crate::text::ascii_lower_seq("direction/"@) == "direction/"@,
        crate::text::ascii_lower_seq("activate"@) == "activate"@,
        crate::text::ascii_lower_seq("list/actions"@) == "list/actions"@,
        crate::text::ascii_lower_seq("list/keybinds"@) == "list/keybinds"@,
        crate::text::ascii_lower_seq("list/all"@) == "list/all"@,
        crate::text::ascii_lower_seq("left"@) == "left"@,
        crate::text::ascii_lower_seq("right"@) == "right"@,
        crate::text::ascii_lower_seq("top"@) == "top"@,
        crate::text::ascii_lower_seq("bottom"@) == "bottom"@,
        crate::text::ascii_lower_seq("next"@) == "next"@,
        crate::text::ascii_lower_seq("previous"@) == "previous"@,
        crate::text::ascii_lower_seq("prev"@) == "prev"@,
        crate::text::ascii_lower_seq("left-screen"@) == "left-screen"@,
        crate::text::ascii_lower_seq("right-screen"@) == "right-screen"@,
        crate::text::ascii_lower_seq("top-screen"@) == "top-screen"@,
        crate::text::ascii_lower_seq("bottom-screen"@) == "bottom-screen"@,
        "activate"@[0] == 'a',
        "list/actions"@[0] == 'l',
        "list/keybinds"@[0] == 'l',
        "list/all"@[0] == 'l',
        "left"@[0] == 'l',
        "next"@[0] == 'n',
        "prev"@[0] == 'p',
{
    reveal_strlit("direction/");
    reveal_strlit("activate");
    reveal_strlit("list/actions");
    reveal_strlit("list/keybinds");
    reveal_strlit("list/all");
    reveal_strlit("left");
    reveal_strlit("right");
    reveal_strlit("top");
    reveal_strlit("bottom");
    reveal_strlit("next");
    reveal_strlit("previous");
    reveal_strlit("prev");
    reveal_strlit("left-screen");
    reveal_strlit("right-screen");
    reveal_strlit("top-screen");
    reveal_strlit("bottom-screen");
    lemma_lower_of_plain("direction/"@);
    lemma_lower_of_plain("activate"@);
    lemma_lower_of_plain("list/actions"@);
    lemma_lower_of_plain("list/keybinds"@);
    lemma_lower_of_plain("list/all"@);
    lemma_lower_of_plain("left"@);
    lemma_lower_of_plain("right"@);
    lemma_lower_of_plain("top"@);
    lemma_lower_of_plain("bottom"@);
    lemma_lower_of_plain("next"@);
    lemma_lower_of_plain("previous"@);
    lemma_lower_of_plain("prev"@);
    lemma_lower_of_plain("left-screen"@);
    lemma_lower_of_plain("right-screen"@);
    lemma_lower_of_plain("top-screen"@);
    lemma_lower_of_plain("bottom-screen"@);
}

/// A command token that spells `direction/<alias>` in any ASCII case
/// parses as that alias.
proof fn lemma_alias_command(p: Seq<char>, name: Seq<char>, lit: Seq<char>)
    requires
        eq_ascii_ci(p, "direction/"@),
        eq_ascii_ci(name, lit),
        is_direction_alias(lit),
    ensures
        direction_of(name) is Some,
        command_of(p + name) == Ok::<LoopCommand, Seq<char>>(
            LoopCommand::Apply(direction_of(name)->0),
        ),
{
    lemma_literals_plain();
    reveal_strlit("direction/");
    reveal_strlit("left");
    reveal_strlit("right");
    reveal_strlit("top");
    reveal_strlit("bottom");
    reveal_strlit("next");
    reveal_strlit("previous");
    reveal_strlit("prev");
    reveal_strlit("left-screen");
    reveal_strlit("right-screen");
    reveal_strlit("top-screen");
    reveal_strlit("bottom-screen");
    let d = "direction/"@;
    let raw = p + name;
    let low = crate::text::ascii_lower_seq(raw);
    assert(p.len() == 10);
    assert(low =~= d + lit);
    assert forall|i: int| 0 <= i < raw.len() implies !is_space(#[trigger] raw[i]) by {
        assert(crate::text::ascii_lower(raw[i]) == low[i]);
        assert(!is_space(low[i]));
    }
    assert(!is_space(raw[0]));
    assert(!is_space(raw.last()));
    assert(crate::text::lead_space(raw) == 0);
    assert(crate::text::trail_space(raw) == 0);
    assert(trimmed(raw) =~= raw);
    assert(!all_space(raw));
    assert(!has_space(raw));
    assert(low[0] == 'd');
    assert(!eq_ascii_ci(raw, "activate"@));
    assert(!eq_ascii_ci(raw, "list/actions"@));
    assert(!eq_ascii_ci(raw, "list/keybinds"@));
    assert(!eq_ascii_ci(raw, "list/all"@));
    assert(raw.subrange(0, 10) =~= p);
    assert(raw.subrange(10, raw.len() as int) =~= name);
    assert(ci_prefix_rest(raw, d) == Some(name));
}

/// Each direction alias after `direction/`, in any ASCII case, applies its
/// own action: left, right, top and bottom give the half on that side;
/// next and previous (or prev) give the next and previous screen; the
/// `-screen` aliases give the screen on that side.
pub proof fn law_direction_aliases(p: Seq<char>, name: Seq<char>)
    requires
        eq_ascii_ci(p, "direction/"@),
    ensures
        eq_ascii_ci(name, "left"@) ==> command_of(p + name) == Ok::<LoopCommand, Seq<char>>(
            LoopCommand::Apply(WindowAction::LeftHalf),
        ),
        eq_ascii_ci(name, "right"@) ==> command_of(p + name) == Ok::<LoopCommand, Seq<char>>(
            LoopCommand::Apply(WindowAction::RightHalf),
        ),
        eq_ascii_ci(name, "top"@) ==> command_of(p + name) == Ok::<LoopCommand, Seq<char>>(
            LoopCommand::Apply(WindowAction::TopHalf),
        ),
        eq_ascii_ci(name, "bottom"@) ==> command_of(p + name) == Ok::<LoopCommand, Seq<char>>(
            LoopCommand::Apply(WindowAction::BottomHalf),
        ),
        eq_ascii_ci(name, "next"@) ==> command_of(p + name) == Ok::<LoopCommand, Seq<char>>(
            LoopCommand::Apply(WindowAction::NextScreen),
        ),
        eq_ascii_ci(name, "previous"@) || eq_ascii_ci(name, "prev"@) ==> command_of(p + name)
            == Ok::<LoopCommand, Seq<char>>(LoopCommand::Apply(WindowAction::PreviousScreen)),
        eq_ascii_ci(name, "left-screen"@) ==> command_of(p + name) == Ok::<LoopCommand, Seq<char>>(
            LoopCommand::Apply(WindowAction::LeftScreen),
        ),
        eq_ascii_ci(name, "right-screen"@) ==> command_of(p + name) == Ok::<
            LoopCommand,
            Seq<char>,
        >(LoopCommand::Apply(WindowAction::RightScreen)),
        eq_ascii_ci(name, "top-screen"@) ==> command_of(p + name) == Ok::<LoopCommand, Seq<char>>(
            LoopCommand::Apply(WindowAction::TopScreen),
        ),
        eq_ascii_ci(name, "bottom-screen"@) ==> command_of(p + name) == Ok::<
            LoopCommand,
            Seq<char>,
        >(LoopCommand::Apply(WindowAction::BottomScreen)),
{
    lemma_literals_plain();
    reveal_strlit("left");
    reveal_strlit("right");
    reveal_strlit("top");
    reveal_strlit("bottom");
    reveal_strlit("next");
    reveal_strlit("previous");
    reveal_strlit("prev");
    reveal_strlit("left-screen");
    reveal_strlit("right-screen");
    reveal_strlit("top-screen");
    reveal_strlit("bottom-screen");
    let l = crate::text::ascii_lower_seq(name);
    if eq_ascii_ci(name, "left"@) {
        lemma_alias_command(p, name, "left"@);
    }
    if eq_ascii_ci(name, "right"@) {
        lemma_alias_command(p, name, "right"@);
    }
    if eq_ascii_ci(name, "top"@) {
        lemma_alias_command(p, name, "top"@);
    }
    if eq_ascii_ci(name, "bottom"@) {
        lemma_alias_command(p, name, "bottom"@);
    }
    if eq_ascii_ci(name, "next"@) {
        lemma_alias_command(p, name, "next"@);
        assert(l[0] == 'n');
    }
    if eq_ascii_ci(name, "previous"@) {
        lemma_alias_command(p, name, "previous"@);
    }
    if eq_ascii_ci(name, "prev"@) {
        lemma_alias_command(p, name, "prev"@);
        assert(l[0] == 'p');
    }
    if eq_ascii_ci(name, "left-screen"@) {
        lemma_alias_command(p, name, "left-screen"@);
    }
    if eq_ascii_ci(name, "right-screen"@) {
        lemma_alias_command(p, name, "right-screen"@);
    }
    if eq_ascii_ci(name, "top-screen"@) {
        lemma_alias_command(p, name, "top-screen"@);
    }
    if eq_ascii_ci(name, "bottom-screen"@) {
        lemma_alias_command(p, name, "bottom-screen"@);
    }
}

proof fn lemma_plain_token(t: Seq<char>, lit: Seq<char>)
    requires
        eq_ascii_ci(t, lit),
        crate::text::ascii_lower_seq(lit) == lit,
        lit.len() > 0,
        forall|i: int| 0 <= i < lit.len() ==> !is_space(#[trigger] lit[i]),
    ensures
        command_of(t) == command_of_token(t),
{
    let low = crate::text::ascii_lower_seq(t);
    assert forall|i: int| 0 <= i < t.len() implies !is_space(#[trigger] t[i]) by {
        assert(crate::text::ascii_lower(t[i]) == low[i]);
        assert(!is_space(low[i]));
    }
    assert(!is_space(t[0]));
    assert(!is_space(t.last()));
    assert(crate::text::lead_space(t) == 0);
    assert(crate::text::trail_space(t) == 0);
    assert(trimmed(t) =~= t);
    assert(!all_space(t));
    assert(!has_space(t));
}

/// The fixed commands, in any ASCII case: `activate` activates, and
/// `list/actions`, `list/keybinds` and `list/all` list what they name.
pub proof fn law_fixed_commands(t: Seq<char>)
    ensures
        eq_ascii_ci(t, "activate"@) ==> command_of(t) == Ok::<LoopCommand, Seq<char>>(
            LoopCommand::Activate,
        ),
        eq_ascii_ci(t, "list/actions"@) ==> command_of(t) == Ok::<LoopCommand, Seq<char>>(
            LoopCommand::ListActions,
        ),
        eq_ascii_ci(t, "list/keybinds"@) ==> command_of(t) == Ok::<LoopCommand, Seq<char>>(
            LoopCommand::ListKeybinds,
        ),
        eq_ascii_ci(t, "list/all"@) ==> command_of(t) == Ok::<LoopCommand, Seq<char>>(
            LoopCommand::ListAll,
        ),
{
    lemma_literals_plain();
    reveal_strlit("activate");
    reveal_strlit("list/actions");
    reveal_strlit("list/keybinds");
    reveal_strlit("list/all");
    let low = crate::text::ascii_lower_seq(t);
    if eq_ascii_ci(t, "activate"@) {
        lemma_plain_token(t, "activate"@);
    }
    if eq_ascii_ci(t, "list/actions"@) {
        lemma_plain_token(t, "list/actions"@);
    }
    if eq_ascii_ci(t, "list/keybinds"@) {
        lemma_plain_token(t, "list/keybinds"@);
    }
    if eq_ascii_ci(t, "list/all"@) {
        lemma_plain_token(t, "list/all"@);
        assert(low[0] == 'l');
    }
}

} // verus!
