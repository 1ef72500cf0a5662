//! The settings window's radial-target choice strings and keybind
//! conflicts.
//!
//! A wedge or the center is offered as `"No action"`, `"Action: <name>"`
//! or `"Keybind: <id> (<hotkey>)"`; picking a string maps back to a target.

use vstd::prelude::*;
use crate::engine::actions::{WindowAction, action_with_number, display_name_of};
use crate::engine::hotkey::{TriggerModifierSide, hotkey_name_of, push_hotkey_name};
use crate::engine::radial_targets::{
    RadialTargetKind, RadialTargetSettings, TargetView, action_target, none_target,
};
use crate::settings::model::{AppSettings, Keybind};
use crate::text::{chars_of, push_str, string_of, text_eq, texts};

verus! {

/// `i` is the first keybind whose id is `id`.
pub open spec fn first_with_id(ks: Seq<Keybind>, id: Seq<char>, i: int) -> bool {
    &&& 0 <= i < ks.len()
    &&& ks[i].id@ == id
    &&& forall|j: int| 0 <= j < i ==> (#[trigger] ks[j]).id@ != id
}

/// No keybind has the id `id`.
pub open spec fn no_keybind_with_id(ks: Seq<Keybind>, id: Seq<char>) -> bool {
    forall|j: int| 0 <= j < ks.len() ==> (#[trigger] ks[j]).id@ != id
}

/// The first keybind with a given id.
pub fn find_keybind(keybinds: &[Keybind], id: &str) -> (r: Option<usize>)
    ensures
        match r {
            Some(i) => first_with_id(keybinds@, id@, i as int),
            None => no_keybind_with_id(keybinds@, id@),
        },
{
    let mut i: usize = 0;
    while i < keybinds.len()
        invariant
            i <= keybinds.len(),
            forall|j: int| 0 <= j < i ==> (#[trigger] keybinds@[j]).id@ != id@,
        decreases keybinds.len() - i,
    {
        if text_eq(keybinds[i].id.as_str(), id) {
            return Some(i);
        }
        i = i + 1;
    }
    None
}

/// `n` numbers the first action (in catalog order) named `name`.
pub open spec fn first_action_named(name: Seq<char>, n: nat) -> bool {
    &&& n < 71
    &&& display_name_of(action_with_number(n)) == name
    &&& forall|m: nat| m < n ==> display_name_of(#[trigger] action_with_number(m)) != name
}

/// No action is named `name`.
pub open spec fn no_action_named(name: Seq<char>) -> bool {
    forall|m: nat| m < 71 ==> display_name_of(#[trigger] action_with_number(m)) != name
}

/// The first action, in catalog order, whose display name is `name`.
pub fn action_named(name: &str) -> (r: Option<WindowAction>)
    ensures
        match r {
            Some(a) => exists|n: nat| first_action_named(name@, n) && a == action_with_number(n),
            None => no_action_named(name@),
        },
{
    let mut d: u8 = 0;
    while d < 71
        invariant
            d <= 71,
            forall|m: nat| m < d ==> display_name_of(#[trigger] action_with_number(m)) != name@,
        decreases 71 - d,
    {
        let a = match WindowAction::from_discriminant(d) {
            Some(a) => a,
            None => {
                return None;
            },
        };
        if text_eq(a.display_name(), name) {
            assert(first_action_named(name@, d as nat));
            return Some(a);
        }
        d = d + 1;
    }
    None
}

/// The text after `prefix`, when `s` starts with it.
pub open spec fn after_prefix(s: Seq<char>, prefix: Seq<char>) -> Option<Seq<char>> {
    if s.len() >= prefix.len() && s.take(prefix.len() as int) == prefix {
        Some(s.skip(prefix.len() as int))
    } else {
        None
    }
}

fn strip_prefix(s: &Vec<char>, prefix: &str) -> (r: Option<Vec<char>>)
    ensures
        match r {
            Some(rest) => after_prefix(s@, prefix@) == Some(rest@),
            None => after_prefix(s@, prefix@) is None,
        },
{
    let p = chars_of(prefix);
    if s.len() < p.len() {
        return None;
    }
    let mut i: usize = 0;
    while i < p.len()
        invariant
            p@ == prefix@,
            p.len() <= s.len(),
            i <= p.len(),
            forall|j: int| 0 <= j < i ==> s@[j] == p@[j],
        decreases p.len() - i,
    {
        if s[i] != p[i] {
            assert(s@.take(p.len() as int)[i as int] != p@[i as int]);
            return None;
        }
        i = i + 1;
    }
    assert(s@.take(p.len() as int) =~= p@);
    let mut rest: Vec<char> = Vec::new();
    let mut k: usize = p.len();
    while k < s.len()
        invariant
            p.len() <= k <= s.len(),
            rest@ == s@.subrange(p.len() as int, k as int),
        decreases s.len() - k,
    {
        rest.push(s[k]);
        k = k + 1;
    }
    assert(rest@ =~= s@.skip(p.len() as int));
    Some(rest)
}

/// The text before the first `" ("` (all of it when there is none).
pub open spec fn before_paren(s: Seq<char>) -> Seq<char>
    decreases s.len(),
{
    if s.len() < 2 {
        s
    } else if s[0] == ' ' && s[1] == '(' {
        Seq::empty()
    } else {
        seq![s[0]] + before_paren(s.drop_first())
    }
}

fn before_paren_of(s: &Vec<char>) -> (r: Vec<char>)
    ensures
        r@ == before_paren(s@),
{
    let n = s.len();
    let mut r: Vec<char> = Vec::new();
    let mut k: usize = 0;
    assert(s@.subrange(0, n as int) =~= s@);
    while k < n && !(k + 1 < n && s[k] == ' ' && s[k + 1] == '(')
        invariant
            n == s.len(),
            k <= n,
            r@ == s@.subrange(0, k as int),
            before_paren(s@) == r@ + before_paren(s@.subrange(k as int, n as int)),
        decreases n - k,
    {
        let ghost rest = s@.subrange(k as int, n as int);
        assert(rest.drop_first() =~= s@.subrange(k + 1, n as int));
        r.push(s[k]);
        k = k + 1;
        assert(before_paren(s@) =~= r@ + before_paren(s@.subrange(k as int, n as int)));
    }
    if k < n {
        assert(before_paren(s@.subrange(k as int, n as int)) =~= Seq::<char>::empty());
    } else {
        assert(before_paren(s@.subrange(k as int, n as int)) =~= Seq::<char>::empty());
    }
    assert(before_paren(s@) =~= r@);
    r
}

/// The target a choice string selects: `"No action"` and anything
/// unrecognised select nothing; `"Action: <name>"` the first action with
/// that name; `"Keybind: <id> (...)"` the first keybind with that id,
/// taking its action and cycle flag.
pub open spec fn target_from_choice(keybinds: Seq<Keybind>, choice: Seq<char>) -> TargetView {
    if choice == "No action"@ {
        none_target()
    } else {
        let by_action = match after_prefix(choice, "Action: "@) {
            Some(name) => if exists|n: nat| first_action_named(name, n) {
                Some(action_target(action_with_number(choose|n: nat| first_action_named(name, n))))
            } else {
                None
            },
            None => None,
        };
        match by_action {
            Some(t) => t,
            None => match after_prefix(choice, "Keybind: "@) {
                Some(rest) => if exists|i: int| first_with_id(keybinds, before_paren(rest), i) {
                    let i = choose|i: int| first_with_id(keybinds, before_paren(rest), i);
                    (
                        RadialTargetKind::Keybind,
                        keybinds[i].action,
                        keybinds[i].id@,
                        keybinds[i].cycle_enabled,
                    )
                } else {
                    none_target()
                },
                None => none_target(),
            },
        }
    }
}

pub(crate) proof fn lemma_first_action_unique(name: Seq<char>, n: nat, m: nat)
    requires
        first_action_named(name, n),
        first_action_named(name, m),
    ensures
        n == m,
{
    if n < m {
        assert(display_name_of(action_with_number(n)) != name);
    } else if m < n {
        assert(display_name_of(action_with_number(m)) != name);
    }
}

pub(crate) proof fn lemma_first_id_unique(ks: Seq<Keybind>, id: Seq<char>, i: int, j: int)
    requires
        first_with_id(ks, id, i),
        first_with_id(ks, id, j),
    ensures
        i == j,
{
    if i < j {
        assert(ks[i].id@ != id);
    } else if j < i {
        assert(ks[j].id@ != id);
    }
}

/// Map a choice string back to a radial target (see [`target_from_choice`]).
pub fn radial_target_from_choice(settings: &AppSettings, choice: &str) -> (t: RadialTargetSettings)
    ensures
        t@ == target_from_choice(settings.keybinds@, choice@),
{
    if text_eq(choice, "No action") {
        return RadialTargetSettings::none();
    }
    let c = chars_of(choice);
    if let Some(name) = strip_prefix(&c, "Action: ") {
        let name_s = string_of(name.as_slice());
        if let Some(action) = action_named(name_s.as_str()) {
            proof {
                let n = choose|n: nat| first_action_named(name@, n) && action == action_with_number(n);
                let m = choose|m: nat| first_action_named(name@, m);
                lemma_first_action_unique(name@, n, m);
            }
            return RadialTargetSettings::action(action);
        }
    }
    if let Some(rest) = strip_prefix(&c, "Keybind: ") {
        let id_chars = before_paren_of(&rest);
        let id = string_of(id_chars.as_slice());
        if let Some(i) = find_keybind(settings.keybinds.as_slice(), id.as_str()) {
            let bind = &settings.keybinds[i];
            proof {
                let j = choose|j: int| first_with_id(settings.keybinds@, before_paren(rest@), j);
                lemma_first_id_unique(settings.keybinds@, before_paren(rest@), i as int, j);
            }
            return RadialTargetSettings {
                kind: RadialTargetKind::Keybind,
                action: bind.action,
                keybind_id: bind.id.clone(),
                cycle_enabled: bind.cycle_enabled,
            };
        }
    }
    RadialTargetSettings::none()
}

/// `"Keybind: <id> (<hotkey>)"` for a keybind.
pub open spec fn keybind_choice(k: Keybind) -> Seq<char> {
    "Keybind: "@ + k.id@ + " ("@ + hotkey_name_of(k.modifiers, k.vk, TriggerModifierSide::Any)
        + ")"@
}

/// `"Action: <name>"` for an action.
pub open spec fn action_choice(a: WindowAction) -> Seq<char> {
    "Action: "@ + display_name_of(a)
}

fn keybind_choice_text(k: &Keybind) -> (s: String)
    ensures
        s@ == keybind_choice(*k),
{
    let mut out: Vec<char> = Vec::new();
    push_str(&mut out, "Keybind: ");
    push_str(&mut out, k.id.as_str());
    push_str(&mut out, " (");
    push_hotkey_name(&mut out, k.modifiers, k.vk, TriggerModifierSide::Any);
    push_str(&mut out, ")");
    assert(out@ =~= keybind_choice(*k));
    string_of(out.as_slice())
}

fn action_choice_text(a: WindowAction) -> (s: String)
    ensures
        s@ == action_choice(a),
{
    let mut out: Vec<char> = Vec::new();
    push_str(&mut out, "Action: ");
    push_str(&mut out, a.display_name());
    string_of(out.as_slice())
}

/// The choice string showing a target: a keybind target whose keybind is
/// gone, like an absent target, shows as `"No action"`.
pub open spec fn choice_of(keybinds: Seq<Keybind>, target: Option<TargetView>) -> Seq<char> {
    match target {
        None => "No action"@,
        Some(t) => match t.0 {
            RadialTargetKind::Nothing => "No action"@,
            RadialTargetKind::Action => action_choice(t.1),
            RadialTargetKind::Keybind => if exists|i: int| first_with_id(keybinds, t.2, i) {
                keybind_choice(keybinds[choose|i: int| first_with_id(keybinds, t.2, i)])
            } else {
                "No action"@
            },
        },
    }
}

pub(crate) proof fn lemma_no_first_id(ks: Seq<Keybind>, id: Seq<char>)
    requires
        no_keybind_with_id(ks, id),
    ensures
        !exists|i: int| first_with_id(ks, id, i),
{
    if exists|i: int| first_with_id(ks, id, i) {
        let i = choose|i: int| first_with_id(ks, id, i);
        assert(ks[i].id@ == id);
    }
}

proof fn lemma_choice_of_keybind(ks: Seq<Keybind>, t: TargetView, i: int)
    requires
        t.0 == RadialTargetKind::Keybind,
        first_with_id(ks, t.2, i),
    ensures
        choice_of(ks, Some(t)) == keybind_choice(ks[i]),
{
    let j = choose|j: int| first_with_id(ks, t.2, j);
    lemma_first_id_unique(ks, t.2, i, j);
}

/// The choice string that shows `target` in a pick list.
pub fn target_choice(settings: &AppSettings, target: Option<&RadialTargetSettings>) -> (s: String)
    ensures
        s@ == choice_of(
            settings.keybinds@,
            match target {
                Some(t) => Some(t@),
                None => None,
            },
        ),
{
    let ghost given = match target {
        Some(t) => Some(t@),
        None => None,
    };
    let tg = match target {
        Some(t) => t,
        None => {
            return crate::text::owned("No action");
        },
    };
    let shown = match tg.kind {
        RadialTargetKind::Nothing => crate::text::owned("No action"),
        RadialTargetKind::Action => action_choice_text(tg.action),
        RadialTargetKind::Keybind => {
            match find_keybind(settings.keybinds.as_slice(), tg.keybind_id.as_str()) {
                Some(i) => {
                    proof {
                        lemma_choice_of_keybind(settings.keybinds@, tg@, i as int);
                    }
                    keybind_choice_text(&settings.keybinds[i])
                },
                None => {
                    proof {
                        lemma_no_first_id(settings.keybinds@, tg.keybind_id@);
                    }
                    crate::text::owned("No action")
                },
            }
        },
    };
    assert(shown@ == choice_of(settings.keybinds@, given));
    shown
}

/// `"No action"` followed by one `"Action: <name>"` per action, in
/// catalog order.
pub open spec fn action_choice_list() -> Seq<Seq<char>> {
    seq!["No action"@] + Seq::new(71, |n: int| action_choice(action_with_number(n as nat)))
}

/// The choices for a built-in target.
pub fn action_choices() -> (v: Vec<String>)
    ensures
        texts(v@) == action_choice_list(),
{
    let mut v: Vec<String> = Vec::new();
    v.push(crate::text::owned("No action"));
    let mut d: u8 = 0;
    while d < 71
        invariant
            d <= 71,
            v@.len() == d + 1,
            v@[0]@ == "No action"@,
            forall|j: int| 1 <= j <= d ==> (#[trigger] v@[j])@ == action_choice(
                action_with_number((j - 1) as nat),
            ),
        decreases 71 - d,
    {
        match WindowAction::from_discriminant(d) {
            Some(a) => v.push(action_choice_text(a)),
            None => {},
        }
        d = d + 1;
    }
    assert(texts(v@) =~= action_choice_list()) by {
        assert forall|j: int| 0 <= j < texts(v@).len() implies texts(v@)[j]
            == action_choice_list()[j] by {
            assert(texts(v@)[j] == v@[j]@);
        }
    }
    v
}

/// The display name of every action, in catalog order: the choices for a
/// keybind's action.
pub fn action_names() -> (v: Vec<&'static str>)
    ensures
        v@.len() == 71,
        forall|n: int| 0 <= n < 71 ==> (#[trigger] v@[n])@ == display_name_of(
            action_with_number(n as nat),
        ),
{
    let mut v: Vec<&'static str> = Vec::new();
    let mut d: u8 = 0;
    while d < 71
        invariant
            d <= 71,
            v@.len() == d,
            forall|n: int| 0 <= n < d ==> (#[trigger] v@[n])@ == display_name_of(
                action_with_number(n as nat),
            ),
        decreases 71 - d,
    {
        match WindowAction::from_discriminant(d) {
            Some(a) => v.push(a.display_name()),
            None => {},
        }
        d = d + 1;
    }
    v
}

/// Every target choice: the built-in choices, then one per keybind.
pub open spec fn target_choice_list(keybinds: Seq<Keybind>) -> Seq<Seq<char>> {
    action_choice_list() + keybinds.map_values(|k: Keybind| keybind_choice(k))
}

/// The choices offered for a wedge or the center.
pub fn target_choices(settings: &AppSettings) -> (v: Vec<String>)
    ensures
        texts(v@) == target_choice_list(settings.keybinds@),
{
    let mut v = action_choices();
    let ghost base = texts(v@);
    let mut i: usize = 0;
    while i < settings.keybinds.len()
        invariant
            i <= settings.keybinds.len(),
            base == action_choice_list(),
            v@.len() == base.len() + i,
            forall|j: int| 0 <= j < base.len() ==> (#[trigger] v@[j])@ == base[j],
            forall|j: int|
                0 <= j < i ==> (#[trigger] v@[base.len() + j])@ == keybind_choice(
                    settings.keybinds@[j],
                ),
        decreases settings.keybinds.len() - i,
    {
        v.push(keybind_choice_text(&settings.keybinds[i]));
        i = i + 1;
    }
    assert(texts(v@) =~= target_choice_list(settings.keybinds@)) by {
        assert forall|j: int| 0 <= j < texts(v@).len() implies texts(v@)[j]
            == target_choice_list(settings.keybinds@)[j] by {
            assert(texts(v@)[j] == v@[j]@);
            if j >= base.len() {
                let k = j - base.len();
                assert(v@[base.len() + k]@ == keybind_choice(settings.keybinds@[k]));
            }
        }
    }
    v
}

/// The message for a captured combination that would collide: with the
/// trigger itself, or with another keybind (not `skip_id`).
pub open spec fn conflict_of(
    settings: AppSettings,
    skip_id: Seq<char>,
    modifiers: u32,
    vk: u32,
) -> Option<Seq<char>> {
    let label = hotkey_name_of(modifiers, vk, TriggerModifierSide::Any);
    if modifiers == settings.trigger_modifiers && vk == settings.trigger_vk {
        Some(label + " is already the trigger."@)
    } else if exists|i: int|
        0 <= i < settings.keybinds@.len() && (#[trigger] settings.keybinds@[i]).id@ != skip_id
            && settings.keybinds@[i].modifiers == modifiers && settings.keybinds@[i].vk == vk {
        Some(label + " is already used by another keybind."@)
    } else {
        None
    }
}

/// Reject a captured keybind that collides with the trigger or duplicates
/// another row: the colliding bind would be permanently inert or shadowed.
pub fn keybind_conflict(settings: &AppSettings, skip_id: &str, modifiers: u32, vk: u32) -> (r:
    Option<String>)
    ensures
        match r {
            Some(m) => conflict_of(*settings, skip_id@, modifiers, vk) == Some(m@),
            None => conflict_of(*settings, skip_id@, modifiers, vk) is None,
        },
{
    let mut out: Vec<char> = Vec::new();
    push_hotkey_name(&mut out, modifiers, vk, TriggerModifierSide::Any);
    if modifiers == settings.trigger_modifiers && vk == settings.trigger_vk {
        push_str(&mut out, " is already the trigger.");
        return Some(string_of(out.as_slice()));
    }
    let mut i: usize = 0;
    while i < settings.keybinds.len()
        invariant
            i <= settings.keybinds.len(),
            out@ == hotkey_name_of(modifiers, vk, TriggerModifierSide::Any),
            !(modifiers == settings.trigger_modifiers && vk == settings.trigger_vk),
            forall|j: int|
                0 <= j < i ==> !((#[trigger] settings.keybinds@[j]).id@ != skip_id@
                    && settings.keybinds@[j].modifiers == modifiers && settings.keybinds@[j].vk
                    == vk),
        decreases settings.keybinds.len() - i,
    {
        let other = &settings.keybinds[i];
        if !text_eq(other.id.as_str(), skip_id) && other.modifiers == modifiers && other.vk == vk {
            assert(settings.keybinds@[i as int].id@ != skip_id@);
            push_str(&mut out, " is already used by another keybind.");
            let m = string_of(out.as_slice());
            assert(exists|j: int|
                0 <= j < settings.keybinds@.len() && (#[trigger] settings.keybinds@[j]).id@ != skip_id@
                    && settings.keybinds@[j].modifiers == modifiers && settings.keybinds@[j].vk == vk);
            assert(conflict_of(*settings, skip_id@, modifiers, vk) == Some(m@));
            return Some(m);
        }
        i = i + 1;
    }
    None
}

/// No `" ("` occurs inside `s`.
pub open spec fn no_paren_break(s: Seq<char>) -> bool {
    forall|i: int| 0 <= i < s.len() - 1 ==> !(#[trigger] s[i] == ' ' && s[i + 1] == '(')
}

proof fn lemma_before_paren_of_choice(id: Seq<char>, rest: Seq<char>)
    requires
        no_paren_break(id),
    ensures
        before_paren(id + " ("@ + rest) == id,
    decreases id.len(),
{
    reveal_strlit(" (");
    let whole = id + " ("@ + rest;
    if id.len() == 0 {
        assert(whole[0] == ' ' && whole[1] == '(');
        assert(whole.len() >= 2);
    } else {
        assert(no_paren_break(id.drop_first())) by {
            assert forall|i: int| 0 <= i < id.drop_first().len() - 1 implies !(
            #[trigger] id.drop_first()[i] == ' ' && id.drop_first()[i + 1] == '(') by {
                assert(id.drop_first()[i] == id[i + 1]);
                assert(id.drop_first()[i + 1] == id[i + 2]);
            }
        }
        lemma_before_paren_of_choice(id.drop_first(), rest);
        assert(whole.drop_first() =~= id.drop_first() + " ("@ + rest);
        assert(whole.len() >= 2);
        if id.len() == 1 {
            assert(whole[1] == ' ');
        } else {
            assert(whole[0] == id[0] && whole[1] == id[1]);
            assert(!(id[0] == ' ' && id[1] == '('));
        }
        assert(seq![whole[0]] + id.drop_first() =~= id);
    }
}

/// Choosing `"No action"` selects the empty target.
pub proof fn law_no_action_choice(keybinds: Seq<Keybind>)
    ensures
        target_from_choice(keybinds, "No action"@) == none_target(),
{
}

/// An action's choice string selects that action: display names are
/// unique, so the first action with the name is the action itself.
pub proof fn law_action_choice_round_trip(keybinds: Seq<Keybind>, a: WindowAction)
    ensures
        target_from_choice(keybinds, action_choice(a)) == action_target(a),
{
    reveal_strlit("Action: ");
    reveal_strlit("No action");
    let name = display_name_of(a);
    let c = action_choice(a);
    assert(c[0] != "No action"@[0]);
    assert(c.take(8) =~= "Action: "@);
    assert(c.skip(8) =~= name);
    let n = crate::engine::actions::action_number(a);
    crate::engine::actions::law_numbering_is_bijective(a, n);
    assert forall|m: nat| m < n implies display_name_of(#[trigger] action_with_number(m)) != name by {
        crate::engine::actions::law_numbering_is_bijective(action_with_number(m), m);
        crate::engine::action_names::law_display_names_are_distinct(action_with_number(m), a);
    }
    assert(first_action_named(name, n));
    let k = choose|k: nat| first_action_named(name, k);
    lemma_first_action_unique(name, n, k);
}

/// A keybind's choice string selects that keybind, when it is the first
/// with its id and the id holds no `" ("`.
pub proof fn law_keybind_choice_round_trip(keybinds: Seq<Keybind>, i: int)
    requires
        first_with_id(keybinds, keybinds[i].id@, i),
        no_paren_break(keybinds[i].id@),
    ensures
        target_from_choice(keybinds, keybind_choice(keybinds[i])) == (
            RadialTargetKind::Keybind,
            keybinds[i].action,
            keybinds[i].id@,
            keybinds[i].cycle_enabled,
        ),
{
    reveal_strlit("Keybind: ");
    reveal_strlit("Action: ");
    reveal_strlit("No action");
    let k = keybinds[i];
    let c = keybind_choice(k);
    let tail = hotkey_name_of(k.modifiers, k.vk, TriggerModifierSide::Any) + ")"@;
    assert(c =~= "Keybind: "@ + (k.id@ + " ("@ + tail));
    assert(c[0] != "No action"@[0]);
    assert(c[0] != "Action: "@[0]);
    assert(!(c.len() >= 8 && c.take(8) == "Action: "@)) by {
        if c.len() >= 8 && c.take(8) == "Action: "@ {
            assert(c.take(8)[0] == c[0]);
        }
    }
    assert(c.take(9) =~= "Keybind: "@);
    assert(c.skip(9) =~= k.id@ + " ("@ + tail);
    lemma_before_paren_of_choice(k.id@, tail);
    let j = choose|j: int| first_with_id(keybinds, before_paren(c.skip(9)), j);
    lemma_first_id_unique(keybinds, k.id@, i, j);
}

} // verus!
