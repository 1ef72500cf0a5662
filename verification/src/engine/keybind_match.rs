//! Pure keybind matching: first list entry wins, exact modifiers.

use vstd::prelude::*;

verus! {

/// Minimal keybind view for matching.
#[derive(Debug, Clone, Copy, PartialEq, Eq, Structural)]
pub struct MatchEntry {
    pub vk: u32,
    pub modifiers: u32,
    pub bypass_trigger: bool,
}

/// An entry fires for a key event: same key, exactly the same modifiers, a
/// bypass kind matching the trigger state, and not the trigger key itself.
pub open spec fn entry_fires(e: MatchEntry, vk: u32, modifiers: u32, trigger_vk: u32, trigger_held: bool) -> bool {
    &&& e.vk == vk
    &&& e.vk != trigger_vk
    &&& e.modifiers == modifiers
    &&& e.bypass_trigger == !trigger_held
}

/// First index whose entry fires, or `None` when nothing matches.
pub fn match_keybind(
    entries: &[MatchEntry],
    vk: u32,
    modifiers: u32,
    trigger_vk: u32,
    trigger_held: bool,
) -> (r: Option<usize>)
    ensures
        match r {
            Some(i) => {
                &&& i < entries@.len()
                &&& entry_fires(entries@[i as int], vk, modifiers, trigger_vk, trigger_held)
                &&& forall|j: int|
                    0 <= j < i ==> !entry_fires(
                        #[trigger] entries@[j],
                        vk,
                        modifiers,
                        trigger_vk,
                        trigger_held,
                    )
            },
            None => forall|j: int|
                0 <= j < entries@.len() ==> !entry_fires(
                    #[trigger] entries@[j],
                    vk,
                    modifiers,
                    trigger_vk,
                    trigger_held,
                ),
        },
{
    let mut i: usize = 0;
    while i < entries.len()
        invariant
            i <= entries.len(),
            forall|j: int|
                0 <= j < i ==> !entry_fires(
                    #[trigger] entries@[j],
                    vk,
                    modifiers,
                    trigger_vk,
                    trigger_held,
                ),
        decreases entries.len() - i,
    {
        let e = entries[i];
        if e.vk == vk && e.vk != trigger_vk && e.modifiers == modifiers && e.bypass_trigger
            == !trigger_held {
            return Some(i);
        }
        i = i + 1;
    }
    None
}

/// The trigger key itself never fires a keybind, and a keybind fires with
/// the trigger held exactly when it is not a bypass keybind.
pub proof fn law_trigger_gating(e: MatchEntry, vk: u32, modifiers: u32, trigger_vk: u32, held: bool)
    ensures
        vk == trigger_vk ==> !entry_fires(e, vk, modifiers, trigger_vk, held),
        entry_fires(e, vk, modifiers, trigger_vk, held) ==> (held <==> !e.bypass_trigger),
{
}

} // verus!
