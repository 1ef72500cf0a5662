//! Repair of record ids: every id ends up non-blank and unique, and an id
//! that already was both is kept.

use vstd::prelude::*;
use crate::settings::model::{is_generated_id, is_lower_hex, lemma_generated_id_not_blank, new_id};
use crate::text::{all_space, chars_of, contains_text, is_blank, string_of, texts};

verus! {

/// The id at one position is kept when it is non-blank and not taken by
/// an earlier (already repaired) id.
pub open spec fn id_kept(id: Seq<char>, earlier: Seq<Seq<char>>) -> bool {
    !all_space(id) && !earlier.contains(id)
}

/// One repair step: a keepable id is kept, any other is replaced by a
/// non-blank id that no earlier id uses.
pub open spec fn id_step(old_id: Seq<char>, earlier: Seq<Seq<char>>, new_id: Seq<char>) -> bool {
    if id_kept(old_id, earlier) {
        new_id == old_id
    } else {
        !all_space(new_id) && !earlier.contains(new_id)
    }
}

/// `new` is a repair of `old`, position by position.
pub open spec fn ids_repaired(old: Seq<Seq<char>>, new: Seq<Seq<char>>) -> bool {
    &&& new.len() == old.len()
    &&& forall|i: int| 0 <= i < new.len() ==> #[trigger] id_step(old[i], new.take(i), new[i])
}

/// Every id is non-blank and no two are equal.
pub open spec fn ids_unique(ids: Seq<Seq<char>>) -> bool {
    &&& forall|i: int| 0 <= i < ids.len() ==> !all_space(#[trigger] ids[i])
    &&& forall|i: int, j: int| 0 <= i < j < ids.len() ==> #[trigger] ids[i] != #[trigger] ids[j]
}

/// A repaired id list holds unique, non-blank ids.
pub proof fn law_repaired_ids_are_unique(old: Seq<Seq<char>>, new: Seq<Seq<char>>)
    requires
        ids_repaired(old, new),
    ensures
        ids_unique(new),
{
    assert forall|i: int| 0 <= i < new.len() implies !all_space(#[trigger] new[i]) by {
        assert(id_step(old[i], new.take(i), new[i]));
    }
    assert forall|i: int, j: int| 0 <= i < j < new.len() implies #[trigger] new[i]
        != #[trigger] new[j] by {
        assert(id_step(old[j], new.take(j), new[j]));
        assert(new.take(j)[i] == new[i]);
        assert(new.take(j).contains(new[i]));
    }
}

/// Repairing ids that are already unique and non-blank changes nothing.
pub proof fn law_unique_ids_are_kept(old: Seq<Seq<char>>, new: Seq<Seq<char>>)
    requires
        ids_unique(old),
        ids_repaired(old, new),
    ensures
        new == old,
{
    assert forall|i: int| 0 <= i < new.len() implies new[i] == old[i] by {
        lemma_prefix_kept(old, new, i);
        assert(new.take(i + 1)[i] == new[i]);
        assert(old.take(i + 1)[i] == old[i]);
    }
    assert(new =~= old);
}

proof fn lemma_prefix_kept(old: Seq<Seq<char>>, new: Seq<Seq<char>>, i: int)
    requires
        ids_unique(old),
        ids_repaired(old, new),
        0 <= i < new.len(),
    ensures
        new.take(i + 1) == old.take(i + 1),
    decreases i,
{
    if i > 0 {
        lemma_prefix_kept(old, new, i - 1);
    }
    assert(new.take(i) =~= old.take(i)) by {
        if i > 0 {
            assert(new.take(i) =~= new.take(i - 1 + 1));
        }
    }
    assert(!old.take(i).contains(old[i])) by {
        if old.take(i).contains(old[i]) {
            let k = choose|k: int| 0 <= k < old.take(i).len() && old.take(i)[k] == old[i];
            assert(old[k] == old[i]);
        }
    }
    assert(id_step(old[i], new.take(i), new[i]));
    assert(new.take(i + 1) =~= old.take(i + 1)) by {
        assert forall|k: int| 0 <= k < i + 1 implies #[trigger] new.take(i + 1)[k] == old.take(i + 1)[k] by {
            if k < i {
                assert(new.take(i)[k] == old.take(i)[k]);
            }
        }
    }
}

/// The largest length among `items`.
fn longest(items: &[String]) -> (m: usize)
    ensures
        forall|j: int| 0 <= j < items@.len() ==> (#[trigger] items@[j])@.len() <= m,
{
    let mut m: usize = 0;
    let mut i: usize = 0;
    while i < items.len()
        invariant
            i <= items.len(),
            forall|j: int| 0 <= j < i ==> (#[trigger] items@[j])@.len() <= m,
        decreases items.len() - i,
    {
        let n = items[i].as_str().unicode_len();
        if n > m {
            m = n;
        }
        i = i + 1;
    }
    m
}

/// Number of fresh random ids drawn before a colliding one is lengthened.
pub const FRESH_ID_DRAWS: usize = 8;

/// A non-blank id that none of `taken` uses: a fresh random id, drawn again
/// while it collides (up to [`FRESH_ID_DRAWS`] times), and in the unlikely
/// case that every draw collided, the last one lengthened with `0` digits
/// past every taken id. Either way it is made of lowercase hexadecimal
/// digits, at least 32 of them.
pub fn fresh_id_avoiding(taken: &[String]) -> (s: String)
    ensures
        !all_space(s@),
        !texts(taken@).contains(s@),
        s@.len() >= 32,
        forall|i: int| 0 <= i < s@.len() ==> is_lower_hex(#[trigger] s@[i]),
        s@.len() == 32 || forall|j: int|
            0 <= j < taken@.len() ==> (#[trigger] taken@[j])@.len() < s@.len(),
{
    let mut fresh = new_id();
    let mut draws: usize = 1;
    while draws < FRESH_ID_DRAWS && contains_text(taken, &fresh)
        invariant
            is_generated_id(fresh@),
            1 <= draws <= FRESH_ID_DRAWS,
        decreases FRESH_ID_DRAWS - draws,
    {
        fresh = new_id();
        draws = draws + 1;
    }
    proof {
        lemma_generated_id_not_blank(fresh@);
    }
    if !contains_text(taken, &fresh) {
        return fresh;
    }
    let m = longest(taken);
    let mut v = chars_of(fresh.as_str());
    assert(is_lower_hex(v@[0]));
    while v.len() <= m
        invariant
            v@.len() >= 32,
            forall|i: int| 0 <= i < v@.len() ==> is_lower_hex(#[trigger] v@[i]),
        decreases m + 1 - v@.len(),
    {
        v.push('0');
    }
    let s = string_of(v.as_slice());
    assert(!crate::text::is_space(s@[0]));
    assert forall|j: int| 0 <= j < texts(taken@).len() implies texts(taken@)[j] != s@ by {
        assert(texts(taken@)[j] == taken@[j]@);
    }
    s
}

/// Repair a list of ids in order (see [`ids_repaired`]).
pub fn repair_ids(ids: &[String]) -> (r: Vec<String>)
    ensures
        ids_repaired(texts(ids@), texts(r@)),
{
    let mut out: Vec<String> = Vec::new();
    let mut i: usize = 0;
    while i < ids.len()
        invariant
            i <= ids.len(),
            out@.len() == i,
            forall|j: int|
                0 <= j < i ==> #[trigger] id_step(
                    texts(ids@)[j],
                    texts(out@).take(j),
                    texts(out@)[j],
                ),
        decreases ids.len() - i,
    {
        let ghost before = texts(out@);
        let chars = chars_of(ids[i].as_str());
        let keep = !is_blank(chars.as_slice()) && !contains_text(out.as_slice(), &ids[i]);
        let next = if keep {
            ids[i].clone()
        } else {
            fresh_id_avoiding(out.as_slice())
        };
        out.push(next);
        proof {
            let after = texts(out@);
            assert(after.take(i as int) =~= before);
            assert forall|j: int| 0 <= j < i + 1 implies #[trigger] id_step(
                texts(ids@)[j],
                after.take(j),
                after[j],
            ) by {
                if j < i {
                    assert(after.take(j) =~= before.take(j));
                    assert(after[j] == before[j]);
                } else {
                    assert(texts(ids@)[j] == ids@[j]@);
                }
            }
        }
        i = i + 1;
    }
    out
}

} // verus!
