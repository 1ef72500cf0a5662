//! Window identity matching for safe stash restore.
//!
//! The executable path anchors a match; two additional hints (process id,
//! window class, title) are required so a reused window handle or a generic
//! title can never restore an unrelated window on its own.

use vstd::prelude::*;
use super::stash::StashRecord;
use crate::text::{all_space, chars_of, eq_ascii_ci, eq_ignore_ascii_case, is_blank};

verus! {

/// Runtime identity of a candidate window.
#[derive(Debug, Clone, PartialEq, Eq)]
pub struct WindowIdentity {
    pub executable_path: String,
    pub process_id: u32,
    pub window_class: String,
    pub title: String,
}

/// Number of identity hints that agree: process id (non-zero), window class
/// (non-blank, ASCII case-insensitive), title (non-empty, exact).
pub open spec fn hint_count(record: StashRecord, c: WindowIdentity) -> int {
    (if record.process_id != 0 && record.process_id == c.process_id { 1int } else { 0int }) + (if !all_space(
        record.window_class@,
    ) && eq_ascii_ci(record.window_class@, c.window_class@) {
        1int
    } else {
        0int
    }) + (if record.title@.len() > 0 && record.title@ == c.title@ {
        1int
    } else {
        0int
    })
}

/// A candidate matches a record: same (non-blank) executable path up to
/// ASCII case, and at least two agreeing hints.
pub open spec fn identity_matches(record: StashRecord, c: WindowIdentity) -> bool {
    &&& !all_space(record.executable_path@)
    &&& eq_ascii_ci(record.executable_path@, c.executable_path@)
    &&& hint_count(record, c) >= 2
}

/// The candidate is the very window recorded: same non-zero process id,
/// same executable path and same non-blank window class (ASCII case
/// ignored).
pub open spec fn same_runtime_window(record: StashRecord, c: WindowIdentity) -> bool {
    &&& record.process_id != 0
    &&& record.process_id == c.process_id
    &&& eq_ascii_ci(record.executable_path@, c.executable_path@)
    &&& !all_space(record.window_class@)
    &&& eq_ascii_ci(record.window_class@, c.window_class@)
}

fn ci_eq(a: &String, b: &String) -> (r: bool)
    ensures
        r == eq_ascii_ci(a@, b@),
{
    let x = chars_of(a.as_str());
    let y = chars_of(b.as_str());
    eq_ignore_ascii_case(x.as_slice(), y.as_slice())
}

fn blank(a: &String) -> (r: bool)
    ensures
        r == all_space(a@),
{
    let x = chars_of(a.as_str());
    is_blank(x.as_slice())
}

pub fn is_match(record: &StashRecord, candidate: &WindowIdentity) -> (b: bool)
    ensures
        b == identity_matches(*record, *candidate),
{
    if blank(&record.executable_path) || !ci_eq(
        &record.executable_path,
        &candidate.executable_path,
    ) {
        return false;
    }
    let mut hints: u32 = 0;
    if record.process_id != 0 && record.process_id == candidate.process_id {
        hints = hints + 1;
    }
    if !blank(&record.window_class) && ci_eq(&record.window_class, &candidate.window_class) {
        hints = hints + 1;
    }
    if record.title.as_str().unicode_len() != 0 && record.title == candidate.title {
        hints = hints + 1;
    }
    hints >= 2
}

pub fn is_same_runtime_window(record: &StashRecord, candidate: &WindowIdentity) -> (b: bool)
    ensures
        b == same_runtime_window(*record, *candidate),
{
    if record.process_id == 0 || record.process_id != candidate.process_id || !ci_eq(
        &record.executable_path,
        &candidate.executable_path,
    ) {
        return false;
    }
    !blank(&record.window_class) && ci_eq(&record.window_class, &candidate.window_class)
}

/// Candidate `i` is the only one matching the record.
pub open spec fn sole_match<T>(record: StashRecord, cands: Seq<(T, WindowIdentity)>, i: int) -> bool {
    &&& 0 <= i < cands.len()
    &&& identity_matches(record, cands[i].1)
    &&& forall|j: int|
        0 <= j < cands.len() && j != i ==> !identity_matches(record, (#[trigger] cands[j]).1)
}

/// Find the single unambiguous match, if exactly one candidate matches.
pub fn find_unambiguous_match<T: Clone>(record: &StashRecord, candidates: &[(T, WindowIdentity)]) -> (r:
    Option<T>)
    ensures
        match r {
            Some(v) => exists|i: int|
                sole_match(*record, candidates@, i) && cloned(#[trigger] candidates@[i].0, v),
            None => forall|i: int| !sole_match(*record, candidates@, i),
        },
{
    let mut found: Option<T> = None;
    let ghost mut found_i: int = -1;
    let mut n: usize = 0;
    while n < candidates.len()
        invariant
            n <= candidates.len(),
            -1 <= found_i < n,
            found is None <==> found_i == -1,
            found_i == -1 ==> forall|j: int|
                0 <= j < n ==> !identity_matches(*record, (#[trigger] candidates@[j]).1),
            found_i >= 0 ==> {
                &&& identity_matches(*record, candidates@[found_i].1)
                &&& cloned(candidates@[found_i].0, found->0)
                &&& forall|j: int|
                    0 <= j < n && j != found_i ==> !identity_matches(
                        *record,
                        (#[trigger] candidates@[j]).1,
                    )
            },
        decreases candidates.len() - n,
    {
        let (value, identity) = &candidates[n];
        if !is_match(record, identity) {
            n = n + 1;
            continue;
        }
        if found.is_some() {
            proof {
                assert forall|i: int| !sole_match(*record, candidates@, i) by {
                    if 0 <= i < candidates@.len() && identity_matches(*record, candidates@[i].1) {
                        if i != found_i {
                            assert(identity_matches(*record, candidates@[found_i].1));
                        } else {
                            assert(identity_matches(*record, candidates@[n as int].1));
                        }
                    }
                }
            }
            return None;
        }
        found = Some(value.clone());
        proof {
            found_i = n as int;
        }
        n = n + 1;
    }
    proof {
        if found_i >= 0 {
            assert(sole_match(*record, candidates@, found_i));
        } else {
            assert forall|i: int| !sole_match(*record, candidates@, i) by {}
        }
    }
    found
}

/// A match needs the executable path plus two more hints: a path alone, or
/// a path with one hint, never matches.
pub proof fn law_match_needs_two_hints(record: StashRecord, c: WindowIdentity)
    ensures
        identity_matches(record, c) ==> hint_count(record, c) >= 2,
        identity_matches(record, c) ==> eq_ascii_ci(record.executable_path@, c.executable_path@),
        hint_count(record, c) <= 1 ==> !identity_matches(record, c),
{
}

} // verus!
