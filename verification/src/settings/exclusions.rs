//! Exclusion lists: executable paths and process names, trimmed, emptied
//! entries dropped, and duplicates removed case-insensitively with the
//! first spelling kept.

use vstd::prelude::*;
use crate::text::{chars_of, lemma_trimmed_idempotent, string_of, texts, trim, trimmed};

verus! {

/// What `str::to_lowercase` returns: the full Unicode lowercase mapping.
pub uninterp spec fn lowercase(s: Seq<char>) -> Seq<char>;

/// Lowercase a string.
///
/// Trusted: calls std's `str::to_lowercase`, whose result is a function of
/// the input alone (the Unicode tables of the standard library); the
/// contract names that result and says nothing more about it.
#[verifier::external_body]
fn to_lowercase(s: &str) -> (r: String)
    ensures
        r@ == lowercase(s@),
{
    s.to_lowercase()
}

/// A path separator: `/` or `\`.
pub open spec fn is_path_sep(c: char) -> bool {
    c == '/' || c == '\\'
}

/// The part after the last path separator (the whole string if none).
pub open spec fn file_part(s: Seq<char>) -> Seq<char>
    decreases s.len(),
{
    if s.len() == 0 {
        s
    } else if is_path_sep(s.last()) {
        Seq::empty()
    } else {
        file_part(s.drop_last()).push(s.last())
    }
}

/// The part before the last `.` (the whole string if it has none): the
/// extension is dropped, and only the last one (`my.app.exe` becomes
/// `my.app`, `.exe` becomes empty).
pub open spec fn stem_part(s: Seq<char>) -> Seq<char>
    decreases s.len(),
{
    if s.len() == 0 {
        s
    } else if s.last() == '.' {
        s.drop_last()
    } else if no_dot(s) {
        s
    } else {
        stem_part(s.drop_last())
    }
}

/// A process name as stored: trimmed, directory and extension removed
/// (`C:\Tools\app.exe` becomes `app`, `C:/Games/my.app.exe` becomes
/// `my.app`).
pub open spec fn process_name(s: Seq<char>) -> Seq<char> {
    stem_part(file_part(trimmed(s)))
}

/// The entries that are not empty, in order.
pub open spec fn non_empty(s: Seq<Seq<char>>) -> Seq<Seq<char>>
    decreases s.len(),
{
    if s.len() == 0 {
        s
    } else if s.last().len() == 0 {
        non_empty(s.drop_last())
    } else {
        non_empty(s.drop_last()).push(s.last())
    }
}

/// Each item whose key no earlier item has, in order.
pub open spec fn first_by_key(items: Seq<Seq<char>>, keys: Seq<Seq<char>>) -> Seq<Seq<char>>
    decreases items.len(),
{
    if items.len() == 0 {
        Seq::empty()
    } else {
        let n = items.len() - 1;
        let rest = first_by_key(items.drop_last(), keys.take(n));
        if keys.take(n).contains(keys[n]) {
            rest
        } else {
            rest.push(items[n])
        }
    }
}

/// The lowercase form of each item.
pub open spec fn lowered(s: Seq<Seq<char>>) -> Seq<Seq<char>> {
    s.map_values(|x: Seq<char>| lowercase(x))
}

/// Duplicates removed without regard to case; the first spelling stays.
pub open spec fn dedup_lower(s: Seq<Seq<char>>) -> Seq<Seq<char>> {
    first_by_key(s, lowered(s))
}

/// Stored form of the executable-path list.
pub open spec fn executables_normalized(s: Seq<Seq<char>>) -> Seq<Seq<char>> {
    dedup_lower(non_empty(s.map_values(|x: Seq<char>| trimmed(x))))
}

/// Stored form of the process-name list.
pub open spec fn processes_normalized(s: Seq<Seq<char>>) -> Seq<Seq<char>> {
    dedup_lower(non_empty(s.map_values(|x: Seq<char>| process_name(x))))
}

/// Every entry is non-empty.
pub open spec fn all_non_empty(s: Seq<Seq<char>>) -> bool {
    forall|i: int| 0 <= i < s.len() ==> (#[trigger] s[i]).len() > 0
}

/// No two entries are equal without regard to case.
pub open spec fn distinct_without_case(s: Seq<Seq<char>>) -> bool {
    forall|i: int, j: int|
        0 <= i < j < s.len() ==> lowercase(#[trigger] s[i]) != lowercase(#[trigger] s[j])
}

proof fn lemma_non_empty_clean(s: Seq<Seq<char>>)
    ensures
        all_non_empty(non_empty(s)),
    decreases s.len(),
{
    if s.len() > 0 {
        lemma_non_empty_clean(s.drop_last());
        let r = non_empty(s.drop_last());
        if s.last().len() > 0 {
            assert forall|i: int| 0 <= i < r.push(s.last()).len() implies (#[trigger] r.push(
                s.last(),
            )[i]).len() > 0 by {
                if i < r.len() {
                    assert(r.push(s.last())[i] == r[i]);
                }
            }
        }
    }
}

proof fn lemma_dedup_lower_clean(items: Seq<Seq<char>>)
    ensures
        forall|i: int|
            0 <= i < dedup_lower(items).len() ==> items.contains(#[trigger] dedup_lower(items)[i]),
        distinct_without_case(dedup_lower(items)),
    decreases items.len(),
{
    if items.len() > 0 {
        let n = items.len() - 1;
        let prev = items.drop_last();
        lemma_dedup_lower_clean(prev);
        assert(lowered(items).take(n) =~= lowered(prev));
        assert(items.drop_last() == prev);
        let rest = dedup_lower(prev);
        assert(first_by_key(items.drop_last(), lowered(items).take(n)) == rest);
        assert forall|i: int| 0 <= i < rest.len() implies items.contains(#[trigger] rest[i]) by {
            let k = choose|k: int| 0 <= k < prev.len() && prev[k] == rest[i];
            assert(items[k] == prev[k]);
        }
        if !lowered(items).take(n).contains(lowered(items)[n]) {
            let out = rest.push(items[n]);
            assert(dedup_lower(items) == out);
            assert forall|i: int| 0 <= i < out.len() implies items.contains(#[trigger] out[i]) by {
                if i < rest.len() {
                    assert(out[i] == rest[i]);
                } else {
                    assert(out[i] == items[n]);
                }
            }
            assert forall|i: int, j: int| 0 <= i < j < out.len() implies lowercase(
                #[trigger] out[i],
            ) != lowercase(#[trigger] out[j]) by {
                if j < rest.len() {
                    assert(out[i] == rest[i] && out[j] == rest[j]);
                } else {
                    assert(out[i] == rest[i]);
                    assert(out[j] == items[n]);
                    let k = choose|k: int| 0 <= k < prev.len() && prev[k] == rest[i];
                    assert(lowered(items).take(n)[k] == lowercase(prev[k]));
                    assert(lowered(items)[n] == lowercase(items[n]));
                }
            }
        } else {
            assert(dedup_lower(items) == rest);
        }
    }
}

proof fn lemma_contains_non_empty(items: Seq<Seq<char>>, out: Seq<Seq<char>>)
    requires
        all_non_empty(items),
        forall|i: int| 0 <= i < out.len() ==> items.contains(#[trigger] out[i]),
    ensures
        all_non_empty(out),
{
    assert forall|i: int| 0 <= i < out.len() implies (#[trigger] out[i]).len() > 0 by {
        assert(items.contains(out[i]));
        let k = choose|k: int| 0 <= k < items.len() && items[k] == out[i];
        assert(items[k].len() > 0);
    }
}

/// A normalized exclusion list holds no empty entry and no two entries
/// that differ only in case.
pub proof fn law_exclusions_are_clean(s: Seq<Seq<char>>)
    ensures
        all_non_empty(executables_normalized(s)),
        distinct_without_case(executables_normalized(s)),
        all_non_empty(processes_normalized(s)),
        distinct_without_case(processes_normalized(s)),
{
    let e = non_empty(s.map_values(|x: Seq<char>| trimmed(x)));
    lemma_non_empty_clean(s.map_values(|x: Seq<char>| trimmed(x)));
    lemma_dedup_lower_clean(e);
    lemma_contains_non_empty(e, dedup_lower(e));
    let p = non_empty(s.map_values(|x: Seq<char>| process_name(x)));
    lemma_non_empty_clean(s.map_values(|x: Seq<char>| process_name(x)));
    lemma_dedup_lower_clean(p);
    lemma_contains_non_empty(p, dedup_lower(p));
}

proof fn lemma_non_empty_members(s: Seq<Seq<char>>)
    ensures
        forall|i: int| 0 <= i < non_empty(s).len() ==> s.contains(#[trigger] non_empty(s)[i]),
    decreases s.len(),
{
    if s.len() > 0 {
        let p = s.drop_last();
        lemma_non_empty_members(p);
        let r = non_empty(p);
        assert forall|i: int| 0 <= i < r.len() implies s.contains(#[trigger] r[i]) by {
            let k = choose|k: int| 0 <= k < p.len() && p[k] == r[i];
            assert(s[k] == p[k]);
        }
        if s.last().len() > 0 {
            assert forall|i: int| 0 <= i < r.push(s.last()).len() implies s.contains(
                #[trigger] r.push(s.last())[i],
            ) by {
                if i < r.len() {
                    assert(r.push(s.last())[i] == r[i]);
                } else {
                    assert(s[s.len() - 1] == s.last());
                }
            }
        }
    }
}

proof fn lemma_non_empty_identity(s: Seq<Seq<char>>)
    requires
        all_non_empty(s),
    ensures
        non_empty(s) == s,
    decreases s.len(),
{
    if s.len() > 0 {
        assert(all_non_empty(s.drop_last())) by {
            assert forall|i: int| 0 <= i < s.drop_last().len() implies (#[trigger] s.drop_last()[
                i
            ]).len() > 0 by {
                assert(s.drop_last()[i] == s[i]);
            }
        }
        lemma_non_empty_identity(s.drop_last());
        assert(s[s.len() - 1].len() > 0);
        assert(s.drop_last().push(s.last()) =~= s);
    }
}

proof fn lemma_dedup_identity(s: Seq<Seq<char>>)
    requires
        distinct_without_case(s),
    ensures
        dedup_lower(s) == s,
    decreases s.len(),
{
    if s.len() > 0 {
        let n = s.len() - 1;
        let p = s.drop_last();
        assert(distinct_without_case(p)) by {
            assert forall|i: int, j: int| 0 <= i < j < p.len() implies lowercase(#[trigger] p[i])
                != lowercase(#[trigger] p[j]) by {
                assert(p[i] == s[i] && p[j] == s[j]);
            }
        }
        lemma_dedup_identity(p);
        assert(lowered(s).take(n) =~= lowered(p));
        assert(!lowered(s).take(n).contains(lowered(s)[n])) by {
            if lowered(s).take(n).contains(lowered(s)[n]) {
                let k = choose|k: int| 0 <= k < n && lowered(s).take(n)[k] == lowered(s)[n];
                assert(lowercase(s[k]) == lowercase(s[n]));
            }
        }
        assert(p.push(s[n]) =~= s);
    }
}

proof fn lemma_map_fixed(s: Seq<Seq<char>>, f: spec_fn(Seq<char>) -> Seq<char>)
    requires
        forall|i: int| 0 <= i < s.len() ==> f(#[trigger] s[i]) == s[i],
    ensures
        s.map_values(f) == s,
{
    assert(s.map_values(f) =~= s);
}

/// No character is a path separator.
pub open spec fn no_path_sep(s: Seq<char>) -> bool {
    forall|i: int| 0 <= i < s.len() ==> !is_path_sep(#[trigger] s[i])
}

/// No character is a dot.
pub open spec fn no_dot(s: Seq<char>) -> bool {
    forall|i: int| 0 <= i < s.len() ==> #[trigger] s[i] != '.'
}

proof fn lemma_file_part_clean(s: Seq<char>)
    ensures
        no_path_sep(file_part(s)),
        no_path_sep(s) ==> file_part(s) == s,
    decreases s.len(),
{
    if s.len() > 0 {
        lemma_file_part_clean(s.drop_last());
        let r = file_part(s.drop_last());
        if !is_path_sep(s.last()) {
            assert forall|i: int| 0 <= i < r.push(s.last()).len() implies !is_path_sep(
                #[trigger] r.push(s.last())[i],
            ) by {
                if i < r.len() {
                    assert(r.push(s.last())[i] == r[i]);
                }
            }
        }
        if no_path_sep(s) {
            assert(no_path_sep(s.drop_last())) by {
                assert forall|i: int| 0 <= i < s.drop_last().len() implies !is_path_sep(
                    #[trigger] s.drop_last()[i],
                ) by {
                    assert(s.drop_last()[i] == s[i]);
                }
            }
            assert(!is_path_sep(s[s.len() - 1]));
            assert(s.drop_last().push(s.last()) =~= s);
        }
    }
}

proof fn lemma_stem_part_prefix(s: Seq<char>)
    ensures
        stem_part(s).len() <= s.len(),
        stem_part(s) =~= s.subrange(0, stem_part(s).len() as int),
        no_dot(s) ==> stem_part(s) == s,
    decreases s.len(),
{
    if s.len() > 0 {
        assert(no_dot(s) ==> s[s.len() - 1] != '.');
        if s.last() != '.' && !no_dot(s) {
            lemma_stem_part_prefix(s.drop_last());
        }
    }
}

proof fn lemma_stem_last_dot(s: Seq<char>, k: int)
    requires
        0 <= k < s.len(),
        s[k] == '.',
        forall|i: int| k < i < s.len() ==> #[trigger] s[i] != '.',
    ensures
        stem_part(s) =~= s.subrange(0, k),
    decreases s.len(),
{
    if k < s.len() - 1 {
        assert(s[s.len() - 1] != '.');
        assert(!no_dot(s));
        let t = s.drop_last();
        assert forall|i: int| k < i < t.len() implies #[trigger] t[i] != '.' by {
            assert(t[i] == s[i]);
        }
        lemma_stem_last_dot(t, k);
    }
}

/// A stored process name that a second pass leaves as it is: no white
/// space at either end and no `.` (a second pass would drop what follows
/// the last one).
pub open spec fn stable_process_name(s: Seq<char>) -> bool {
    trimmed(s) == s && no_dot(s)
}

proof fn lemma_process_name_stable(e: Seq<char>, x: Seq<char>)
    requires
        e == process_name(x),
        stable_process_name(e),
    ensures
        process_name(e) == e,
{
    let f = file_part(trimmed(x));
    lemma_file_part_clean(trimmed(x));
    lemma_stem_part_prefix(f);
    assert forall|i: int| 0 <= i < e.len() implies !is_path_sep(#[trigger] e[i]) by {
        assert(e[i] == f[i]);
    }
    lemma_file_part_clean(e);
    lemma_stem_part_prefix(e);
}

/// Normalizing a normalized executable list changes nothing; neither does
/// normalizing a normalized process list whose names are stable: a name
/// such as `app .exe` leaves `app `, which trims further, and one such as
/// `my.app.exe` leaves `my.app`, which loses `.app` on a second pass.
pub proof fn law_exclusions_are_stable(x: Seq<Seq<char>>)
    ensures
        executables_normalized(executables_normalized(x)) == executables_normalized(x),
        (forall|i: int|
            0 <= i < processes_normalized(x).len() ==> stable_process_name(
                #[trigger] processes_normalized(x)[i],
            )) ==> processes_normalized(processes_normalized(x)) == processes_normalized(x),
{
    law_exclusions_are_clean(x);
    let mapped = x.map_values(|y: Seq<char>| trimmed(y));
    let e = executables_normalized(x);
    lemma_non_empty_members(mapped);
    lemma_dedup_lower_clean(non_empty(mapped));
    assert forall|i: int| 0 <= i < e.len() implies trimmed(#[trigger] e[i]) == e[i] by {
        assert(non_empty(mapped).contains(e[i]));
        let k = choose|k: int| 0 <= k < non_empty(mapped).len() && non_empty(mapped)[k] == e[i];
        assert(mapped.contains(non_empty(mapped)[k]));
        let j = choose|j: int| 0 <= j < mapped.len() && mapped[j] == non_empty(mapped)[k];
        lemma_trimmed_idempotent(x[j]);
    }
    lemma_map_fixed(e, |y: Seq<char>| trimmed(y));
    lemma_non_empty_identity(e);
    lemma_dedup_identity(e);
    let pm = x.map_values(|y: Seq<char>| process_name(y));
    let p = processes_normalized(x);
    if forall|i: int| 0 <= i < p.len() ==> stable_process_name(#[trigger] p[i]) {
        lemma_non_empty_members(pm);
        lemma_dedup_lower_clean(non_empty(pm));
        assert forall|i: int| 0 <= i < p.len() implies process_name(#[trigger] p[i]) == p[i] by {
            assert(non_empty(pm).contains(p[i]));
            let k = choose|k: int| 0 <= k < non_empty(pm).len() && non_empty(pm)[k] == p[i];
            assert(pm.contains(non_empty(pm)[k]));
            let j = choose|j: int| 0 <= j < pm.len() && pm[j] == non_empty(pm)[k];
            assert(stable_process_name(p[i]));
            lemma_process_name_stable(p[i], x[j]);
        }
        lemma_map_fixed(p, |y: Seq<char>| process_name(y));
        lemma_non_empty_identity(p);
        lemma_dedup_identity(p);
    }
}

/// The characters after the last path separator.
fn file_part_of(v: &[char]) -> (r: Vec<char>)
    ensures
        r@ == file_part(v@),
{
    let n = v.len();
    let mut j: usize = n;
    assert(v@.subrange(0, n as int) =~= v@);
    assert(v@.subrange(n as int, n as int) =~= Seq::<char>::empty());
    while j > 0 && !(v[j - 1] == '/' || v[j - 1] == '\\')
        invariant
            n == v.len(),
            j <= n,
            file_part(v@) == file_part(v@.subrange(0, j as int)) + v@.subrange(j as int, n as int),
        decreases j,
    {
        let ghost pre = v@.subrange(0, j as int);
        assert(pre.drop_last() =~= v@.subrange(0, j - 1));
        assert(v@.subrange(j - 1, n as int) =~= seq![pre.last()] + v@.subrange(j as int, n as int));
        j = j - 1;
    }
    let mut r: Vec<char> = Vec::new();
    let mut k: usize = j;
    while k < n
        invariant
            n == v.len(),
            j <= k <= n,
            r@ == v@.subrange(j as int, k as int),
        decreases n - k,
    {
        r.push(v[k]);
        k = k + 1;
    }
    assert(file_part(v@.subrange(0, j as int)) =~= Seq::<char>::empty());
    assert(file_part(v@) =~= r@);
    r
}

/// The characters before the last `.` (all of them if there is none).
fn stem_part_of(v: &[char]) -> (r: Vec<char>)
    ensures
        r@ == stem_part(v@),
{
    let n = v.len();
    let mut j: usize = n;
    while j > 0 && v[j - 1] != '.'
        invariant
            n == v.len(),
            j <= n,
            forall|i: int| j <= i < n ==> #[trigger] v@[i] != '.',
        decreases j,
    {
        j = j - 1;
    }
    let end: usize = if j == 0 { n } else { j - 1 };
    let mut r: Vec<char> = Vec::new();
    let mut k: usize = 0;
    while k < end
        invariant
            n == v.len(),
            end <= n,
            k <= end,
            r@ == v@.subrange(0, k as int),
        decreases end - k,
    {
        r.push(v[k]);
        k = k + 1;
    }
    proof {
        if j == 0 {
            lemma_stem_part_prefix(v@);
            assert(r@ =~= v@);
        } else {
            lemma_stem_last_dot(v@, j - 1);
        }
    }
    r
}

/// Whether `s` occurs among the first `n` entries of `items`.
fn occurs_before(items: &[String], n: usize, s: &String) -> (b: bool)
    requires
        n <= items.len(),
    ensures
        b == texts(items@).take(n as int).contains(s@),
{
    let mut i: usize = 0;
    while i < n
        invariant
            n <= items.len(),
            i <= n,
            forall|j: int| 0 <= j < i ==> (#[trigger] items@[j])@ != s@,
        decreases n - i,
    {
        if items[i] == *s {
            assert(texts(items@).take(n as int)[i as int] == s@);
            return true;
        }
        i = i + 1;
    }
    assert forall|j: int| 0 <= j < n implies texts(items@).take(n as int)[j] != s@ by {
        assert(texts(items@).take(n as int)[j] == items@[j]@);
    }
    false
}

/// Keep each item whose key (the entry of `keys` at the same position)
/// no earlier item has; the order is kept.
pub fn dedup_by_keys(items: &[String], keys: &[String]) -> (r: Vec<String>)
    requires
        items.len() == keys.len(),
    ensures
        texts(r@) == first_by_key(texts(items@), texts(keys@)),
{
    let mut out: Vec<String> = Vec::new();
    let mut i: usize = 0;
    assert(texts(items@).take(0) =~= Seq::<Seq<char>>::empty());
    while i < items.len()
        invariant
            items.len() == keys.len(),
            i <= items.len(),
            texts(out@) == first_by_key(texts(items@).take(i as int), texts(keys@).take(i as int)),
        decreases items.len() - i,
    {
        let ghost it = texts(items@).take(i as int + 1);
        let ghost ks = texts(keys@).take(i as int + 1);
        assert(it.drop_last() =~= texts(items@).take(i as int));
        assert(ks.take(i as int) =~= texts(keys@).take(i as int));
        assert(ks[i as int] == keys@[i as int]@);
        assert(it[i as int] == items@[i as int]@);
        if !occurs_before(keys, i, &keys[i]) {
            out.push(items[i].clone());
            assert(texts(out@) =~= first_by_key(it, ks));
        } else {
            assert(texts(out@) =~= first_by_key(it, ks));
        }
        i = i + 1;
    }
    assert(texts(items@).take(items.len() as int) =~= texts(items@));
    assert(texts(keys@).take(items.len() as int) =~= texts(keys@));
    out
}

/// Remove duplicates without regard to case, keeping the first spelling.
pub fn dedup_keep_order(items: &[String]) -> (r: Vec<String>)
    ensures
        texts(r@) == dedup_lower(texts(items@)),
{
    let mut keys: Vec<String> = Vec::new();
    let mut i: usize = 0;
    while i < items.len()
        invariant
            i <= items.len(),
            keys@.len() == i,
            forall|j: int| 0 <= j < i ==> (#[trigger] keys@[j])@ == lowercase(items@[j]@),
        decreases items.len() - i,
    {
        keys.push(to_lowercase(items[i].as_str()));
        i = i + 1;
    }
    assert(texts(keys@) =~= lowered(texts(items@)));
    dedup_by_keys(items, keys.as_slice())
}

/// Append `v` as a string when it is not empty.
fn push_non_empty(out: &mut Vec<String>, v: &Vec<char>)
    ensures
        texts(final(out)@) == (if v@.len() == 0 {
            texts(old(out)@)
        } else {
            texts(old(out)@).push(v@)
        }),
{
    if v.len() > 0 {
        out.push(string_of(v.as_slice()));
        assert(texts(out@) =~= texts(old(out)@).push(v@));
    }
}

/// Normalize both exclusion lists in place.
pub fn normalize_exclusions(executables: &mut Vec<String>, processes: &mut Vec<String>)
    ensures
        texts(final(executables)@) == executables_normalized(texts(old(executables)@)),
        texts(final(processes)@) == processes_normalized(texts(old(processes)@)),
{
    let ghost ex0 = texts(executables@);
    let ghost pr0 = texts(processes@);
    let ghost ex_mapped = ex0.map_values(|x: Seq<char>| trimmed(x));
    let ghost pr_mapped = pr0.map_values(|x: Seq<char>| process_name(x));
    let mut ex: Vec<String> = Vec::new();
    let mut i: usize = 0;
    while i < executables.len()
        invariant
            ex0 == texts(executables@),
            ex_mapped == ex0.map_values(|x: Seq<char>| trimmed(x)),
            i <= executables.len(),
            texts(ex@) == non_empty(ex_mapped.take(i as int)),
        decreases executables.len() - i,
    {
        let t = trim(chars_of(executables[i].as_str()).as_slice());
        assert(ex_mapped.take(i as int + 1).drop_last() =~= ex_mapped.take(i as int));
        assert(ex_mapped.take(i as int + 1).last() == t@);
        push_non_empty(&mut ex, &t);
        i = i + 1;
    }
    assert(ex_mapped.take(executables.len() as int) =~= ex_mapped);
    let mut pr: Vec<String> = Vec::new();
    let mut k: usize = 0;
    while k < processes.len()
        invariant
            pr0 == texts(processes@),
            pr_mapped == pr0.map_values(|x: Seq<char>| process_name(x)),
            k <= processes.len(),
            texts(pr@) == non_empty(pr_mapped.take(k as int)),
        decreases processes.len() - k,
    {
        let t = trim(chars_of(processes[k].as_str()).as_slice());
        let f = file_part_of(t.as_slice());
        let stem = stem_part_of(f.as_slice());
        assert(pr_mapped.take(k as int + 1).drop_last() =~= pr_mapped.take(k as int));
        assert(pr_mapped.take(k as int + 1).last() == stem@);
        push_non_empty(&mut pr, &stem);
        k = k + 1;
    }
    assert(pr_mapped.take(processes.len() as int) =~= pr_mapped);
    *executables = dedup_keep_order(ex.as_slice());
    *processes = dedup_keep_order(pr.as_slice());
}

} // verus!
