//! Custom fields of entities: which field keys an update of the fields
//! changes, each of which is then marked dirty for replication.

use vstd::prelude::*;
use crate::json::{entry_found, entry_in, lemma_entry_found_at, lemma_json_equal_reflexive, CustomValue};
use crate::text::str_eq;

verus! {

/// The keys of the new fields whose value is not the same as before, in
/// order; `same[i]` says whether the `i`th new field kept its old value.
pub open spec fn updated_keys(next: Seq<Seq<char>>, same: Seq<bool>) -> Seq<Seq<char>>
    decreases next.len(),
{
    if next.len() == 0 || same.len() != next.len() {
        Seq::empty()
    } else {
        let rest = updated_keys(next.drop_last(), same.drop_last());
        if same.last() {
            rest
        } else {
            rest.push(next.last())
        }
    }
}

/// The old keys that the new fields no longer have, in order.
pub open spec fn removed_keys(prev: Seq<Seq<char>>, next: Seq<Seq<char>>) -> Seq<Seq<char>>
    decreases prev.len(),
{
    if prev.len() == 0 {
        Seq::empty()
    } else {
        let rest = removed_keys(prev.drop_last(), next);
        if next.contains(prev.last()) {
            rest
        } else {
            rest.push(prev.last())
        }
    }
}

/// The keys an update changes: first the new keys whose value changed or
/// that are new, then the keys that were dropped.
pub open spec fn changed_keys(prev: Seq<Seq<char>>, next: Seq<Seq<char>>, same: Seq<bool>) -> Seq<Seq<char>> {
    updated_keys(next, same) + removed_keys(prev, next)
}

pub open spec fn texts(v: Seq<String>) -> Seq<Seq<char>> {
    v.map_values(|s: String| s@)
}

fn contains_text(v: &Vec<String>, k: &String) -> (r: bool)
    ensures
        r == texts(v@).contains(k@),
{
    let mut i: usize = 0;
    while i < v.len()
        invariant
            i <= v@.len(),
            forall|j: int| 0 <= j < i ==> v@[j]@ != k@,
        decreases v@.len() - i,
    {
        if str_eq(v[i].as_str(), k.as_str()) {
            proof {
                assert(texts(v@)[i as int] == k@);
            }
            return true;
        }
        i = i + 1;
    }
    proof {
        if texts(v@).contains(k@) {
            let j = choose|j: int| 0 <= j < texts(v@).len() && texts(v@)[j] == k@;
            assert(v@[j]@ == k@);
        }
    }
    false
}

/// The keys that an update of custom fields from the keys `prev` to the
/// keys `next` changes, given for each new key whether its value stayed the
/// same.
pub fn changed_custom_keys(prev: &Vec<String>, next: &Vec<String>, same: &Vec<bool>) -> (r: Vec<String>)
    requires
        next@.len() == same@.len(),
    ensures
        texts(r@) == changed_keys(texts(prev@), texts(next@), same@),
{
    let mut out: Vec<String> = Vec::new();
    let mut i: usize = 0;
    while i < next.len()
        invariant
            i <= next@.len(),
            next@.len() == same@.len(),
            texts(out@) == updated_keys(texts(next@).take(i as int), same@.take(i as int)),
        decreases next@.len() - i,
    {
        proof {
            let t = texts(next@).take(i as int + 1);
            let s = same@.take(i as int + 1);
            assert(t.drop_last() =~= texts(next@).take(i as int));
            assert(s.drop_last() =~= same@.take(i as int));
        }
        if !same[i] {
            let ghost before = out@;
            out.push(next[i].clone());
            proof {
                assert(texts(out@) =~= texts(before).push(next@[i as int]@));
            }
        }
        i = i + 1;
    }
    proof {
        assert(texts(next@).take(next@.len() as int) =~= texts(next@));
        assert(same@.take(same@.len() as int) =~= same@);
    }
    let ghost updated = texts(out@);
    let mut j: usize = 0;
    while j < prev.len()
        invariant
            j <= prev@.len(),
            updated == updated_keys(texts(next@), same@),
            texts(out@) == updated + removed_keys(texts(prev@).take(j as int), texts(next@)),
        decreases prev@.len() - j,
    {
        proof {
            let t = texts(prev@).take(j as int + 1);
            assert(t.drop_last() =~= texts(prev@).take(j as int));
        }
        if !contains_text(next, &prev[j]) {
            let ghost before = out@;
            out.push(prev[j].clone());
            proof {
                assert(texts(out@) =~= texts(before).push(prev@[j as int]@));
            }
        }
        j = j + 1;
    }
    proof {
        assert(texts(prev@).take(prev@.len() as int) =~= texts(prev@));
    }
    out
}

pub open spec fn field_keys(fields: Seq<(String, CustomValue)>) -> Seq<Seq<char>> {
    fields.map_values(|e: (String, CustomValue)| e.0@)
}

/// For each new field, whether the old fields hold its key with an equal
/// value.
pub open spec fn unchanged_flags(prev: Seq<(String, CustomValue)>, next: Seq<(String, CustomValue)>) -> Seq<bool> {
    Seq::new(next.len(), |i: int| entry_found(next[i].0@, next[i].1, prev))
}

/// The keys that replacing the custom fields `prev` by `next` changes: the
/// new keys whose old value is missing or not equal to the new one, in
/// order, then the dropped keys. Both are the entries of JSON objects.
pub fn custom_update_keys(prev: &Vec<(String, CustomValue)>, next: &Vec<(String, CustomValue)>) -> (r: Vec<String>)
    ensures
        texts(r@) == changed_keys(field_keys(prev@), field_keys(next@), unchanged_flags(prev@, next@)),
{
    let mut prev_keys: Vec<String> = Vec::new();
    let mut k: usize = 0;
    while k < prev.len()
        invariant
            k <= prev@.len(),
            texts(prev_keys@) == field_keys(prev@).take(k as int),
        decreases prev@.len() - k,
    {
        let ghost before = prev_keys@;
        let key = prev[k].0.clone();
        prev_keys.push(key);
        proof {
            assert(texts(prev_keys@) =~= texts(before).push(prev@[k as int].0@));
            assert(field_keys(prev@).take(k as int + 1) =~= field_keys(prev@).take(k as int).push(prev@[k as int].0@));
        }
        k = k + 1;
    }
    let mut next_keys: Vec<String> = Vec::new();
    let mut same: Vec<bool> = Vec::new();
    let mut i: usize = 0;
    while i < next.len()
        invariant
            i <= next@.len(),
            texts(prev_keys@) == field_keys(prev@),
            texts(next_keys@) == field_keys(next@).take(i as int),
            same@ == unchanged_flags(prev@, next@).take(i as int),
        decreases next@.len() - i,
    {
        let s = entry_in(&next[i].0, &next[i].1, prev);
        let ghost same_before = same@;
        let ghost keys_before = next_keys@;
        same.push(s);
        let nk = next[i].0.clone();
        next_keys.push(nk);
        proof {
            assert(same@ =~= unchanged_flags(prev@, next@).take(i as int + 1));
            assert(texts(next_keys@) =~= texts(keys_before).push(next@[i as int].0@));
            assert(field_keys(next@).take(i as int + 1) =~= field_keys(next@).take(i as int).push(next@[i as int].0@));
        }
        i = i + 1;
    }
    proof {
        assert(field_keys(prev@).take(prev@.len() as int) =~= field_keys(prev@));
        assert(field_keys(next@).take(next@.len() as int) =~= field_keys(next@));
        assert(unchanged_flags(prev@, next@).take(next@.len() as int) =~= unchanged_flags(prev@, next@));
    }
    changed_custom_keys(&prev_keys, &next_keys, &same)
}

/// What a script passed to `entity:custom(..)`.
#[derive(Clone, Copy, Debug, PartialEq, Eq, Structural)]
pub enum CustomArgument {
    Table,
    Function,
    Nil,
    Other,
}

/// What `entity:custom(..)` does with its argument.
#[derive(Clone, Copy, Debug, PartialEq, Eq, Structural)]
pub enum CustomCall {
    /// Replace the custom fields by the table.
    Replace,
    /// Call the function with the current fields and set what it returns.
    Update,
    /// Hand back the current fields.
    Get,
}

/// Why `entity:custom(..)` was refused.
#[derive(Debug)]
pub enum CustomError {
    /// The argument is neither a table, a function nor nil.
    UnknownValueType,
}

/// A table sets the custom fields, a function updates them, nil reads them;
/// anything else is refused.
pub fn custom_call(arg: CustomArgument) -> (r: Result<CustomCall, CustomError>)
    ensures
        r matches Ok(c) ==> c == (match arg {
            CustomArgument::Table => CustomCall::Replace,
            CustomArgument::Function => CustomCall::Update,
            _ => CustomCall::Get,
        }),
        r is Err <==> arg == CustomArgument::Other,
{
    match arg {
        CustomArgument::Table => Ok(CustomCall::Replace),
        CustomArgument::Function => Ok(CustomCall::Update),
        CustomArgument::Nil => Ok(CustomCall::Get),
        CustomArgument::Other => Err(CustomError::UnknownValueType),
    }
}

proof fn lemma_updated_keys_all_same(next: Seq<Seq<char>>, same: Seq<bool>)
    requires
        same.len() == next.len(),
        forall|i: int| 0 <= i < same.len() ==> #[trigger] same[i],
    ensures
        updated_keys(next, same) == Seq::<Seq<char>>::empty(),
    decreases next.len(),
{
    if next.len() > 0 {
        let sd = same.drop_last();
        assert forall|i: int| 0 <= i < sd.len() implies #[trigger] sd[i] by {
            assert(sd[i] == same[i]);
        }
        assert(same.last() == same[same.len() - 1]);
        lemma_updated_keys_all_same(next.drop_last(), sd);
    }
}

proof fn lemma_removed_keys_none_dropped(prev: Seq<Seq<char>>, next: Seq<Seq<char>>)
    requires
        forall|i: int| 0 <= i < prev.len() ==> next.contains(#[trigger] prev[i]),
    ensures
        removed_keys(prev, next) == Seq::<Seq<char>>::empty(),
    decreases prev.len(),
{
    if prev.len() > 0 {
        let pd = prev.drop_last();
        assert forall|i: int| 0 <= i < pd.len() implies next.contains(#[trigger] pd[i]) by {
            assert(pd[i] == prev[i]);
        }
        assert(next.contains(prev[prev.len() - 1]));
        lemma_removed_keys_none_dropped(pd, next);
    }
}

/// Setting custom fields to the very fields they already hold marks no key
/// as changed.
pub proof fn lemma_same_fields_change_nothing(fields: Seq<(String, CustomValue)>)
    ensures
        changed_keys(field_keys(fields), field_keys(fields), unchanged_flags(fields, fields))
            == Seq::<Seq<char>>::empty(),
{
    let same = unchanged_flags(fields, fields);
    assert forall|i: int| 0 <= i < same.len() implies #[trigger] same[i] by {
        lemma_json_equal_reflexive(fields[i].1);
        lemma_entry_found_at(fields[i].0@, fields[i].1, fields, i);
    }
    lemma_updated_keys_all_same(field_keys(fields), same);
    let k = field_keys(fields);
    assert forall|i: int| 0 <= i < k.len() implies k.contains(#[trigger] k[i]) by {}
    lemma_removed_keys_none_dropped(k, k);
    assert(changed_keys(k, k, same) =~= Seq::<Seq<char>>::empty());
}

/// `x` comes before `y` in `keys`.
pub open spec fn comes_before(keys: Seq<Seq<char>>, x: Seq<char>, y: Seq<char>) -> bool {
    exists|i: int, j: int| 0 <= i < j < keys.len() && keys[i] == x && keys[j] == y
}

proof fn lemma_updated_keys_facts(next: Seq<Seq<char>>, same: Seq<bool>)
    requires
        same.len() == next.len(),
    ensures
        forall|k: Seq<char>| #[trigger] updated_keys(next, same).contains(k) <==> exists|i: int|
            0 <= i < next.len() && next[i] == k && !same[i],
        next.no_duplicates() ==> updated_keys(next, same).no_duplicates(),
        forall|a: int, b: int|
            0 <= a < b < updated_keys(next, same).len() ==> comes_before(
                next,
                #[trigger] updated_keys(next, same)[a],
                #[trigger] updated_keys(next, same)[b],
            ),
    decreases next.len(),
{
    let u = updated_keys(next, same);
    if next.len() > 0 {
        let n2 = next.drop_last();
        let s2 = same.drop_last();
        lemma_updated_keys_facts(n2, s2);
        let r = updated_keys(n2, s2);
        let x = next.last();
        assert(u == if same.last() {
            r
        } else {
            r.push(x)
        });
        assert forall|k: Seq<char>| #[trigger] u.contains(k) <==> exists|i: int|
            0 <= i < next.len() && next[i] == k && !same[i] by {
            if u.contains(k) {
                let m = choose|m: int| 0 <= m < u.len() && u[m] == k;
                if m < r.len() {
                    assert(r[m] == k);
                    assert(r.contains(k));
                    let i = choose|i: int| 0 <= i < n2.len() && n2[i] == k && !s2[i];
                    assert(next[i] == k && !same[i]);
                } else {
                    assert(!same[next.len() - 1] && next[next.len() - 1] == k);
                }
            }
            if exists|i: int| 0 <= i < next.len() && next[i] == k && !same[i] {
                let i = choose|i: int| 0 <= i < next.len() && next[i] == k && !same[i];
                if i < next.len() - 1 {
                    assert(n2[i] == k && !s2[i]);
                    assert(r.contains(k));
                    let m = choose|m: int| 0 <= m < r.len() && r[m] == k;
                    assert(u[m] == k);
                } else {
                    assert(u == r.push(x));
                    assert(u[r.len() as int] == k);
                }
            }
        }
        if next.no_duplicates() {
            assert(n2.no_duplicates()) by {
                assert forall|a: int, b: int| 0 <= a < n2.len() && 0 <= b < n2.len() && a != b implies n2[a]
                    != n2[b] by {
                    assert(n2[a] == next[a] && n2[b] == next[b]);
                }
            }
            if !same.last() {
                assert(!r.contains(x)) by {
                    if r.contains(x) {
                        let i = choose|i: int| 0 <= i < n2.len() && n2[i] == x && !s2[i];
                        assert(next[i] == next[next.len() - 1]);
                    }
                }
                assert forall|a: int, b: int| 0 <= a < u.len() && 0 <= b < u.len() && a != b implies u[a] != u[b] by {
                    if a < r.len() && b < r.len() {
                        assert(u[a] == r[a] && u[b] == r[b]);
                    } else if a < r.len() {
                        assert(r.contains(u[a]));
                    } else if b < r.len() {
                        assert(r.contains(u[b]));
                    }
                }
            }
        }
        assert forall|a: int, b: int| 0 <= a < b < u.len() implies comes_before(next, #[trigger] u[a], #[trigger] u[b]) by {
            if b < r.len() {
                assert(u[a] == r[a] && u[b] == r[b]);
                assert(comes_before(n2, r[a], r[b]));
                let (i, j) = choose|i: int, j: int| 0 <= i < j < n2.len() && n2[i] == r[a] && n2[j] == r[b];
                assert(next[i] == u[a] && next[j] == u[b]);
            } else {
                assert(!same.last() && b == r.len());
                assert(u[a] == r[a]);
                assert(r.contains(r[a]));
                let i = choose|i: int| 0 <= i < n2.len() && n2[i] == r[a] && !s2[i];
                assert(next[i] == u[a]);
                assert(next[next.len() - 1] == u[b]);
                assert(0 <= i < next.len() - 1 < next.len() && next[i] == u[a] && next[next.len() - 1] == u[b]);
            }
        }
    }
}

proof fn lemma_removed_keys_facts(prev: Seq<Seq<char>>, next: Seq<Seq<char>>)
    ensures
        forall|k: Seq<char>| #[trigger] removed_keys(prev, next).contains(k) <==> prev.contains(k) && !next.contains(k),
        prev.no_duplicates() ==> removed_keys(prev, next).no_duplicates(),
    decreases prev.len(),
{
    let d = removed_keys(prev, next);
    if prev.len() > 0 {
        let p2 = prev.drop_last();
        lemma_removed_keys_facts(p2, next);
        let r = removed_keys(p2, next);
        let x = prev.last();
        assert forall|k: Seq<char>| #[trigger] d.contains(k) <==> prev.contains(k) && !next.contains(k) by {
            if d.contains(k) {
                let m = choose|m: int| 0 <= m < d.len() && d[m] == k;
                if m < r.len() {
                    assert(r[m] == k);
                    assert(r.contains(k));
                    let i = choose|i: int| 0 <= i < p2.len() && p2[i] == k;
                    assert(prev[i] == k);
                } else {
                    assert(prev[prev.len() - 1] == k);
                }
            }
            if prev.contains(k) && !next.contains(k) {
                let i = choose|i: int| 0 <= i < prev.len() && prev[i] == k;
                if i < prev.len() - 1 {
                    assert(p2[i] == k);
                    assert(p2.contains(k));
                    assert(r.contains(k));
                    let m = choose|m: int| 0 <= m < r.len() && r[m] == k;
                    assert(d[m] == k);
                } else {
                    assert(d == r.push(x));
                    assert(d[r.len() as int] == k);
                }
            }
        }
        if prev.no_duplicates() {
            assert(p2.no_duplicates()) by {
                assert forall|a: int, b: int| 0 <= a < p2.len() && 0 <= b < p2.len() && a != b implies p2[a]
                    != p2[b] by {
                    assert(p2[a] == prev[a] && p2[b] == prev[b]);
                }
            }
            if !next.contains(x) {
                assert(!r.contains(x)) by {
                    if r.contains(x) {
                        let i = choose|i: int| 0 <= i < p2.len() && p2[i] == x;
                        assert(prev[i] == prev[prev.len() - 1]);
                    }
                }
                assert forall|a: int, b: int| 0 <= a < d.len() && 0 <= b < d.len() && a != b implies d[a] != d[b] by {
                    if a < r.len() && b < r.len() {
                        assert(d[a] == r[a] && d[b] == r[b]);
                    } else if a < r.len() {
                        assert(r.contains(d[a]));
                    } else if b < r.len() {
                        assert(r.contains(d[b]));
                    }
                }
            }
        }
    }
}

/// The keys an update lists, stated directly: a key is listed exactly when
/// a new field has it and its old value is missing or not equal, or an old
/// field has it and no new field does; no key is listed twice; the new
/// fields' keys come first, in the order of the new fields.
pub proof fn lemma_changed_keys_exact(prev: Seq<Seq<char>>, next: Seq<Seq<char>>, same: Seq<bool>)
    requires
        prev.no_duplicates(),
        next.no_duplicates(),
        same.len() == next.len(),
    ensures
        forall|k: Seq<char>| #[trigger] changed_keys(prev, next, same).contains(k) <==> ((exists|i: int|
            0 <= i < next.len() && next[i] == k && !same[i]) || (prev.contains(k) && !next.contains(k))),
        changed_keys(prev, next, same).no_duplicates(),
        forall|a: int, b: int|
            0 <= a < b < changed_keys(prev, next, same).len() && next.contains(
                #[trigger] changed_keys(prev, next, same)[b],
            ) ==> next.contains(#[trigger] changed_keys(prev, next, same)[a]),
        forall|a: int, b: int|
            0 <= a < b < changed_keys(prev, next, same).len() && next.contains(
                #[trigger] changed_keys(prev, next, same)[a],
            ) && next.contains(#[trigger] changed_keys(prev, next, same)[b]) ==> comes_before(
                next,
                changed_keys(prev, next, same)[a],
                changed_keys(prev, next, same)[b],
            ),
{
    lemma_updated_keys_facts(next, same);
    lemma_removed_keys_facts(prev, next);
    let u = updated_keys(next, same);
    let d = removed_keys(prev, next);
    let c = changed_keys(prev, next, same);
    assert(c == u + d);
    assert forall|k: Seq<char>| #[trigger] c.contains(k) <==> ((exists|i: int|
        0 <= i < next.len() && next[i] == k && !same[i]) || (prev.contains(k) && !next.contains(k))) by {
        if c.contains(k) {
            let m = choose|m: int| 0 <= m < c.len() && c[m] == k;
            if m < u.len() {
                assert(u[m] == k);
                assert(u.contains(k));
            } else {
                assert(d[m - u.len()] == k);
                assert(d.contains(k));
            }
        }
        if u.contains(k) {
            let m = choose|m: int| 0 <= m < u.len() && u[m] == k;
            assert(c[m] == k);
        }
        if d.contains(k) {
            let m = choose|m: int| 0 <= m < d.len() && d[m] == k;
            assert(c[u.len() + m] == k);
        }
    }
    assert forall|m: int| 0 <= m < u.len() implies next.contains(#[trigger] u[m]) by {
        assert(u.contains(u[m]));
        let i = choose|i: int| 0 <= i < next.len() && next[i] == u[m] && !same[i];
    }
    assert forall|m: int| 0 <= m < d.len() implies !next.contains(#[trigger] d[m]) by {
        assert(d.contains(d[m]));
    }
    assert forall|a: int, b: int| 0 <= a < c.len() && 0 <= b < c.len() && a != b implies c[a] != c[b] by {
        if a < u.len() && b < u.len() {
            assert(c[a] == u[a] && c[b] == u[b]);
        } else if a >= u.len() && b >= u.len() {
            assert(c[a] == d[a - u.len()] && c[b] == d[b - u.len()]);
        } else if a < u.len() {
            assert(c[a] == u[a] && next.contains(u[a]));
            assert(c[b] == d[b - u.len()]);
        } else {
            assert(c[b] == u[b] && next.contains(u[b]));
            assert(c[a] == d[a - u.len()]);
        }
    }
    assert forall|a: int, b: int|
        0 <= a < b < c.len() && next.contains(#[trigger] c[b]) implies next.contains(#[trigger] c[a]) by {
        if b >= u.len() {
            assert(c[b] == d[b - u.len()]);
        }
        assert(c[a] == u[a]);
    }
    assert forall|a: int, b: int|
        0 <= a < b < c.len() && next.contains(#[trigger] c[a]) && next.contains(#[trigger] c[b]) implies comes_before(
        next,
        c[a],
        c[b],
    ) by {
        if b >= u.len() {
            assert(c[b] == d[b - u.len()]);
        }
        assert(c[a] == u[a] && c[b] == u[b]);
        assert(comes_before(next, u[a], u[b]));
    }
}

/// What `custom_update_keys` lists, for the fields of two JSON objects: a
/// key exactly when a new field has it and the old fields do not hold it
/// with an equal value, or an old field has it and no new field does; each
/// once; the new fields' keys first, in their order.
pub proof fn lemma_custom_update_keys_exact(prev: Seq<(String, CustomValue)>, next: Seq<(String, CustomValue)>)
    requires
        field_keys(prev).no_duplicates(),
        field_keys(next).no_duplicates(),
    ensures
        forall|k: Seq<char>|
            #[trigger] changed_keys(field_keys(prev), field_keys(next), unchanged_flags(prev, next)).contains(k)
                <==> ((exists|i: int| 0 <= i < next.len() && next[i].0@ == k && !entry_found(k, next[i].1, prev)) || (
            field_keys(prev).contains(k) && !field_keys(next).contains(k))),
        changed_keys(field_keys(prev), field_keys(next), unchanged_flags(prev, next)).no_duplicates(),
{
    let f = unchanged_flags(prev, next);
    let nk = field_keys(next);
    lemma_changed_keys_exact(field_keys(prev), nk, f);
    assert forall|k: Seq<char>| #[trigger] changed_keys(field_keys(prev), nk, f).contains(k) <==> ((exists|i: int|
        0 <= i < next.len() && next[i].0@ == k && !entry_found(k, next[i].1, prev)) || (field_keys(prev).contains(k)
        && !nk.contains(k))) by {
        if exists|i: int| 0 <= i < nk.len() && nk[i] == k && !f[i] {
            let i = choose|i: int| 0 <= i < nk.len() && nk[i] == k && !f[i];
            assert(next[i].0@ == k && !entry_found(k, next[i].1, prev));
        }
        if exists|i: int| 0 <= i < next.len() && next[i].0@ == k && !entry_found(k, next[i].1, prev) {
            let i = choose|i: int| 0 <= i < next.len() && next[i].0@ == k && !entry_found(k, next[i].1, prev);
            assert(nk[i] == k && !f[i]);
        }
    }
}

} // verus!
