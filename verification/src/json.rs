//! JSON values as entities' custom fields hold them, and when two of them
//! are equal.

use vstd::prelude::*;
use crate::text::str_eq;

verus! {

/// A JSON value. A number is a non-negative integer, a negative integer or
/// a float, which is kept as the bits of its `f64` and is never NaN or
/// infinite. An object's entries have distinct keys.
pub enum CustomValue {
    Null,
    Bool(bool),
    PosInt(u64),
    NegInt(i64),
    Float(u64),
    String(String),
    Array(Vec<CustomValue>),
    Object(Vec<(String, CustomValue)>),
}

/// The bits of `0.0` and `-0.0`.
pub open spec fn is_zero_bits(x: u64) -> bool {
    x == 0 || x == 0x8000_0000_0000_0000
}

/// Finite floats are equal when their bits are, or when both are zero.
pub open spec fn float_bits_equal(x: u64, y: u64) -> bool {
    x == y || (is_zero_bits(x) && is_zero_bits(y))
}

/// Whether two JSON values are equal: numbers only of the same kind and
/// value, arrays element by element, objects when they have as many
/// entries and each entry of the first has an equal one in the second.
pub open spec fn json_equal(a: CustomValue, b: CustomValue) -> bool
    decreases a, 0int,
{
    match a {
        CustomValue::Null => b is Null,
        CustomValue::Bool(x) => b matches CustomValue::Bool(y) && x == y,
        CustomValue::PosInt(x) => b matches CustomValue::PosInt(y) && x == y,
        CustomValue::NegInt(x) => b matches CustomValue::NegInt(y) && x == y,
        CustomValue::Float(x) => b matches CustomValue::Float(y) && float_bits_equal(x, y),
        CustomValue::String(x) => b matches CustomValue::String(y) && x@ == y@,
        CustomValue::Array(x) => match b {
            CustomValue::Array(y) => arrays_equal(x@, y@),
            _ => false,
        },
        CustomValue::Object(x) => match b {
            CustomValue::Object(y) => x@.len() == y@.len() && entries_within(x@, y@),
            _ => false,
        },
    }
}

/// Two arrays of the same length whose elements are pairwise equal.
pub open spec fn arrays_equal(x: Seq<CustomValue>, y: Seq<CustomValue>) -> bool
    decreases x, 0int,
{
    if x.len() != y.len() {
        false
    } else if x.len() == 0 {
        true
    } else {
        arrays_equal(x.drop_last(), y.drop_last()) && json_equal(x[x.len() - 1], y[y.len() - 1])
    }
}

/// Every entry of `x` has an entry with its key and an equal value in `y`.
pub open spec fn entries_within(x: Seq<(String, CustomValue)>, y: Seq<(String, CustomValue)>) -> bool
    decreases x, 0int,
{
    if x.len() == 0 {
        true
    } else {
        entries_within(x.drop_last(), y) && entry_found(x[x.len() - 1].0@, x[x.len() - 1].1, y)
    }
}

/// Some entry of `y` has the key `k` and a value equal to `v`.
pub open spec fn entry_found(k: Seq<char>, v: CustomValue, y: Seq<(String, CustomValue)>) -> bool
    decreases v, y.len(),
{
    if y.len() == 0 {
        false
    } else {
        entry_found(k, v, y.drop_last()) || (y[y.len() - 1].0@ == k && json_equal(v, y[y.len() - 1].1))
    }
}

/// Whether two JSON values are equal, as `json_equal` says.
pub fn values_equal(a: &CustomValue, b: &CustomValue) -> (r: bool)
    ensures
        r == json_equal(*a, *b),
    decreases *a, 0int,
{
    match a {
        CustomValue::Null => match b {
            CustomValue::Null => true,
            _ => false,
        },
        CustomValue::Bool(x) => match b {
            CustomValue::Bool(y) => *x == *y,
            _ => false,
        },
        CustomValue::PosInt(x) => match b {
            CustomValue::PosInt(y) => *x == *y,
            _ => false,
        },
        CustomValue::NegInt(x) => match b {
            CustomValue::NegInt(y) => *x == *y,
            _ => false,
        },
        CustomValue::Float(x) => match b {
            CustomValue::Float(y) => {
                let zx = *x == 0 || *x == 0x8000_0000_0000_0000u64;
                let zy = *y == 0 || *y == 0x8000_0000_0000_0000u64;
                *x == *y || (zx && zy)
            },
            _ => false,
        },
        CustomValue::String(x) => match b {
            CustomValue::String(y) => str_eq(x.as_str(), y.as_str()),
            _ => false,
        },
        CustomValue::Array(x) => match b {
            CustomValue::Array(y) => arrays_eq(x, y),
            _ => false,
        },
        CustomValue::Object(x) => match b {
            CustomValue::Object(y) => x.len() == y.len() && entries_in(x, y),
            _ => false,
        },
    }
}

fn arrays_eq(x: &Vec<CustomValue>, y: &Vec<CustomValue>) -> (r: bool)
    ensures
        r == arrays_equal(x@, y@),
    decreases x@, 0int,
{
    if x.len() != y.len() {
        return false;
    }
    let mut i: usize = 0;
    while i < x.len()
        invariant
            i <= x@.len(),
            x@.len() == y@.len(),
            arrays_equal(x@.take(i as int), y@.take(i as int)),
        decreases x@.len() - i,
    {
        proof {
            assert(x@.take(i as int + 1).drop_last() =~= x@.take(i as int));
            assert(y@.take(i as int + 1).drop_last() =~= y@.take(i as int));
        }
        if !values_equal(&x[i], &y[i]) {
            proof {
                if arrays_equal(x@, y@) {
                    lemma_arrays_equal_prefix(x@, y@, i as int + 1);
                }
            }
            return false;
        }
        i = i + 1;
    }
    proof {
        assert(x@.take(x@.len() as int) =~= x@);
        assert(y@.take(y@.len() as int) =~= y@);
    }
    true
}

/// Equal arrays have equal prefixes.
proof fn lemma_arrays_equal_prefix(x: Seq<CustomValue>, y: Seq<CustomValue>, n: int)
    requires
        0 <= n <= x.len(),
        arrays_equal(x, y),
    ensures
        arrays_equal(x.take(n), y.take(n)),
    decreases x.len(),
{
    if n < x.len() {
        lemma_arrays_equal_prefix(x.drop_last(), y.drop_last(), n);
        assert(x.drop_last().take(n) =~= x.take(n));
        assert(y.drop_last().take(n) =~= y.take(n));
    } else {
        assert(x.take(n) =~= x);
        assert(y.take(n) =~= y);
    }
}

fn entries_in(x: &Vec<(String, CustomValue)>, y: &Vec<(String, CustomValue)>) -> (r: bool)
    ensures
        r == entries_within(x@, y@),
    decreases x@, 0int,
{
    let mut i: usize = 0;
    while i < x.len()
        invariant
            i <= x@.len(),
            entries_within(x@.take(i as int), y@),
        decreases x@.len() - i,
    {
        proof {
            assert(x@.take(i as int + 1).drop_last() =~= x@.take(i as int));
        }
        if !entry_in(&x[i].0, &x[i].1, y) {
            proof {
                if entries_within(x@, y@) {
                    lemma_entries_within_prefix(x@, y@, i as int + 1);
                }
            }
            return false;
        }
        i = i + 1;
    }
    proof {
        assert(x@.take(x@.len() as int) =~= x@);
    }
    true
}

/// What holds of all entries holds of the first ones.
proof fn lemma_entries_within_prefix(x: Seq<(String, CustomValue)>, y: Seq<(String, CustomValue)>, n: int)
    requires
        0 <= n <= x.len(),
        entries_within(x, y),
    ensures
        entries_within(x.take(n), y),
    decreases x.len(),
{
    if n < x.len() {
        lemma_entries_within_prefix(x.drop_last(), y, n);
        assert(x.drop_last().take(n) =~= x.take(n));
    } else {
        assert(x.take(n) =~= x);
    }
}

/// Whether an entry of `y` has the key `k` and a value equal to `v`.
pub fn entry_in(k: &String, v: &CustomValue, y: &Vec<(String, CustomValue)>) -> (r: bool)
    ensures
        r == entry_found(k@, *v, y@),
    decreases *v, y@.len(),
{
    let mut j: usize = 0;
    let mut found = false;
    while j < y.len()
        invariant
            j <= y@.len(),
            found == entry_found(k@, *v, y@.take(j as int)),
        decreases y@.len() - j,
    {
        proof {
            assert(y@.take(j as int + 1).drop_last() =~= y@.take(j as int));
        }
        if !found && str_eq(y[j].0.as_str(), k.as_str()) {
            found = values_equal(v, &y[j].1);
        }
        j = j + 1;
    }
    proof {
        assert(y@.take(y@.len() as int) =~= y@);
    }
    found
}

/// An entry of `y` with key `k` and a value equal to `v` is found.
pub proof fn lemma_entry_found_at(k: Seq<char>, v: CustomValue, y: Seq<(String, CustomValue)>, j: int)
    requires
        0 <= j < y.len(),
        y[j].0@ == k,
        json_equal(v, y[j].1),
    ensures
        entry_found(k, v, y),
    decreases y.len(),
{
    if j < y.len() - 1 {
        lemma_entry_found_at(k, v, y.drop_last(), j);
    }
}

/// Every JSON value equals itself.
pub proof fn lemma_json_equal_reflexive(a: CustomValue)
    ensures
        json_equal(a, a),
    decreases a, 0int,
{
    match a {
        CustomValue::Array(x) => {
            lemma_arrays_reflexive(x@);
        },
        CustomValue::Object(x) => {
            lemma_entries_reflexive(x@, x@.len() as int);
            assert(x@.take(x@.len() as int) =~= x@);
        },
        _ => {},
    }
}

proof fn lemma_arrays_reflexive(x: Seq<CustomValue>)
    ensures
        arrays_equal(x, x),
    decreases x, 0int,
{
    if x.len() > 0 {
        lemma_arrays_reflexive(x.drop_last());
        lemma_json_equal_reflexive(x[x.len() - 1]);
    }
}

proof fn lemma_entries_reflexive(x: Seq<(String, CustomValue)>, n: int)
    requires
        0 <= n <= x.len(),
    ensures
        entries_within(x.take(n), x),
    decreases x, n,
{
    if n > 0 {
        lemma_entries_reflexive(x, n - 1);
        assert(x.take(n).drop_last() =~= x.take(n - 1));
        lemma_json_equal_reflexive(x[n - 1].1);
        lemma_entry_found_at(x[n - 1].0@, x[n - 1].1, x, n - 1);
    }
}

/// Two arrays are equal exactly when they have the same length and equal
/// elements at each position.
proof fn lemma_arrays_equal_pointwise(x: Seq<CustomValue>, y: Seq<CustomValue>)
    ensures
        arrays_equal(x, y) <==> (x.len() == y.len() && forall|i: int|
            0 <= i < x.len() ==> #[trigger] json_equal(x[i], y[i])),
    decreases x.len(),
{
    if x.len() == y.len() && x.len() > 0 {
        let n = x.len() - 1;
        lemma_arrays_equal_pointwise(x.drop_last(), y.drop_last());
        assert forall|i: int| 0 <= i < n implies x.drop_last()[i] == x[i] && y.drop_last()[i] == y[i] by {}
        if forall|i: int| 0 <= i < x.len() ==> #[trigger] json_equal(x[i], y[i]) {
            assert(json_equal(x[n], y[n]));
            assert forall|i: int| 0 <= i < n implies #[trigger] json_equal(x.drop_last()[i], y.drop_last()[i]) by {
                assert(json_equal(x[i], y[i]));
            }
        }
        if arrays_equal(x, y) {
            assert forall|i: int| 0 <= i < x.len() implies #[trigger] json_equal(x[i], y[i]) by {
                if i < n {
                    assert(json_equal(x.drop_last()[i], y.drop_last()[i]));
                }
            }
        }
    }
}

/// An entry with key `k` and a value equal to `v` is found in `y` exactly
/// when `y` has one at some position.
proof fn lemma_entry_found_exists(k: Seq<char>, v: CustomValue, y: Seq<(String, CustomValue)>)
    ensures
        entry_found(k, v, y) <==> exists|j: int|
            0 <= j < y.len() && (#[trigger] y[j]).0@ == k && json_equal(v, y[j].1),
    decreases y.len(),
{
    if y.len() > 0 {
        let n = y.len() - 1;
        lemma_entry_found_exists(k, v, y.drop_last());
        if entry_found(k, v, y.drop_last()) {
            let j = choose|j: int| 0 <= j < y.drop_last().len() && (#[trigger] y.drop_last()[j]).0@ == k
                && json_equal(v, y.drop_last()[j].1);
            assert(y.drop_last()[j] == y[j]);
        }
        if exists|j: int| 0 <= j < y.len() && (#[trigger] y[j]).0@ == k && json_equal(v, y[j].1) {
            let j = choose|j: int| 0 <= j < y.len() && (#[trigger] y[j]).0@ == k && json_equal(v, y[j].1);
            if j < n {
                assert(y.drop_last()[j] == y[j]);
            }
        }
    }
}

/// All entries of `x` are found in `y` exactly when each one is.
proof fn lemma_entries_within_all(x: Seq<(String, CustomValue)>, y: Seq<(String, CustomValue)>)
    ensures
        entries_within(x, y) <==> forall|i: int|
            0 <= i < x.len() ==> entry_found((#[trigger] x[i]).0@, x[i].1, y),
    decreases x.len(),
{
    if x.len() > 0 {
        let n = x.len() - 1;
        lemma_entries_within_all(x.drop_last(), y);
        if forall|i: int| 0 <= i < x.len() ==> entry_found((#[trigger] x[i]).0@, x[i].1, y) {
            assert(entry_found(x[n].0@, x[n].1, y));
            assert forall|i: int| 0 <= i < n implies entry_found((#[trigger] x.drop_last()[i]).0@, x.drop_last()[i].1, y) by {
                assert(x.drop_last()[i] == x[i]);
                assert(entry_found(x[i].0@, x[i].1, y));
            }
        }
        if entries_within(x, y) {
            assert forall|i: int| 0 <= i < x.len() implies entry_found((#[trigger] x[i]).0@, x[i].1, y) by {
                if i < n {
                    assert(x.drop_last()[i] == x[i]);
                    assert(entry_found(x.drop_last()[i].0@, x.drop_last()[i].1, y));
                }
            }
        }
    }
}

/// What JSON equality means: values of different kinds are never equal;
/// null equals null; booleans, integers and strings are equal exactly when
/// they hold the same value; floats when their bits are the same or both
/// are a zero; arrays when they have the same length and equal elements at
/// each position; objects when they have as many entries and each entry of
/// the first has an entry with the same key and an equal value in the
/// second.
pub proof fn lemma_json_equal_meaning(a: CustomValue, b: CustomValue)
    ensures
        a is Null ==> (json_equal(a, b) <==> b is Null),
        a matches CustomValue::Bool(x) ==> (json_equal(a, b) <==> b == CustomValue::Bool(x)),
        a matches CustomValue::PosInt(x) ==> (json_equal(a, b) <==> b == CustomValue::PosInt(x)),
        a matches CustomValue::NegInt(x) ==> (json_equal(a, b) <==> b == CustomValue::NegInt(x)),
        a matches CustomValue::Float(x) ==> (json_equal(a, b) <==> (b matches CustomValue::Float(y) && (x
            == y || ((x == 0 || x == 0x8000_0000_0000_0000) && (y == 0 || y == 0x8000_0000_0000_0000))))),
        a matches CustomValue::String(x) ==> (json_equal(a, b) <==> (b matches CustomValue::String(y) && x@
            == y@)),
        a matches CustomValue::Array(x) ==> (json_equal(a, b) <==> (b matches CustomValue::Array(y) && x@.len()
            == y@.len() && forall|i: int| 0 <= i < x@.len() ==> #[trigger] json_equal(x@[i], y@[i]))),
        a matches CustomValue::Object(x) ==> (json_equal(a, b) <==> (b matches CustomValue::Object(y) && x@.len()
            == y@.len() && forall|i: int| 0 <= i < x@.len() ==> exists|j: int|
            0 <= j < y@.len() && (#[trigger] y@[j]).0@ == (#[trigger] x@[i]).0@ && json_equal(x@[i].1, y@[j].1))),
{
    match a {
        CustomValue::Array(x) => {
            if let CustomValue::Array(y) = b {
                lemma_arrays_equal_pointwise(x@, y@);
            }
        },
        CustomValue::Object(x) => {
            if let CustomValue::Object(y) = b {
                lemma_entries_within_all(x@, y@);
                assert forall|i: int| 0 <= i < x@.len() implies (entry_found(x@[i].0@, x@[i].1, y@) <==> exists|j: int|
                    0 <= j < y@.len() && (#[trigger] y@[j]).0@ == x@[i].0@ && json_equal(x@[i].1, y@[j].1)) by {
                    lemma_entry_found_exists(x@[i].0@, x@[i].1, y@);
                }
            }
        },
        _ => {},
    }
}

} // verus!
