//! Sorting and deduplication by lexicographic keys.

use vstd::prelude::*;

verus! {

/// Lexicographic order of integer sequences.
pub open spec fn key_le(a: Seq<int>, b: Seq<int>) -> bool
    decreases a.len(),
{
    if a.len() == 0 {
        true
    } else if b.len() == 0 {
        false
    } else {
        a[0] < b[0] || (a[0] == b[0] && key_le(a.drop_first(), b.drop_first()))
    }
}

/// The order is reflexive.
pub proof fn lemma_key_reflexive(a: Seq<int>)
    ensures
        key_le(a, a),
    decreases a.len(),
{
    if a.len() > 0 {
        lemma_key_reflexive(a.drop_first());
    }
}

/// The order is total.
pub proof fn lemma_key_total(a: Seq<int>, b: Seq<int>)
    ensures
        key_le(a, b) || key_le(b, a),
    decreases a.len(),
{
    if a.len() > 0 && b.len() > 0 {
        lemma_key_total(a.drop_first(), b.drop_first());
    }
}

/// The order is transitive.
pub proof fn lemma_key_transitive(a: Seq<int>, b: Seq<int>, c: Seq<int>)
    requires
        key_le(a, b),
        key_le(b, c),
    ensures
        key_le(a, c),
    decreases a.len(),
{
    if a.len() > 0 && b.len() > 0 && c.len() > 0 && a[0] == b[0] && b[0] == c[0] {
        lemma_key_transitive(a.drop_first(), b.drop_first(), c.drop_first());
    }
}

/// Two keys that are at most each other are the same.
pub proof fn lemma_key_antisymmetric(a: Seq<int>, b: Seq<int>)
    requires
        key_le(a, b),
        key_le(b, a),
    ensures
        a == b,
    decreases a.len(),
{
    if a.len() == 0 || b.len() == 0 {
        assert(a =~= b);
    } else {
        lemma_key_antisymmetric(a.drop_first(), b.drop_first());
        assert(a =~= seq![a[0]] + a.drop_first());
        assert(b =~= seq![b[0]] + b.drop_first());
    }
}

/// The key of a byte string.
pub open spec fn byte_key(bytes: Seq<u8>) -> Seq<int> {
    bytes.map_values(|byte: u8| byte as int)
}

/// Whether one byte string is at most another.
pub fn bytes_at_most(a: &[u8], b: &[u8]) -> (r: bool)
    ensures
        r == key_le(byte_key(a@), byte_key(b@)),
{
    let ghost left = byte_key(a@);
    let ghost right = byte_key(b@);
    let mut index: usize = 0;
    proof {
        assert(left.skip(0) =~= left);
        assert(right.skip(0) =~= right);
    }
    loop
        invariant
            left == byte_key(a@),
            right == byte_key(b@),
            index <= a@.len(),
            index <= b@.len(),
            key_le(left, right) == key_le(left.skip(index as int), right.skip(index as int)),
        decreases a@.len() - index,
    {
        if index == a.len() {
            return true;
        }
        if index == b.len() {
            return false;
        }
        proof {
            assert(left.skip(index as int).drop_first() =~= left.skip(index + 1));
            assert(right.skip(index as int).drop_first() =~= right.skip(index + 1));
            assert(left.skip(index as int)[0] == a@[index as int]);
            assert(right.skip(index as int)[0] == b@[index as int]);
        }
        if a[index] != b[index] {
            return a[index] < b[index];
        }
        index = index + 1;
    }
}

/// A value with a place in the order.
pub trait SortKey: Sized {
    /// The value's key.
    spec fn key(&self) -> Seq<int>;

    /// Whether this value's key is at most the other's.
    fn at_most(&self, other: &Self) -> (r: bool)
        ensures
            r == key_le(self.key(), other.key()),
    ;
}

/// The keys of a run of values.
pub open spec fn keys<T: SortKey>(items: Seq<T>) -> Seq<Seq<int>> {
    items.map_values(|item: T| item.key())
}

/// No value's key exceeds a later one's.
pub open spec fn is_sorted(keys: Seq<Seq<int>>) -> bool {
    forall|i: int, j: int| 0 <= i <= j < keys.len() ==> key_le(keys[i], keys[j])
}

/// Every value's key is below the later ones'.
pub open spec fn is_strictly_sorted(keys: Seq<Seq<int>>) -> bool {
    forall|i: int, j: int|
        0 <= i < j < keys.len() ==> key_le(keys[i], keys[j]) && keys[i] != keys[j]
}

/// Sort by key.
pub fn sorted<T: SortKey>(items: Vec<T>) -> (r: Vec<T>)
    ensures
        is_sorted(keys(r@)),
        r@.to_multiset() == items@.to_multiset(),
        r@.len() == items@.len(),
{
    broadcast use vstd::seq_lib::group_to_multiset_ensures;

    let ghost all = items@;
    let mut rest: Vec<T> = items;
    let mut output: Vec<T> = Vec::new();
    proof {
        assert(all.to_multiset() =~= all.to_multiset().add(output@.to_multiset()));
    }
    loop
        invariant_except_break
            rest@.to_multiset().add(output@.to_multiset()) == all.to_multiset(),
            rest@.len() + output@.len() == all.len(),
            is_sorted(keys(output@)),
        ensures
            output@.to_multiset() == all.to_multiset(),
            output@.len() == all.len(),
            is_sorted(keys(output@)),
        decreases rest@.len(),
    {
        let ghost before_rest = rest@;
        let ghost before = output@;
        let next: T = match rest.pop() {
            Some(next) => next,
            None => {
                proof {
                    assert(rest@.len() == 0);
                    vstd::seq_lib::to_multiset_len(rest@);
                    assert(rest@.to_multiset() =~= vstd::multiset::Multiset::empty());
                    assert(rest@.to_multiset().add(output@.to_multiset())
                        =~= output@.to_multiset());
                }
                break;
            },
        };
        let at: usize = place(&output, &next);
        proof {
            lemma_insert_keeps_sorted(before, next, at as int);
            assert(before_rest =~= rest@.push(next));
            vstd::seq_lib::to_multiset_build(rest@, next);
            vstd::seq_lib::to_multiset_insert(before, at as int, next);
        }
        output.insert(at, next);
        proof {
            assert(rest@.to_multiset().add(output@.to_multiset()) =~= before_rest.to_multiset().add(
                before.to_multiset(),
            ));
        }
    }
    output
}

/// How many values stand before a new one: those below it.
fn place<T: SortKey>(output: &Vec<T>, next: &T) -> (r: usize)
    requires
        is_sorted(keys(output@)),
    ensures
        r <= output@.len(),
        forall|i: int|
            0 <= i < r ==> key_le((#[trigger] output@[i]).key(), next.key()),
        forall|i: int|
            r <= i < output@.len() ==> key_le(next.key(), (#[trigger] output@[i]).key()),
{
    let mut at: usize = 0;
    while at < output.len()
        invariant_except_break
            at <= output@.len(),
            is_sorted(keys(output@)),
            forall|i: int| 0 <= i < at ==> key_le((#[trigger] output@[i]).key(), next.key()),
        ensures
            at <= output@.len(),
            forall|i: int| 0 <= i < at ==> key_le((#[trigger] output@[i]).key(), next.key()),
            forall|i: int|
                at <= i < output@.len() ==> key_le(next.key(), (#[trigger] output@[i]).key()),
        decreases output@.len() - at,
    {
        if next.at_most(&output[at]) {
            proof {
                assert forall|i: int| at <= i < output@.len() implies key_le(
                    next.key(),
                    (#[trigger] output@[i]).key(),
                ) by {
                    let ks = keys(output@);
                    assert(key_le(ks[at as int], ks[i]));
                    lemma_key_transitive(next.key(), output@[at as int].key(), output@[i].key());
                }
            }
            break;
        }
        proof {
            lemma_key_total(next.key(), output@[at as int].key());
        }
        at = at + 1;
    }
    at
}

/// A value goes where those before it are at most it and those after it at
/// least.
proof fn lemma_insert_keeps_sorted<T: SortKey>(items: Seq<T>, next: T, at: int)
    requires
        is_sorted(keys(items)),
        0 <= at <= items.len(),
        forall|i: int| 0 <= i < at ==> key_le((#[trigger] items[i]).key(), next.key()),
        forall|i: int| at <= i < items.len() ==> key_le(next.key(), (#[trigger] items[i]).key()),
    ensures
        is_sorted(keys(items.insert(at, next))),
{
    let after = items.insert(at, next);
    let before_keys = keys(items);
    let after_keys = keys(after);
    assert forall|i: int, j: int| 0 <= i <= j < after_keys.len() implies key_le(
        after_keys[i],
        after_keys[j],
    ) by {
        let p = if i < at {
            i
        } else {
            i - 1
        };
        let q = if j < at {
            j
        } else {
            j - 1
        };
        if i == at && j == at {
            lemma_key_reflexive(next.key());
        } else if i == at {
            assert(after_keys[j] == items[q].key());
        } else if j == at {
            assert(after_keys[i] == items[p].key());
        } else {
            assert(after_keys[i] == before_keys[p]);
            assert(after_keys[j] == before_keys[q]);
        }
    }
}

/// Sort by key and keep one value of each key.
pub fn sorted_distinct<T: SortKey>(items: Vec<T>) -> (r: Vec<T>)
    ensures
        is_strictly_sorted(keys(r@)),
        keys(r@).to_set() == keys(items@).to_set(),
        forall|i: int| 0 <= i < r@.len() ==> items@.contains(#[trigger] r@[i]),
{
    let ghost all = items@;
    let mut rest: Vec<T> = sorted(items);
    let ghost ordered = rest@;
    let mut output: Vec<T> = Vec::new();
    let ghost mut left: int = ordered.len() as int;
    proof {
        lemma_same_items(all, ordered);
        assert(ordered.take(left) =~= ordered);
        assert(ordered.skip(left) =~= output@);
        assert(keys(output@) =~= Seq::empty());
        assert(keys(ordered.skip(left)) =~= Seq::empty());
    }
    loop
        invariant_except_break
            is_sorted(keys(ordered)),
            0 <= left <= ordered.len(),
            rest@ == ordered.take(left),
            is_strictly_sorted(keys(output@)),
            keys(output@).to_set() == keys(ordered.skip(left)).to_set(),
            forall|i: int| 0 <= i < output@.len() ==> ordered.contains(#[trigger] output@[i]),
            left < ordered.len() ==> output@.len() > 0 && output@[0].key() == ordered[left].key(),
            left == ordered.len() ==> output@.len() == 0,
        ensures
            is_strictly_sorted(keys(output@)),
            keys(output@).to_set() == keys(ordered).to_set(),
            forall|i: int| 0 <= i < output@.len() ==> ordered.contains(#[trigger] output@[i]),
        decreases rest@.len(),
    {
        let ghost before = output@;
        let next: T = match rest.pop() {
            Some(next) => next,
            None => {
                proof {
                    assert(ordered.skip(0) =~= ordered);
                }
                break;
            },
        };
        proof {
            left = left - 1;
            assert(next == ordered[left]);
            assert(rest@ =~= ordered.take(left));
            assert(ordered.skip(left) =~= seq![next] + ordered.skip(left + 1));
            lemma_keys_of_prepended(next, ordered.skip(left + 1));
            assert(ordered.contains(next));
        }
        let fresh: bool = output.len() == 0 || !output[0].at_most(&next);
        if fresh {
            proof {
                if left + 1 < ordered.len() {
                    let ks = keys(ordered);
                    assert(key_le(ks[left], ks[left + 1]));
                    lemma_key_reflexive(next.key());
                }
                lemma_prepend_keeps_strict(before, next);
                assert(before.insert(0, next) =~= seq![next] + before);
                lemma_keys_of_prepended(next, before);
            }
            output.insert(0, next);
            proof {
                assert(output@ =~= seq![next] + before);
                assert forall|i: int| 0 <= i < output@.len() implies ordered.contains(
                    #[trigger] output@[i],
                ) by {
                    if i > 0 {
                        assert(output@[i] == before[i - 1]);
                    }
                }
            }
        } else {
            proof {
                let ks = keys(ordered);
                assert(key_le(ks[left], ks[left + 1]));
                lemma_key_antisymmetric(next.key(), output@[0].key());
                assert(keys(output@)[0] == next.key());
                assert(keys(output@).to_set().insert(next.key()) =~= keys(output@).to_set());
            }
        }
    }
    proof {
        assert forall|i: int| 0 <= i < output@.len() implies all.contains(#[trigger] output@[i]) by {
            assert(ordered.contains(output@[i]));
        }
        assert(keys(ordered).to_set() =~= keys(all).to_set()) by {
            lemma_same_key_sets(all, ordered);
        }
    }
    output
}

/// A permutation holds the same values.
proof fn lemma_same_items<T: SortKey>(a: Seq<T>, b: Seq<T>)
    requires
        a.to_multiset() == b.to_multiset(),
    ensures
        forall|x: T| a.contains(x) == b.contains(x),
{
    broadcast use vstd::seq_lib::group_to_multiset_ensures;

    assert forall|x: T| a.contains(x) == b.contains(x) by {
        vstd::seq_lib::to_multiset_contains(a, x);
        vstd::seq_lib::to_multiset_contains(b, x);
    }
}

/// The same values have the same keys.
proof fn lemma_same_key_sets<T: SortKey>(a: Seq<T>, b: Seq<T>)
    requires
        forall|x: T| a.contains(x) == b.contains(x),
    ensures
        keys(a).to_set() =~= keys(b).to_set(),
{
    assert forall|k: Seq<int>| keys(a).to_set().contains(k) == keys(b).to_set().contains(k) by {
        if keys(a).contains(k) {
            let i = choose|i: int| 0 <= i < keys(a).len() && keys(a)[i] == k;
            assert(a.contains(a[i]));
            assert(b.contains(a[i]));
            let j = choose|j: int| 0 <= j < b.len() && b[j] == a[i];
            assert(keys(b)[j] == k);
        }
        if keys(b).contains(k) {
            let i = choose|i: int| 0 <= i < keys(b).len() && keys(b)[i] == k;
            assert(b.contains(b[i]));
            assert(a.contains(b[i]));
            let j = choose|j: int| 0 <= j < a.len() && a[j] == b[i];
            assert(keys(a)[j] == k);
        }
    }
}

/// The key set with one more value in front.
proof fn lemma_keys_of_prepended<T: SortKey>(next: T, rest: Seq<T>)
    ensures
        keys(seq![next] + rest) == seq![next.key()] + keys(rest),
        keys(seq![next] + rest).to_set() == keys(rest).to_set().insert(next.key()),
{
    let whole = seq![next] + rest;
    assert(keys(whole) =~= seq![next.key()] + keys(rest));
    assert forall|k: Seq<int>| keys(whole).to_set().contains(k) == keys(rest).to_set().insert(
        next.key(),
    ).contains(k) by {
        if keys(whole).contains(k) {
            let i = choose|i: int| 0 <= i < keys(whole).len() && keys(whole)[i] == k;
            if i > 0 {
                assert(keys(rest)[i - 1] == k);
            }
        }
        if k == next.key() {
            assert(keys(whole)[0] == k);
        } else if keys(rest).contains(k) {
            let i = choose|i: int| 0 <= i < keys(rest).len() && keys(rest)[i] == k;
            assert(keys(whole)[i + 1] == k);
        }
    }
    assert(keys(whole).to_set() =~= keys(rest).to_set().insert(next.key()));
}

/// A value below the first one goes in front.
proof fn lemma_prepend_keeps_strict<T: SortKey>(items: Seq<T>, next: T)
    requires
        is_strictly_sorted(keys(items)),
        items.len() > 0 ==> key_le(next.key(), items[0].key()) && !key_le(
            items[0].key(),
            next.key(),
        ),
    ensures
        is_strictly_sorted(keys(seq![next] + items)),
{
    let whole = seq![next] + items;
    let ks = keys(whole);
    assert forall|i: int, j: int| 0 <= i < j < ks.len() implies key_le(ks[i], ks[j]) && ks[i]
        != ks[j] by {
        assert(ks[j] == keys(items)[j - 1]);
        if i > 0 {
            assert(ks[i] == keys(items)[i - 1]);
        } else {
            assert(ks[0] == next.key());
            if j > 1 {
                assert(key_le(keys(items)[0], keys(items)[j - 1]));
                lemma_key_transitive(next.key(), items[0].key(), items[j - 1].key());
                if ks[0] == ks[j] {
                    assert(key_le(items[0].key(), next.key()));
                }
            } else {
                lemma_key_reflexive(next.key());
            }
        }
    }
}

/// Sorted keys are fixed by how often each occurs: the order in which the
/// values came does not matter.
pub proof fn lemma_sorted_keys_are_unique(a: Seq<Seq<int>>, b: Seq<Seq<int>>)
    requires
        is_sorted(a),
        is_sorted(b),
        a.to_multiset() == b.to_multiset(),
    ensures
        a == b,
{
    let leq = |x: Seq<int>, y: Seq<int>| key_le(x, y);
    assert(vstd::relations::total_ordering(leq)) by {
        assert forall|x: Seq<int>| #[trigger] leq(x, x) by {
            lemma_key_reflexive(x);
        }
        assert forall|x: Seq<int>, y: Seq<int>| #[trigger]
            leq(x, y) && #[trigger] leq(y, x) implies x == y by {
            lemma_key_antisymmetric(x, y);
        }
        assert forall|x: Seq<int>, y: Seq<int>, z: Seq<int>| #[trigger]
            leq(x, y) && #[trigger] leq(y, z) implies leq(x, z) by {
            lemma_key_transitive(x, y, z);
        }
        assert forall|x: Seq<int>, y: Seq<int>| #[trigger] leq(x, y) || #[trigger] leq(y, x) by {
            lemma_key_total(x, y);
        }
    }
    assert(vstd::relations::sorted_by(a, leq));
    assert(vstd::relations::sorted_by(b, leq));
    vstd::seq_lib::lemma_sorted_unique(a, b, leq);
}

/// Strictly sorted keys are fixed by which keys there are.
pub proof fn lemma_strictly_sorted_keys_are_unique(a: Seq<Seq<int>>, b: Seq<Seq<int>>)
    requires
        is_strictly_sorted(a),
        is_strictly_sorted(b),
        a.to_set() == b.to_set(),
    ensures
        a == b,
{
    lemma_strict_is_sorted(a);
    lemma_strict_is_sorted(b);
    a.lemma_multiset_has_no_duplicates();
    b.lemma_multiset_has_no_duplicates();
    broadcast use vstd::seq_lib::group_to_multiset_ensures;

    assert forall|k: Seq<int>| a.to_multiset().count(k) == b.to_multiset().count(k) by {
        assert(a.to_set().contains(k) == b.to_set().contains(k));
        assert(a.to_set().contains(k) == a.contains(k));
        assert(b.to_set().contains(k) == b.contains(k));
        assert(a.contains(k) == (a.to_multiset().count(k) > 0));
        assert(b.contains(k) == (b.to_multiset().count(k) > 0));
        if a.contains(k) {
            assert(a.to_multiset().contains(k));
            assert(b.to_multiset().contains(k));
        }
    }
    assert(a.to_multiset() =~= b.to_multiset());
    lemma_sorted_keys_are_unique(a, b);
}

/// Strictly sorted keys are sorted and differ.
proof fn lemma_strict_is_sorted(a: Seq<Seq<int>>)
    requires
        is_strictly_sorted(a),
    ensures
        is_sorted(a),
        a.no_duplicates(),
{
    assert forall|i: int, j: int| 0 <= i <= j < a.len() implies key_le(a[i], a[j]) by {
        if i == j {
            lemma_key_reflexive(a[i]);
        }
    }
    assert forall|i: int, j: int| 0 <= i < a.len() && 0 <= j < a.len() && i != j implies a[i]
        != a[j] by {
        if i < j {
            assert(key_le(a[i], a[j]));
        } else {
            assert(key_le(a[j], a[i]));
        }
    }
}

/// No two values share a key.
pub open spec fn key_names_value<T: SortKey>() -> bool {
    forall|a: T, b: T| #[trigger] a.key() == #[trigger] b.key() ==> a == b
}

/// Where keys name values, the distinct values in order are the values there
/// were, each once.
pub proof fn lemma_distinct_values<T: SortKey>(all: Seq<T>, distinct: Seq<T>)
    requires
        key_names_value::<T>(),
        is_strictly_sorted(keys(distinct)),
        keys(distinct).to_set() == keys(all).to_set(),
    ensures
        distinct.to_set() == all.to_set(),
        distinct.no_duplicates(),
        distinct.len() == all.to_set().len(),
{
    assert forall|item: T| distinct.to_set().contains(item) == all.to_set().contains(item) by {
        lemma_value_by_key(all, item);
        lemma_value_by_key(distinct, item);
    }
    assert(distinct.to_set() =~= all.to_set());
    lemma_strict_is_sorted(keys(distinct));
    assert forall|i: int, j: int|
        0 <= i < distinct.len() && 0 <= j < distinct.len() && i != j implies distinct[i]
        != distinct[j] by {
        assert(keys(distinct)[i] != keys(distinct)[j]);
        assert(keys(distinct)[i] == distinct[i].key());
        assert(keys(distinct)[j] == distinct[j].key());
    }
    distinct.unique_seq_to_set();
}

/// Where keys name values, a value is among others exactly where its key is.
proof fn lemma_value_by_key<T: SortKey>(items: Seq<T>, item: T)
    requires
        key_names_value::<T>(),
    ensures
        items.contains(item) == keys(items).to_set().contains(item.key()),
{
    if items.contains(item) {
        let i = choose|i: int| 0 <= i < items.len() && items[i] == item;
        assert(keys(items)[i] == item.key());
    }
    if keys(items).contains(item.key()) {
        let i = choose|i: int| 0 <= i < keys(items).len() && keys(items)[i] == item.key();
        assert(keys(items)[i] == items[i].key());
        assert(items[i] == item);
    }
}

/// Values that are strictly sorted by key are fixed by which values there are.
pub proof fn lemma_distinct_values_are_unique<T: SortKey>(a: Seq<T>, b: Seq<T>)
    requires
        is_strictly_sorted(keys(a)),
        is_strictly_sorted(keys(b)),
        a.to_set() == b.to_set(),
    ensures
        a == b,
{
    lemma_strictly_sorted_by_is_unique(a, b, |item: T| item.key());
}

/// Values that are strictly sorted by a key are fixed by which values there
/// are.
pub proof fn lemma_strictly_sorted_by_is_unique<T>(
    a: Seq<T>,
    b: Seq<T>,
    key: spec_fn(T) -> Seq<int>,
)
    requires
        is_strictly_sorted(a.map_values(key)),
        is_strictly_sorted(b.map_values(key)),
        a.to_set() == b.to_set(),
    ensures
        a == b,
{
    let left = a.map_values(key);
    let right = b.map_values(key);
    assert forall|k: Seq<int>| left.to_set().contains(k) == right.to_set().contains(k) by {
        lemma_key_transfer(a, b, key, k);
        lemma_key_transfer(b, a, key, k);
    }
    assert(left.to_set() =~= right.to_set());
    lemma_strictly_sorted_keys_are_unique(left, right);
    assert(left.len() == a.len());
    assert(right.len() == b.len());
    lemma_strict_is_sorted(right);
    assert forall|i: int| 0 <= i < a.len() implies a[i] == b[i] by {
        assert(a.to_set().contains(a[i]));
        assert(b.to_set().contains(a[i]));
        assert(b.contains(a[i]));
        let j = choose|j: int| 0 <= j < b.len() && b[j] == a[i];
        assert(left[i] == key(a[i]));
        assert(right[j] == key(b[j]));
        assert(right[i] == right[j]);
    }
    assert(a =~= b);
}

/// A key of one run is a key of every run with the same values.
proof fn lemma_key_transfer<T>(a: Seq<T>, b: Seq<T>, key: spec_fn(T) -> Seq<int>, k: Seq<int>)
    requires
        a.to_set() == b.to_set(),
    ensures
        a.map_values(key).contains(k) ==> b.map_values(key).contains(k),
{
    let left = a.map_values(key);
    let right = b.map_values(key);
    if left.contains(k) {
        let i = choose|i: int| 0 <= i < left.len() && left[i] == k;
        assert(a.to_set().contains(a[i]));
        assert(b.to_set().contains(a[i]));
        assert(b.contains(a[i]));
        let j = choose|j: int| 0 <= j < b.len() && b[j] == a[i];
        assert(right[j] == k);
    }
}

/// Runs with the same values have the same images, equally often.
pub proof fn lemma_map_keeps_multiset<A, B>(a: Seq<A>, b: Seq<A>, f: spec_fn(A) -> B)
    requires
        a.to_multiset() == b.to_multiset(),
    ensures
        a.map_values(f).to_multiset() == b.map_values(f).to_multiset(),
    decreases a.len(),
{
    broadcast use vstd::seq_lib::group_to_multiset_ensures;

    assert(a.len() == a.to_multiset().len());
    assert(b.len() == b.to_multiset().len());
    if a.len() == 0 {
        assert(a.map_values(f) =~= b.map_values(f));
    } else {
        let last = a.last();
        assert(a.contains(last));
        assert(b.to_multiset().contains(last));
        assert(b.contains(last));
        let at = choose|at: int| 0 <= at < b.len() && b[at] == last;
        let rest = b.remove(at);
        assert(a.drop_last() =~= a.remove(a.len() - 1));
        assert(a.drop_last().to_multiset() =~= a.to_multiset().remove(last));
        assert(rest.to_multiset() =~= b.to_multiset().remove(last));
        lemma_map_keeps_multiset(a.drop_last(), rest, f);
        assert(a.map_values(f) =~= a.drop_last().map_values(f).push(f(last)));
        assert(b.map_values(f).remove(at) =~= rest.map_values(f));
        assert(b.map_values(f)[at] == f(last));
        assert(b.map_values(f).contains(f(last)));
        assert(b.map_values(f).to_multiset() =~= rest.map_values(f).to_multiset().insert(f(last)));
    }
}

/// The key of a pair of byte keys: ordered by the first, then by the second.
pub open spec fn pair_key(first: Seq<int>, second: Seq<int>) -> Seq<int> {
    first + seq![-1int] + second
}

/// No part of the key is negative.
pub open spec fn is_byte_key(key: Seq<int>) -> bool {
    forall|i: int| 0 <= i < key.len() ==> 0 <= #[trigger] key[i]
}

/// Pairs are ordered by the first key, then by the second.
pub proof fn lemma_pair_order(a: Seq<int>, b: Seq<int>, c: Seq<int>, d: Seq<int>)
    requires
        is_byte_key(a),
        is_byte_key(c),
    ensures
        key_le(pair_key(a, b), pair_key(c, d)) == (key_le(a, c) && (a != c || key_le(b, d))),
        pair_key(a, b) == pair_key(c, d) <==> a == c && b == d,
    decreases a.len(),
{
    let left = pair_key(a, b);
    let right = pair_key(c, d);
    if a.len() == 0 {
        assert(left[0] == -1);
        assert(left.skip(1) =~= b);
        if c.len() == 0 {
            assert(right[0] == -1);
            assert(right.skip(1) =~= d);
            assert(a =~= c);
        } else {
            assert(right[0] == c[0]);
        }
    } else if c.len() == 0 {
        assert(right[0] == -1);
        assert(left[0] == a[0]);
    } else {
        assert(left[0] == a[0]);
        assert(right[0] == c[0]);
        assert(left.skip(1) =~= pair_key(a.skip(1), b));
        assert(right.skip(1) =~= pair_key(c.skip(1), d));
        assert(is_byte_key(a.skip(1)) && is_byte_key(c.skip(1)));
        lemma_pair_order(a.skip(1), b, c.skip(1), d);
        if a[0] == c[0] {
            assert(a =~= seq![a[0]] + a.skip(1));
            assert(c =~= seq![c[0]] + c.skip(1));
            assert(left =~= seq![a[0]] + left.skip(1));
            assert(right =~= seq![c[0]] + right.skip(1));
        }
    }
}

/// Strictly sorted keys stay so with a larger one behind them.
pub proof fn lemma_strict_push(ks: Seq<Seq<int>>, k: Seq<int>)
    requires
        is_strictly_sorted(ks),
        ks.len() > 0 ==> key_le(ks.last(), k) && ks.last() != k,
    ensures
        is_strictly_sorted(ks.push(k)),
{
    let more = ks.push(k);
    assert forall|i: int, j: int| 0 <= i < j < more.len() implies key_le(more[i], more[j])
        && more[i] != more[j] by {
        if j < ks.len() {
            assert(key_le(ks[i], ks[j]));
        } else if i < ks.len() - 1 {
            assert(key_le(ks[i], ks[ks.len() - 1]));
            lemma_key_transitive(ks[i], ks.last(), k);
            if ks[i] == k {
                lemma_key_antisymmetric(ks.last(), k);
            }
        }
    }
}

/// One more value.
pub proof fn lemma_contains_push<T>(s: Seq<T>, x: T, y: T)
    ensures
        s.push(x).contains(y) == (s.contains(y) || x == y),
{
    if s.contains(y) {
        let i = choose|i: int| 0 <= i < s.len() && s[i] == y;
        assert(s.push(x)[i] == y);
    }
    if x == y {
        assert(s.push(x)[s.len() as int] == y);
    }
    if s.push(x).contains(y) {
        let i = choose|i: int| 0 <= i < s.push(x).len() && s.push(x)[i] == y;
        if i < s.len() {
            assert(s[i] == y);
        }
    }
}

} // verus!
