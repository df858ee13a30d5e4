//! Grouping values by key, in the order in which keys and values first came.

use vstd::prelude::*;

verus! {

/// A key whose equality is equality of the whole value.
pub trait GroupKey: Copy {
    /// Whether two keys are the same.
    fn same(&self, other: &Self) -> (r: bool)
        ensures
            r == (*self == *other),
    ;
}

/// The values that came under one key.
#[derive(Debug)]
pub struct Group<K, V> {
    pub key: K,
    pub items: Vec<V>,
}

/// Groups over mathematical sequences.
pub open spec fn groups_view<K, V>(groups: Seq<Group<K, V>>) -> Seq<(K, Seq<V>)> {
    groups.map_values(|group: Group<K, V>| (group.key, group.items@))
}

/// Where the group of a key stands; negative where there is none.
pub open spec fn position<K, V>(groups: Seq<(K, Seq<V>)>, key: K) -> int
    decreases groups.len(),
{
    if groups.len() == 0 {
        -1
    } else {
        let earlier = position(groups.drop_last(), key);
        if earlier >= 0 {
            earlier
        } else if groups.last().0 == key {
            groups.len() - 1
        } else {
            -1
        }
    }
}

/// The groups with one more value: behind the others of its key, or in a new
/// group at the end.
pub open spec fn added<K, V>(groups: Seq<(K, Seq<V>)>, key: K, value: V) -> Seq<(K, Seq<V>)> {
    let at = position(groups, key);
    if at >= 0 {
        groups.update(at, (key, groups[at].1.push(value)))
    } else {
        groups.push((key, seq![value]))
    }
}

/// The groups of a run of keyed values.
pub open spec fn grouped<K, V>(entries: Seq<(K, V)>) -> Seq<(K, Seq<V>)>
    decreases entries.len(),
{
    if entries.len() == 0 {
        Seq::empty()
    } else {
        added(grouped(entries.drop_last()), entries.last().0, entries.last().1)
    }
}

/// The values of one key, in order.
pub open spec fn values_of_key<K, V>(entries: Seq<(K, V)>, key: K) -> Seq<V>
    decreases entries.len(),
{
    if entries.len() == 0 {
        Seq::empty()
    } else if entries.last().0 == key {
        values_of_key(entries.drop_last(), key).push(entries.last().1)
    } else {
        values_of_key(entries.drop_last(), key)
    }
}

/// What `position` finds is a group of the key, and it finds one wherever
/// there is one.
pub proof fn lemma_position<K, V>(groups: Seq<(K, Seq<V>)>, key: K)
    ensures
        -1 <= position(groups, key) < groups.len(),
        position(groups, key) >= 0 ==> groups[position(groups, key)].0 == key,
        position(groups, key) < 0 ==> forall|i: int|
            0 <= i < groups.len() ==> (#[trigger] groups[i]).0 != key,
    decreases groups.len(),
{
    if groups.len() > 0 {
        lemma_position(groups.drop_last(), key);
        assert forall|i: int| position(groups, key) < 0 && 0 <= i < groups.len() implies (
        #[trigger] groups[i]).0 != key by {
            if i < groups.len() - 1 {
                assert(groups.drop_last()[i] == groups[i]);
            }
        }
    }
}

/// Every key has one group, which holds exactly its values in order, and every
/// value is in a group: grouping loses, repeats and reorders nothing.
pub proof fn lemma_grouping_is_a_partition<K, V>(entries: Seq<(K, V)>)
    ensures
        forall|i: int, j: int|
            #![trigger grouped(entries)[i], grouped(entries)[j]]
            0 <= i < j < grouped(entries).len() ==> grouped(entries)[i].0 != grouped(entries)[j].0,
        forall|i: int|
            0 <= i < grouped(entries).len() ==> (#[trigger] grouped(entries)[i]).1
                == values_of_key(entries, grouped(entries)[i].0),
        forall|e: int|
            0 <= e < entries.len() ==> position(grouped(entries), (#[trigger] entries[e]).0) >= 0,
    decreases entries.len(),
{
    if entries.len() > 0 {
        let rest = entries.drop_last();
        let (key, value) = entries.last();
        let before = grouped(rest);
        let after = grouped(entries);
        lemma_grouping_is_a_partition(rest);
        lemma_position(before, key);
        lemma_values_of_absent_key(rest, key);
        let at = position(before, key);
        assert forall|i: int, j: int|
            #![trigger after[i], after[j]]
            0 <= i < j < after.len() implies after[i].0 != after[j].0 by {
            if at >= 0 {
                assert(before[i].0 == after[i].0);
                assert(before[j].0 == after[j].0);
            } else if j < before.len() {
                assert(before[i].0 != before[j].0);
            }
        }
        assert forall|i: int| 0 <= i < after.len() implies (#[trigger] after[i]).1
            == values_of_key(entries, after[i].0) by {
            if at >= 0 && i != at {
                assert(before[i].0 != before[at].0);
                assert(after[i] == before[i]);
            } else if at < 0 && i < before.len() {
                assert(after[i] == before[i]);
            } else if at < 0 {
                assert(values_of_key(rest, key) =~= Seq::<V>::empty());
                assert(seq![value] =~= values_of_key(rest, key).push(value));
            }
        }
        assert forall|e: int| 0 <= e < entries.len() implies position(
            after,
            (#[trigger] entries[e]).0,
        ) >= 0 by {
            let k = entries[e].0;
            lemma_position(after, k);
            lemma_position(before, k);
            if e < rest.len() {
                assert(rest[e] == entries[e]);
                let p = position(before, k);
                assert(after[p].0 == before[p].0);
            } else if at >= 0 {
                assert(after[at].0 == key);
            } else {
                assert(after[before.len() as int].0 == key);
            }
        }
    }
}

/// A key that has no group has no value.
proof fn lemma_values_of_absent_key<K, V>(entries: Seq<(K, V)>, key: K)
    ensures
        position(grouped(entries), key) < 0 ==> values_of_key(entries, key).len() == 0,
    decreases entries.len(),
{
    if entries.len() > 0 {
        let rest = entries.drop_last();
        let before = grouped(rest);
        lemma_values_of_absent_key(rest, key);
        lemma_position(before, key);
        lemma_position(before, entries.last().0);
        lemma_position(grouped(entries), key);
        let after = grouped(entries);
        if position(after, key) < 0 {
            let p = position(before, key);
            if p >= 0 {
                assert(after[p].0 == before[p].0);
            }
            if entries.last().0 == key {
                let q = position(before, key);
                if q >= 0 {
                    assert(after[q].0 == key);
                } else {
                    assert(after[before.len() as int].0 == key);
                }
            }
        }
    }
}

/// Put a value behind the others of its key, or into a new group at the end.
pub fn add_to_group<K: GroupKey, V>(groups: &mut Vec<Group<K, V>>, key: K, value: V)
    ensures
        groups_view(final(groups)@) == added(groups_view(old(groups)@), key, value),
{
    let ghost before = groups_view(groups@);
    let count: usize = groups.len();
    let mut index: usize = 0;
    proof {
        lemma_position(before, key);
    }
    while index < count
        invariant
            count == groups@.len(),
            index <= count,
            before == groups_view(groups@),
            groups@ == old(groups)@,
            forall|i: int| 0 <= i < index ==> (#[trigger] before[i]).0 != key,
        decreases count - index,
    {
        if groups[index].key.same(&key) {
            proof {
                lemma_position(before, key);
                lemma_first_position(before, key, index as int);
            }
            groups[index].items.push(value);
            assert(groups_view(groups@) =~= added(before, key, value));
            return;
        }
        assert(before[index as int].0 != key);
        index = index + 1;
    }
    proof {
        lemma_position(before, key);
    }
    let mut items: Vec<V> = Vec::new();
    items.push(value);
    groups.push(Group { key, items });
    assert(items@ =~= seq![value]);
    assert(groups_view(groups@) =~= added(before, key, value));
}

/// The first group of a key is the one that is found.
proof fn lemma_first_position<K, V>(groups: Seq<(K, Seq<V>)>, key: K, at: int)
    requires
        0 <= at < groups.len(),
        groups[at].0 == key,
        forall|i: int| 0 <= i < at ==> (#[trigger] groups[i]).0 != key,
    ensures
        position(groups, key) == at,
    decreases groups.len(),
{
    lemma_position(groups.drop_last(), key);
    if at < groups.len() - 1 {
        assert(groups.drop_last()[at] == groups[at]);
        assert forall|i: int| 0 <= i < at implies (#[trigger] groups.drop_last()[i]).0 != key by {
            assert(groups.drop_last()[i] == groups[i]);
        }
        lemma_first_position(groups.drop_last(), key, at);
    } else {
        let earlier = position(groups.drop_last(), key);
        if earlier >= 0 {
            assert(groups.drop_last()[earlier] == groups[earlier]);
        }
    }
}

} // verus!
