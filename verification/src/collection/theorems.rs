use vstd::prelude::*;
use crate::collection::backend::memory::InMemoryPerProcess;
use crate::collection::model::{
    appended, deleted, first_of, first_replaced, flat, has_key, kept, kept_records, lemma_slot,
    slot_of, stored, values_of, well_formed, KeyedValues, Record,
};
use crate::variables::exclusion::Exclusion;
use crate::variables::pattern::PatternModel;
use crate::variables::value::{collection_record, ValueModel};
use crate::collection::{compartment_key, Collection};

verus! {

/// Storing a value keeps the store well formed, puts the value behind the
/// values that `key` had, and leaves every other key as it was.
pub proof fn lemma_stored(m: Seq<KeyedValues>, key: Seq<char>, value: Seq<char>, other: Seq<char>)
    requires
        well_formed(m),
    ensures
        well_formed(stored(m, key, value)),
        has_key(stored(m, key, value), key),
        values_of(stored(m, key, value), key) == values_of(m, key).push(value),
        other != key ==> has_key(stored(m, key, value), other) == has_key(m, other),
        other != key ==> values_of(stored(m, key, value), other) == values_of(m, other),
{
    let s = stored(m, key, value);
    let i = if has_key(m, key) { slot_of(m, key) } else { m.len() as int };
    assert(s.len() > i && s[i].key == key);
    assert forall|a: int, b: int| 0 <= a < b < s.len() implies (#[trigger] s[a]).key != (
    #[trigger] s[b]).key by {
        if b < m.len() {
            assert(m[a].key != m[b].key);
        } else {
            assert(m[a].key == s[a].key);
        }
    }
    assert forall|a: int| 0 <= a < s.len() implies (#[trigger] s[a]).values.len() > 0 by {
        if a != i {
            assert(m[a].values.len() > 0);
        }
    }
    lemma_slot(s, i);
    if has_key(m, key) {
        lemma_slot(m, i);
    }
    if other != key {
        if has_key(m, other) {
            let j = slot_of(m, other);
            lemma_slot(m, j);
            assert(s[j].key == other);
            lemma_slot(s, j);
        }
        if has_key(s, other) {
            let j = slot_of(s, other);
            assert(j != i);
            assert(m[j].key == other);
            lemma_slot(m, j);
            lemma_slot(s, j);
        }
    }
}

/// Replacing the earliest value changes that value alone: the key keeps the
/// number of its values and the later ones, and every other key is as it was.
pub proof fn lemma_first_replaced(
    m: Seq<KeyedValues>,
    key: Seq<char>,
    value: Seq<char>,
    other: Seq<char>,
)
    requires
        well_formed(m),
    ensures
        well_formed(first_replaced(m, key, value)),
        has_key(first_replaced(m, key, value), other) == has_key(m, other),
        has_key(m, key) ==> values_of(first_replaced(m, key, value), key) == values_of(
            m,
            key,
        ).update(0, value),
        !has_key(m, key) ==> first_replaced(m, key, value) == m,
        other != key ==> values_of(first_replaced(m, key, value), other) == values_of(m, other),
{
    let s = first_replaced(m, key, value);
    if has_key(m, key) {
        let i = slot_of(m, key);
        lemma_slot(m, i);
        assert forall|a: int, b: int| 0 <= a < b < s.len() implies (#[trigger] s[a]).key != (
        #[trigger] s[b]).key by {
            assert(m[a].key != m[b].key);
        }
        assert forall|a: int| 0 <= a < s.len() implies (#[trigger] s[a]).values.len() > 0 by {
            assert(m[a].values.len() > 0);
        }
        lemma_slot(s, i);
        if has_key(m, other) {
            let j = slot_of(m, other);
            lemma_slot(m, j);
            assert(s[j].key == other);
            lemma_slot(s, j);
        }
        if has_key(s, other) {
            let j = slot_of(s, other);
            assert(m[j].key == other);
            lemma_slot(m, j);
            lemma_slot(s, j);
        }
    }
}

/// Deleting a key removes it with all its values and leaves every other key as
/// it was.
pub proof fn lemma_deleted(m: Seq<KeyedValues>, key: Seq<char>, other: Seq<char>)
    requires
        well_formed(m),
    ensures
        well_formed(deleted(m, key)),
        !has_key(deleted(m, key), key),
        values_of(deleted(m, key), key) == Seq::<Seq<char>>::empty(),
        first_of(deleted(m, key), key) == None::<Seq<char>>,
        other != key ==> has_key(deleted(m, key), other) == has_key(m, other),
        other != key ==> values_of(deleted(m, key), other) == values_of(m, other),
{
    let s = deleted(m, key);
    if has_key(m, key) {
        let i = slot_of(m, key);
        lemma_slot(m, i);
        assert forall|a: int, b: int| 0 <= a < b < s.len() implies (#[trigger] s[a]).key != (
        #[trigger] s[b]).key by {
            let a0 = if a < i { a } else { a + 1 };
            let b0 = if b < i { b } else { b + 1 };
            assert(s[a] == m[a0] && s[b] == m[b0]);
            assert(m[a0].key != m[b0].key);
        }
        assert forall|a: int| 0 <= a < s.len() implies (#[trigger] s[a]).values.len() > 0 by {
            let a0 = if a < i { a } else { a + 1 };
            assert(s[a] == m[a0]);
            assert(m[a0].values.len() > 0);
        }
        if has_key(s, key) {
            let j = slot_of(s, key);
            let j0 = if j < i { j } else { j + 1 };
            assert(s[j] == m[j0]);
            if j0 < i {
                assert(m[j0].key != m[i].key);
            } else {
                assert(m[i].key != m[j0].key);
            }
        }
        if other != key {
            if has_key(m, other) {
                let j = slot_of(m, other);
                lemma_slot(m, j);
                let j1 = if j < i { j } else { j - 1 };
                assert(s[j1] == m[j]);
                lemma_slot(s, j1);
            }
            if has_key(s, other) {
                let j = slot_of(s, other);
                let j0 = if j < i { j } else { j + 1 };
                assert(s[j] == m[j0]);
                lemma_slot(m, j0);
                lemma_slot(s, j);
            }
        }
    }
}

/// No record of a scan stands under a key that the store does not have.
pub proof fn lemma_flat_keys(m: Seq<KeyedValues>, i: int)
    requires
        0 <= i < flat(m).len(),
    ensures
        has_key(m, flat(m)[i].key),
    decreases m.len(),
{
    if m.len() > 0 {
        let head = m.drop_last();
        if i < flat(head).len() {
            lemma_flat_keys(head, i);
            let j = choose|j: int|
                0 <= j < head.len() && (#[trigger] head[j]).key == flat(m)[i].key;
            assert(m[j].key == flat(m)[i].key);
        } else {
            assert(m[m.len() - 1].key == flat(m)[i].key);
        }
    }
}

/// Every value that a scan reports stands under the key of one of the records scanned.
pub proof fn lemma_kept_keys(
    name: Seq<char>,
    records: Seq<Record>,
    exclusions: Seq<Exclusion>,
    pattern: Option<PatternModel>,
    j: int,
)
    requires
        0 <= j < kept_records(name, records, exclusions, pattern).len(),
    ensures
        exists|i: int|
            0 <= i < records.len() && (#[trigger] records[i]).key == kept_records(
                name,
                records,
                exclusions,
                pattern,
            )[j].key,
    decreases records.len(),
{
    if records.len() > 0 {
        let head = records.drop_last();
        if j < kept_records(name, head, exclusions, pattern).len() {
            lemma_kept_keys(name, head, exclusions, pattern, j);
            let i = choose|i: int|
                0 <= i < head.len() && (#[trigger] head[i]).key == kept_records(
                    name,
                    head,
                    exclusions,
                    pattern,
                )[j].key;
            assert(records[i].key == head[i].key);
        } else {
            assert(records[records.len() - 1].key == records.last().key);
        }
    }
}

/// A scan reports nothing under a key that an exclusion matches or that the
/// pattern does not match.
pub proof fn scan_leaves_out_what_is_not_kept(
    name: Seq<char>,
    records: Seq<Record>,
    exclusions: Seq<Exclusion>,
    pattern: Option<PatternModel>,
    j: int,
)
    requires
        0 <= j < kept_records(name, records, exclusions, pattern).len(),
    ensures
        kept(exclusions, pattern, kept_records(name, records, exclusions, pattern)[j].key),
    decreases records.len(),
{
    if records.len() > 0 {
        let head = records.drop_last();
        if j < kept_records(name, head, exclusions, pattern).len() {
            scan_leaves_out_what_is_not_kept(name, head, exclusions, pattern, j);
        }
    }
}

/// A scan reports every record whose key is kept, as the record of its value
/// in the collection.
pub proof fn scan_reports_what_is_kept(
    name: Seq<char>,
    records: Seq<Record>,
    exclusions: Seq<Exclusion>,
    pattern: Option<PatternModel>,
    i: int,
)
    requires
        0 <= i < records.len(),
        kept(exclusions, pattern, records[i].key),
    ensures
        exists|j: int|
            0 <= j < kept_records(name, records, exclusions, pattern).len() && #[trigger] kept_records(
                name,
                records,
                exclusions,
                pattern,
            )[j] == collection_record(name, records[i].key, records[i].value),
    decreases records.len(),
{
    let head = records.drop_last();
    let all = kept_records(name, records, exclusions, pattern);
    if i < records.len() - 1 {
        scan_reports_what_is_kept(name, head, exclusions, pattern, i);
        let j = choose|j: int|
            0 <= j < kept_records(name, head, exclusions, pattern).len() && #[trigger] kept_records(
                name,
                head,
                exclusions,
                pattern,
            )[j] == collection_record(name, head[i].key, head[i].value);
        assert(all[j] == collection_record(name, records[i].key, records[i].value));
    } else {
        assert(all[all.len() - 1] == collection_record(name, records[i].key, records[i].value));
    }
}

/// A key inside a compartment is never the bare key, and one key inside two
/// different compartments gives two different keys.
pub proof fn lemma_compartment_keys_differ(
    compartment: Seq<char>,
    other_compartment: Seq<char>,
    key: Seq<char>,
)
    ensures
        compartment_key(compartment, key) != key,
        compartment != other_compartment ==> compartment_key(compartment, key) != compartment_key(
            other_compartment,
            key,
        ),
{
    let a = compartment_key(compartment, key);
    let b = compartment_key(other_compartment, key);
    assert(a.len() == compartment.len() + 2 + key.len());
    assert(b.len() == other_compartment.len() + 2 + key.len());
    if a == b {
        assert(compartment.len() == other_compartment.len());
        assert forall|i: int| 0 <= i < compartment.len() implies compartment[i]
            == other_compartment[i] by {
            assert(a[i] == compartment[i]);
            assert(b[i] == other_compartment[i]);
        }
        assert(compartment =~= other_compartment);
    }
}

/// After a value is stored under a key, resolving the first value of the key
/// gives the value that was the earliest before, and the stored value where
/// the key had none. The guard must be free: a write under a held guard is dropped.
pub proof fn store_then_resolve_first(
    before: InMemoryPerProcess,
    after: InMemoryPerProcess,
    key: Seq<char>,
    value: Seq<char>,
)
    requires
        before.inv(),
        !before@.locked,
        before.stores(&after, key, value),
    ensures
        after.inv(),
        !has_key(before@.store, key) ==> after.resolves_first(key, Some(value)),
        has_key(before@.store, key) ==> after.resolves_first(key, first_of(before@.store, key)),
{
    lemma_stored(before@.store, key, value, key);
    if has_key(before@.store, key) {
        lemma_slot(before@.store, slot_of(before@.store, key));
    }
}

/// Updating the first value after a store replaces the earliest value alone:
/// the key has as many values as before the update, the first of them is the
/// new value, and the later ones are as they were.
pub proof fn update_first_after_store(
    before: InMemoryPerProcess,
    middle: InMemoryPerProcess,
    after: InMemoryPerProcess,
    key: Seq<char>,
    first_value: Seq<char>,
    second_value: Seq<char>,
    updated: bool,
    list: Seq<ValueModel>,
)
    requires
        before.inv(),
        !before@.locked,
        before.stores(&middle, key, first_value),
        middle.updates_first(&after, key, second_value, updated),
    ensures
        after.inv(),
        updated,
        values_of(after@.store, key).len() == values_of(middle@.store, key).len(),
        values_of(after@.store, key) == values_of(middle@.store, key).update(0, second_value),
        after.resolves_first(key, Some(second_value)),
        after.resolves_single_match(
            key,
            list,
            appended(list, after@.name, key, values_of(middle@.store, key).update(0, second_value)),
        ),
        appended(list, after@.name, key, values_of(after@.store, key)).len() == appended(
            list,
            middle@.name,
            key,
            values_of(middle@.store, key),
        ).len(),
{
    lemma_stored(before@.store, key, first_value, key);
    lemma_first_replaced(middle@.store, key, second_value, key);
}

/// `store_or_update_first` makes the key on the first call and replaces its
/// value in place on the next: the key never gains a second value this way.
pub proof fn store_or_update_first_twice(
    before: InMemoryPerProcess,
    middle: InMemoryPerProcess,
    after: InMemoryPerProcess,
    key: Seq<char>,
    first_value: Seq<char>,
    second_value: Seq<char>,
)
    requires
        before.inv(),
        !before@.locked,
        before.stores_or_updates_first(&middle, key, first_value),
        middle.stores_or_updates_first(&after, key, second_value),
    ensures
        after.inv(),
        has_key(middle@.store, key),
        values_of(after@.store, key).len() == values_of(middle@.store, key).len(),
        after.resolves_first(key, Some(second_value)),
        !has_key(before@.store, key) ==> values_of(middle@.store, key) == seq![first_value]
            && values_of(after@.store, key) == seq![second_value],
        has_key(before@.store, key) ==> values_of(middle@.store, key).len() == values_of(
            before@.store,
            key,
        ).len(),
{
    lemma_stored(before@.store, key, first_value, key);
    lemma_first_replaced(before@.store, key, first_value, key);
    lemma_first_replaced(middle@.store, key, second_value, key);
    if has_key(before@.store, key) {
        lemma_slot(before@.store, slot_of(before@.store, key));
    } else {
        assert(values_of(middle@.store, key) =~= seq![first_value]);
        assert(values_of(after@.store, key) =~= seq![second_value]);
    }
    lemma_slot(middle@.store, slot_of(middle@.store, key));
}

/// After a key is deleted it has no first value, and a scan over every key
/// reports no value under it, whatever the exclusions.
pub proof fn del_removes_all(
    before: InMemoryPerProcess,
    after: InMemoryPerProcess,
    key: Seq<char>,
    exclusions: Seq<Exclusion>,
    list_before: Seq<ValueModel>,
    list_after: Seq<ValueModel>,
)
    requires
        before.inv(),
        !before@.locked,
        before.deletes(&after, key),
        after.resolves_multi_matches(Seq::empty(), exclusions, list_before, list_after),
    ensures
        after.inv(),
        after.resolves_first(key, None),
        list_after.len() >= list_before.len(),
        list_after.subrange(list_after.len() - list_before.len(), list_after.len() as int)
            == list_before,
        forall|j: int|
            0 <= j < list_after.len() - list_before.len() ==> (#[trigger] list_after[j]).key
                != key,
{
    lemma_deleted(before@.store, key, key);
    let records = flat(after@.store);
    let reported = kept_records(after@.name, records, exclusions, None);
    assert(list_after == reported.reverse() + list_before);
    assert(list_after.subrange(list_after.len() - list_before.len(), list_after.len() as int)
        =~= list_before);
    assert forall|j: int| 0 <= j < list_after.len() - list_before.len() implies (
    #[trigger] list_after[j]).key != key by {
        let k = reported.len() - 1 - j;
        assert(list_after[j] == reported[k]);
        lemma_kept_keys(after@.name, records, exclusions, None, k);
        let i = choose|i: int|
            0 <= i < records.len() && (#[trigger] records[i]).key == reported[k].key;
        lemma_flat_keys(after@.store, i);
    }
}

/// A value stored inside a compartment shows under that compartment's key and
/// nowhere else: the bare key and the same key inside any other compartment
/// hold what they held.
pub proof fn compartment_store_is_isolated(
    before: InMemoryPerProcess,
    after: InMemoryPerProcess,
    key: Seq<char>,
    value: Seq<char>,
    compartment: Seq<char>,
    other_compartment: Seq<char>,
)
    requires
        before.inv(),
        !before@.locked,
        before.stores(&after, compartment_key(compartment, key), value),
    ensures
        after.inv(),
        values_of(after@.store, compartment_key(compartment, key)) == values_of(
            before@.store,
            compartment_key(compartment, key),
        ).push(value),
        values_of(after@.store, key) == values_of(before@.store, key),
        after.resolves_first(key, first_of(before@.store, key)),
        other_compartment != compartment ==> values_of(
            after@.store,
            compartment_key(other_compartment, key),
        ) == values_of(before@.store, compartment_key(other_compartment, key)),
{
    lemma_compartment_keys_differ(compartment, other_compartment, key);
    lemma_stored(before@.store, compartment_key(compartment, key), value, key);
    lemma_stored(
        before@.store,
        compartment_key(compartment, key),
        value,
        compartment_key(other_compartment, key),
    );
}

} // verus!
