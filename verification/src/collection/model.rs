use vstd::prelude::*;
use crate::text::same_text;
use crate::variables::exclusion::{omitted, Exclusion, KeyExclusions};
use crate::variables::pattern::{found_in, Pattern, PatternModel};
use crate::variables::value::{collection_record, models, ValueModel, VariableValue};

verus! {

/// One stored value with the key it stands under.
pub struct Record {
    pub key: Seq<char>,
    pub value: Seq<char>,
}

/// One key of a store with its values, earliest first.
pub struct KeyedValues {
    pub key: Seq<char>,
    pub values: Seq<Seq<char>>,
}

/// A store is well formed when no key stands twice and every key has a value.
pub open spec fn well_formed(m: Seq<KeyedValues>) -> bool {
    &&& forall|i: int, j: int|
        0 <= i < j < m.len() ==> (#[trigger] m[i]).key != (#[trigger] m[j]).key
    &&& forall|i: int| 0 <= i < m.len() ==> (#[trigger] m[i]).values.len() > 0
}

pub open spec fn has_key(m: Seq<KeyedValues>, key: Seq<char>) -> bool {
    exists|i: int| 0 <= i < m.len() && (#[trigger] m[i]).key == key
}

/// The place of `key` in a store that has it.
pub open spec fn slot_of(m: Seq<KeyedValues>, key: Seq<char>) -> int {
    choose|i: int| 0 <= i < m.len() && (#[trigger] m[i]).key == key
}

/// The values of `key`, earliest first; none where the key is absent.
pub open spec fn values_of(m: Seq<KeyedValues>, key: Seq<char>) -> Seq<Seq<char>> {
    if has_key(m, key) {
        m[slot_of(m, key)].values
    } else {
        Seq::empty()
    }
}

/// The earliest value of `key`.
pub open spec fn first_of(m: Seq<KeyedValues>, key: Seq<char>) -> Option<Seq<char>> {
    if values_of(m, key).len() > 0 {
        Some(values_of(m, key)[0])
    } else {
        None
    }
}

/// The store after `value` is put behind the values of `key`. A new key comes last.
pub open spec fn stored(m: Seq<KeyedValues>, key: Seq<char>, value: Seq<char>) -> Seq<KeyedValues> {
    if has_key(m, key) {
        let i = slot_of(m, key);
        m.update(i, KeyedValues { key, values: m[i].values.push(value) })
    } else {
        m.push(KeyedValues { key, values: seq![value] })
    }
}

/// The store after the earliest value of `key` is replaced; the same store
/// where the key is absent.
pub open spec fn first_replaced(
    m: Seq<KeyedValues>,
    key: Seq<char>,
    value: Seq<char>,
) -> Seq<KeyedValues> {
    if has_key(m, key) {
        let i = slot_of(m, key);
        m.update(i, KeyedValues { key, values: m[i].values.update(0, value) })
    } else {
        m
    }
}

/// The store without `key`.
pub open spec fn deleted(m: Seq<KeyedValues>, key: Seq<char>) -> Seq<KeyedValues> {
    if has_key(m, key) {
        m.remove(slot_of(m, key))
    } else {
        m
    }
}

/// The records of one key, earliest first.
pub open spec fn records_of(b: KeyedValues) -> Seq<Record> {
    Seq::new(b.values.len(), |j: int| Record { key: b.key, value: b.values[j] })
}

/// The records of a store in the order of a scan: key by key, and within a
/// key earliest first.
pub open spec fn flat(m: Seq<KeyedValues>) -> Seq<Record>
    decreases m.len(),
{
    if m.len() == 0 {
        Seq::empty()
    } else {
        flat(m.drop_last()) + records_of(m.last())
    }
}

/// In a well-formed store the place of a key is the one place where it stands.
pub proof fn lemma_slot(m: Seq<KeyedValues>, i: int)
    requires
        well_formed(m),
        0 <= i < m.len(),
    ensures
        has_key(m, m[i].key),
        slot_of(m, m[i].key) == i,
        values_of(m, m[i].key) == m[i].values,
{
    let key = m[i].key;
    assert(has_key(m, key));
    let j = slot_of(m, key);
    if j < i {
        assert(m[j].key != m[i].key);
    } else if i < j {
        assert(m[i].key != m[j].key);
    }
}

/// Whether a scan reports the records of `key`: no exclusion matches it, and
/// the pattern, where there is one, does.
pub open spec fn kept(
    exclusions: Seq<Exclusion>,
    pattern: Option<PatternModel>,
    key: Seq<char>,
) -> bool {
    !omitted(exclusions, key) && match pattern {
        Some(p) => found_in(p, key),
        None => true,
    }
}

/// What a scan over `records` reports, in the order of the scan.
pub open spec fn kept_records(
    name: Seq<char>,
    records: Seq<Record>,
    exclusions: Seq<Exclusion>,
    pattern: Option<PatternModel>,
) -> Seq<ValueModel>
    decreases records.len(),
{
    if records.len() == 0 {
        Seq::empty()
    } else {
        let rest = kept_records(name, records.drop_last(), exclusions, pattern);
        let r = records.last();
        if kept(exclusions, pattern, r.key) {
            rest.push(collection_record(name, r.key, r.value))
        } else {
            rest
        }
    }
}

/// The output list after a scan over `records`: each reported value is put in
/// front of the list, so the record scanned last comes first.
pub open spec fn prepended(
    before: Seq<ValueModel>,
    name: Seq<char>,
    records: Seq<Record>,
    exclusions: Seq<Exclusion>,
    pattern: Option<PatternModel>,
) -> Seq<ValueModel> {
    kept_records(name, records, exclusions, pattern).reverse() + before
}

/// The output list after the values of one key are put behind it, first value first.
pub open spec fn appended(
    before: Seq<ValueModel>,
    name: Seq<char>,
    key: Seq<char>,
    values: Seq<Seq<char>>,
) -> Seq<ValueModel> {
    before + Seq::new(values.len(), |i: int| collection_record(name, key, values[i]))
}

/// Scanning one more record puts its value in front of the list, or leaves the
/// list as it is where the key is not reported.
pub proof fn lemma_prepended_step(
    before: Seq<ValueModel>,
    name: Seq<char>,
    records: Seq<Record>,
    r: Record,
    exclusions: Seq<Exclusion>,
    pattern: Option<PatternModel>,
)
    ensures
        prepended(before, name, records.push(r), exclusions, pattern) == if kept(
            exclusions,
            pattern,
            r.key,
        ) {
            seq![collection_record(name, r.key, r.value)] + prepended(
                before,
                name,
                records,
                exclusions,
                pattern,
            )
        } else {
            prepended(before, name, records, exclusions, pattern)
        },
{
    assert(records.push(r).drop_last() =~= records);
    let rest = kept_records(name, records, exclusions, pattern);
    if kept(exclusions, pattern, r.key) {
        let v = collection_record(name, r.key, r.value);
        assert(rest.push(v).reverse() =~= seq![v] + rest.reverse());
        assert(rest.push(v).reverse() + before =~= seq![v] + (rest.reverse() + before));
    }
}

/// A scan over no records leaves the list as it is.
pub proof fn lemma_prepended_none(
    before: Seq<ValueModel>,
    name: Seq<char>,
    exclusions: Seq<Exclusion>,
    pattern: Option<PatternModel>,
)
    ensures
        prepended(before, name, Seq::empty(), exclusions, pattern) == before,
{
    assert(Seq::<ValueModel>::empty().reverse() + before =~= before);
}

/// Scanning two runs of records one after the other is scanning them as one run.
pub proof fn lemma_prepended_concat(
    before: Seq<ValueModel>,
    name: Seq<char>,
    first: Seq<Record>,
    second: Seq<Record>,
    exclusions: Seq<Exclusion>,
    pattern: Option<PatternModel>,
)
    ensures
        prepended(before, name, first + second, exclusions, pattern) == prepended(
            prepended(before, name, first, exclusions, pattern),
            name,
            second,
            exclusions,
            pattern,
        ),
    decreases second.len(),
{
    let middle = prepended(before, name, first, exclusions, pattern);
    if second.len() == 0 {
        assert(first + second =~= first);
        lemma_prepended_none(middle, name, exclusions, pattern);
    } else {
        let head = second.drop_last();
        let r = second.last();
        assert(second =~= head.push(r));
        assert(first + second =~= (first + head).push(r));
        lemma_prepended_concat(before, name, first, head, exclusions, pattern);
        lemma_prepended_step(before, name, first + head, r, exclusions, pattern);
        lemma_prepended_step(middle, name, head, r, exclusions, pattern);
    }
}

/// The pattern of an optional compiled pattern, as plain values.
pub open spec fn pattern_model(pattern: Option<&Pattern>) -> Option<PatternModel> {
    match pattern {
        Some(p) => Some(p@),
        None => None,
    }
}

/// Decides once whether the records of `key` are reported.
pub fn key_is_kept(key: &str, exclusions: &KeyExclusions, pattern: Option<&Pattern>) -> (r: bool)
    ensures
        r == kept(exclusions@, pattern_model(pattern), key@),
{
    if exclusions.to_omit(key) {
        return false;
    }
    match pattern {
        Some(p) => p.is_match(key),
        None => true,
    }
}

/// Puts the record of one value in front of the output list.
pub fn prepend_record(name: &str, key: &str, value: &str, out: &mut Vec<VariableValue>)
    ensures
        models(final(out)@) == seq![collection_record(name@, key@, value@)] + models(old(out)@),
{
    let v = VariableValue::new_with_collection(name, key, value);
    out.insert(0, v);
    assert(models(out@) =~= seq![collection_record(name@, key@, value@)] + models(old(out)@));
}

/// Puts the record of one value behind the output list.
pub fn append_record(name: &str, key: &str, value: &str, out: &mut Vec<VariableValue>)
    ensures
        models(final(out)@) == models(old(out)@).push(collection_record(name@, key@, value@)),
{
    let v = VariableValue::new_with_collection(name, key, value);
    out.push(v);
    assert(models(out@) =~= models(old(out)@).push(collection_record(name@, key@, value@)));
}

/// The records that a list of pairs of key and value stands for.
pub open spec fn pairs_as_records(pairs: Seq<(String, String)>) -> Seq<Record> {
    Seq::new(pairs.len(), |i: int| Record { key: pairs[i].0@, value: pairs[i].1@ })
}

/// Puts what a scan over `pairs` reports in front of `l`: the pairs are taken
/// in their order, each as a key and one of its values.
pub fn prepend_scanned(
    name: &str,
    pairs: &Vec<(String, String)>,
    exclusions: &KeyExclusions,
    pattern: Option<&Pattern>,
    l: &mut Vec<VariableValue>,
)
    ensures
        models(final(l)@) == prepended(
            models(old(l)@),
            name@,
            pairs_as_records(pairs@),
            exclusions@,
            pattern_model(pattern),
        ),
{
    let ghost records = pairs_as_records(pairs@);
    proof {
        lemma_prepended_none(models(l@), name@, exclusions@, pattern_model(pattern));
        assert(records.take(0) =~= Seq::empty());
    }
    let mut i: usize = 0;
    // Whether the key of the pair before this one is reported: pairs of one key
    // stand together, so the question is asked once for each run of a key.
    let mut keep: bool = false;
    while i < pairs.len()
        invariant
            i <= pairs@.len(),
            records == pairs_as_records(pairs@),
            i > 0 ==> keep == kept(exclusions@, pattern_model(pattern), pairs@[i - 1].0@),
            models(l@) == prepended(
                models(old(l)@),
                name@,
                records.take(i as int),
                exclusions@,
                pattern_model(pattern),
            ),
        decreases pairs.len() - i,
    {
        proof {
            assert(records.take(i + 1) =~= records.take(i as int).push(records[i as int]));
            lemma_prepended_step(
                models(old(l)@),
                name@,
                records.take(i as int),
                records[i as int],
                exclusions@,
                pattern_model(pattern),
            );
        }
        let pair = &pairs[i];
        if i == 0 || !same_text(pair.0.as_str(), pairs[i - 1].0.as_str()) {
            keep = key_is_kept(pair.0.as_str(), exclusions, pattern);
        }
        if keep {
            prepend_record(name, pair.0.as_str(), pair.1.as_str(), l);
        }
        i = i + 1;
    }
    assert(records.take(i as int) =~= records);
}

} // verus!
