use vstd::prelude::*;
use vstd::string::StringExecFns;
use vstd::string::StringSliceAdditionalSpecFns;
use crate::collection::model::{kept, key_is_kept, pattern_model};
use crate::text::same_text;
use crate::transaction::Transaction;
use crate::variables::anchored::scalar::origin_at;
use crate::variables::exclusion::{Exclusion, KeyExclusions};
use crate::variables::origin::VariableOrigin;
use crate::variables::pattern::{parsed, Pattern, PatternModel};
use crate::variables::value::{collection_record, models, ValueModel, VariableValue};

verus! {

/// One key of a set variable with its records, earliest first.
pub struct KeyedRecords {
    pub key: Seq<char>,
    pub values: Seq<ValueModel>,
}

/// What an `AnchoredSetVariable` holds, as plain values.
pub struct SetModel {
    pub name: Seq<char>,
    /// The keys in the order in which each was first set, with their records.
    pub entries: Seq<KeyedRecords>,
}

/// No key stands twice and every key has a record.
pub open spec fn entries_well_formed(e: Seq<KeyedRecords>) -> bool {
    &&& forall|i: int, j: int|
        0 <= i < j < e.len() ==> (#[trigger] e[i]).key != (#[trigger] e[j]).key
    &&& forall|i: int| 0 <= i < e.len() ==> (#[trigger] e[i]).values.len() > 0
}

pub open spec fn holds_key(e: Seq<KeyedRecords>, key: Seq<char>) -> bool {
    exists|i: int| 0 <= i < e.len() && (#[trigger] e[i]).key == key
}

/// The place of `key` among entries that hold it.
pub open spec fn place_of(e: Seq<KeyedRecords>, key: Seq<char>) -> int {
    choose|i: int| 0 <= i < e.len() && (#[trigger] e[i]).key == key
}

/// The records of `key`, earliest first; none where the key is absent.
pub open spec fn records_under(e: Seq<KeyedRecords>, key: Seq<char>) -> Seq<ValueModel> {
    if holds_key(e, key) {
        e[place_of(e, key)].values
    } else {
        Seq::empty()
    }
}

/// The entries after `record` is put behind the records of `key`. A new key comes last.
pub open spec fn with_record(
    e: Seq<KeyedRecords>,
    key: Seq<char>,
    record: ValueModel,
) -> Seq<KeyedRecords> {
    if holds_key(e, key) {
        let i = place_of(e, key);
        e.update(i, KeyedRecords { key, values: e[i].values.push(record) })
    } else {
        e.push(KeyedRecords { key, values: seq![record] })
    }
}

/// The record of `value` under `key` in the variable `name`, with its one range.
pub open spec fn set_record(
    name: Seq<char>,
    key: Seq<char>,
    value: Seq<char>,
    length: usize,
    offset: usize,
) -> ValueModel {
    ValueModel { origin: seq![origin_at(length, offset)], ..collection_record(name, key, value) }
}

/// The records that a scan over the entries reports, in the order of the scan.
pub open spec fn reported(
    e: Seq<KeyedRecords>,
    exclusions: Seq<Exclusion>,
    pattern: Option<PatternModel>,
) -> Seq<ValueModel>
    decreases e.len(),
{
    if e.len() == 0 {
        Seq::empty()
    } else if kept(exclusions, pattern, e.last().key) {
        reported(e.drop_last(), exclusions, pattern) + e.last().values
    } else {
        reported(e.drop_last(), exclusions, pattern)
    }
}

/// The keys of the entries, in their order.
pub open spec fn keys_of(e: Seq<KeyedRecords>) -> Seq<Seq<char>> {
    Seq::new(e.len(), |i: int| e[i].key)
}

/// Among well-formed entries the place of a key is the one place where it stands.
pub proof fn lemma_place(e: Seq<KeyedRecords>, i: int)
    requires
        entries_well_formed(e),
        0 <= i < e.len(),
    ensures
        holds_key(e, e[i].key),
        place_of(e, e[i].key) == i,
        records_under(e, e[i].key) == e[i].values,
{
    let key = e[i].key;
    assert(holds_key(e, key));
    let j = place_of(e, key);
    if j < i {
        assert(e[j].key != e[i].key);
    } else if i < j {
        assert(e[i].key != e[j].key);
    }
}

/// Putting a record under a key keeps the entries well formed, puts the record
/// behind those that the key had, and leaves every other key as it was.
pub proof fn lemma_with_record(
    e: Seq<KeyedRecords>,
    key: Seq<char>,
    record: ValueModel,
    other: Seq<char>,
)
    requires
        entries_well_formed(e),
    ensures
        entries_well_formed(with_record(e, key, record)),
        holds_key(with_record(e, key, record), key),
        records_under(with_record(e, key, record), key) == records_under(e, key).push(record),
        other != key ==> records_under(with_record(e, key, record), other) == records_under(
            e,
            other,
        ),
{
    let s = with_record(e, key, record);
    let i = if holds_key(e, key) { place_of(e, key) } else { e.len() as int };
    assert(s.len() > i && s[i].key == key);
    assert forall|a: int, b: int| 0 <= a < b < s.len() implies (#[trigger] s[a]).key != (
    #[trigger] s[b]).key by {
        if b < e.len() {
            assert(e[a].key != e[b].key);
        } else {
            assert(e[a].key == s[a].key);
        }
    }
    assert forall|a: int| 0 <= a < s.len() implies (#[trigger] s[a]).values.len() > 0 by {
        if a != i {
            assert(e[a].values.len() > 0);
        }
    }
    lemma_place(s, i);
    if holds_key(e, key) {
        lemma_place(e, i);
    }
    if other != key {
        if holds_key(e, other) {
            let j = place_of(e, other);
            lemma_place(e, j);
            assert(s[j].key == other);
            lemma_place(s, j);
        }
        if holds_key(s, other) {
            let j = place_of(s, other);
            assert(j != i);
            assert(e[j].key == other);
            lemma_place(e, j);
            lemma_place(s, j);
        }
    }
}

/// Two values set under one key are both kept, in the order in which they were set.
pub proof fn set_twice_keeps_both(
    e: Seq<KeyedRecords>,
    key: Seq<char>,
    first: ValueModel,
    second: ValueModel,
)
    requires
        entries_well_formed(e),
    ensures
        records_under(with_record(with_record(e, key, first), key, second), key) == records_under(
            e,
            key,
        ).push(first).push(second),
{
    lemma_with_record(e, key, first, key);
    lemma_with_record(with_record(e, key, first), key, second, key);
}

struct Entry {
    key: String,
    values: Vec<VariableValue>,
}

impl View for Entry {
    type V = KeyedRecords;

    closed spec fn view(&self) -> KeyedRecords {
        KeyedRecords { key: self.key@, values: models(self.values@) }
    }
}

/// One named fact about a transaction that has many values, each under a key.
/// A key may be set more than once: every value is kept.
pub struct AnchoredSetVariable {
    m_name: String,
    m_set: Vec<Entry>,
}

impl View for AnchoredSetVariable {
    type V = SetModel;

    closed spec fn view(&self) -> SetModel {
        SetModel {
            name: self.m_name@,
            entries: Seq::new(self.m_set@.len(), |i: int| self.m_set@[i]@),
        }
    }
}

/// Puts copies of `values` in front of `l`, so that the last of them comes first.
fn prepend_copies(values: &Vec<VariableValue>, l: &mut Vec<VariableValue>)
    ensures
        models(final(l)@) == models(values@).reverse() + models(old(l)@),
{
    let mut j: usize = 0;
    assert(models(l@) =~= models(values@).take(0).reverse() + models(old(l)@));
    while j < values.len()
        invariant
            j <= values@.len(),
            models(l@) == models(values@).take(j as int).reverse() + models(old(l)@),
        decreases values.len() - j,
    {
        let copy = VariableValue::new_from(&values[j]);
        let ghost before = models(l@);
        let ghost done = models(values@).take(j as int);
        let ghost record = copy@;
        l.insert(0, copy);
        j = j + 1;
        assert(models(l@) =~= seq![record] + before);
        assert(models(values@).take(j as int) =~= done.push(record));
        assert(done.push(record).reverse() =~= seq![record] + done.reverse());
        assert(models(l@) =~= models(values@).take(j as int).reverse() + models(old(l)@));
    }
    assert(models(values@).take(j as int) =~= models(values@));
}

impl AnchoredSetVariable {
    pub open spec fn inv(&self) -> bool {
        entries_well_formed(self@.entries)
    }

    /// The set variable `name` of the transaction `t`, with no key.
    pub fn new(t: &Transaction, name: &str) -> (v: AnchoredSetVariable)
        ensures
            v.inv(),
            v@ == (SetModel { name: name@, entries: Seq::empty() }),
    {
        let v = AnchoredSetVariable {
            m_name: String::from_str(name),
            m_set: Vec::with_capacity(1000),
        };
        assert(v@.entries =~= Seq::empty());
        v
    }

    /// Removes every key.
    pub fn unset(&mut self)
        ensures
            final(self).inv(),
            final(self)@ == (SetModel { entries: Seq::empty(), ..old(self)@ }),
    {
        self.m_set = Vec::new();
        assert(self@.entries =~= Seq::empty());
    }

    fn find(&self, key: &str) -> (place: Option<usize>)
        ensures
            match place {
                Some(i) => i < self@.entries.len() && self@.entries[i as int].key == key@,
                None => !holds_key(self@.entries, key@),
            },
    {
        let mut i: usize = 0;
        while i < self.m_set.len()
            invariant
                i <= self.m_set@.len(),
                forall|j: int| 0 <= j < i ==> (#[trigger] self@.entries[j]).key != key@,
            decreases self.m_set.len() - i,
        {
            if same_text(self.m_set[i].key.as_str(), key) {
                return Some(i);
            }
            i = i + 1;
        }
        None
    }

    /// Puts `value`, found at `offset`, behind the values of `key`.
    pub fn set(&mut self, key: &str, value: &str, offset: usize)
        requires
            old(self).inv(),
        ensures
            final(self).inv(),
            final(self)@ == (SetModel {
                entries: with_record(
                    old(self)@.entries,
                    key@,
                    set_record(
                        old(self)@.name,
                        key@,
                        value@,
                        value.spec_bytes().len() as usize,
                        offset,
                    ),
                ),
                ..old(self)@
            }),
    {
        self.set_with_length(key, value, offset, value.len());
    }

    /// As `set`, with the length of the range given.
    pub fn set_with_length(&mut self, key: &str, value: &str, offset: usize, length: usize)
        requires
            old(self).inv(),
        ensures
            final(self).inv(),
            final(self)@ == (SetModel {
                entries: with_record(
                    old(self)@.entries,
                    key@,
                    set_record(old(self)@.name, key@, value@, length, offset),
                ),
                ..old(self)@
            }),
    {
        let origin = VariableOrigin::new_with_props(length, offset);
        let mut var = VariableValue::new_with_collection(self.m_name.as_str(), key, value);
        var.add_origin(origin);
        let ghost record = set_record(old(self)@.name, key@, value@, length, offset);
        assert(var@.origin =~= record.origin);
        assert(var@ == record);
        match self.find(key) {
            Some(i) => {
                proof {
                    lemma_place(self@.entries, i as int);
                }
                self.m_set[i].values.push(var);
                assert(self@.entries[i as int].values =~= old(self)@.entries[i as int].values.push(
                    record,
                ));
                assert(self@.entries =~= with_record(old(self)@.entries, key@, record));
            },
            None => {
                let mut values: Vec<VariableValue> = Vec::new();
                values.push(var);
                self.m_set.push(Entry { key: String::from_str(key), values });
                assert(self@.entries.last().values =~= seq![record]);
                assert(self@.entries =~= with_record(old(self)@.entries, key@, record));
            },
        }
        proof {
            let e = self@.entries;
            let o = old(self)@.entries;
            assert forall|a: int, b: int| 0 <= a < b < e.len() implies (#[trigger] e[a]).key != (
            #[trigger] e[b]).key by {
                if b < o.len() {
                    assert(o[a].key != o[b].key);
                } else {
                    assert(o[a].key == e[a].key);
                }
            }
            assert forall|a: int| 0 <= a < e.len() implies (#[trigger] e[a]).values.len() > 0 by {
                if a < o.len() {
                    assert(o[a].values.len() > 0);
                }
            }
        }
    }

    /// Scans every key in the order in which the keys were first set.
    fn scan(&self, l: &mut Vec<VariableValue>, ke: &KeyExclusions, pattern: Option<&Pattern>)
        ensures
            models(final(l)@) == reported(self@.entries, ke@, pattern_model(pattern)).reverse()
                + models(old(l)@),
    {
        let mut i: usize = 0;
        assert(self@.entries.take(0) =~= Seq::empty());
        assert(models(l@) =~= reported(
            self@.entries.take(0),
            ke@,
            pattern_model(pattern),
        ).reverse() + models(old(l)@));
        while i < self.m_set.len()
            invariant
                i <= self.m_set@.len(),
                self@.entries.len() == self.m_set@.len(),
                models(l@) == reported(
                    self@.entries.take(i as int),
                    ke@,
                    pattern_model(pattern),
                ).reverse() + models(old(l)@),
            decreases self.m_set.len() - i,
        {
            let entry = &self.m_set[i];
            let ghost done = reported(self@.entries.take(i as int), ke@, pattern_model(pattern));
            assert(self@.entries.take(i + 1).drop_last() =~= self@.entries.take(i as int));
            assert(self@.entries.take(i + 1).last() == self@.entries[i as int]);
            if key_is_kept(entry.key.as_str(), ke, pattern) {
                prepend_copies(&entry.values, l);
                assert((done + entry@.values).reverse() + models(old(l)@) =~= entry@.values.reverse()
                    + (done.reverse() + models(old(l)@)));
            }
            i = i + 1;
        }
        assert(self@.entries.take(i as int) =~= self@.entries);
    }

    /// Puts a copy of every record in front of `l`.
    pub fn resolve(&self, l: &mut Vec<VariableValue>)
        ensures
            models(final(l)@) == reported(self@.entries, Seq::empty(), None).reverse() + models(
                old(l)@,
            ),
    {
        let none = KeyExclusions::new();
        self.scan(l, &none, None);
    }

    /// Puts a copy of every record in front of `l`, but for the keys that `ke` excludes.
    pub fn resolve_with_exclusions(&self, l: &mut Vec<VariableValue>, ke: &KeyExclusions)
        ensures
            models(final(l)@) == reported(self@.entries, ke@, None).reverse() + models(old(l)@),
    {
        self.scan(l, ke, None);
    }

    /// Puts copies of the records of exactly `key` behind `l`, earliest first.
    pub fn resolve_by_key(&self, key: &str, l: &mut Vec<VariableValue>)
        requires
            self.inv(),
        ensures
            models(final(l)@) == models(old(l)@) + records_under(self@.entries, key@),
    {
        match self.find(key) {
            Some(i) => {
                proof {
                    lemma_place(self@.entries, i as int);
                }
                let values = &self.m_set[i].values;
                let mut j: usize = 0;
                assert(models(l@) =~= models(old(l)@) + models(values@).take(0));
                while j < values.len()
                    invariant
                        j <= values@.len(),
                        models(l@) == models(old(l)@) + models(values@).take(j as int),
                    decreases values.len() - j,
                {
                    let copy = VariableValue::new_from(&values[j]);
                    let ghost before = models(l@);
                    let ghost record = copy@;
                    l.push(copy);
                    j = j + 1;
                    assert(models(l@) =~= before.push(record));
                    assert(models(values@).take(j as int) =~= models(values@).take(j - 1).push(
                        record,
                    ));
                    assert(models(l@) =~= models(old(l)@) + models(values@).take(j as int));
                }
                assert(models(values@).take(j as int) =~= models(values@));
            },
            None => {
                assert(models(l@) =~= models(old(l)@) + Seq::<ValueModel>::empty());
            },
        }
    }

    /// The earliest value of `key`.
    pub fn resolve_first(&self, key: &str) -> (found: Option<&str>)
        requires
            self.inv(),
        ensures
            match found {
                Some(value) => holds_key(self@.entries, key@) && value@ == records_under(
                    self@.entries,
                    key@,
                )[0].value,
                None => !holds_key(self@.entries, key@),
            },
    {
        match self.find(key) {
            Some(i) => {
                proof {
                    lemma_place(self@.entries, i as int);
                }
                Some(self.m_set[i].values[0].get_value())
            },
            None => None,
        }
    }

    /// Puts a copy of every record whose key the pattern `regex` matches in front of `l`.
    pub fn resolve_regular_expression(&self, regex: &str, l: &mut Vec<VariableValue>)
        ensures
            models(final(l)@) == reported(
                self@.entries,
                Seq::empty(),
                Some(parsed(regex@)),
            ).reverse() + models(old(l)@),
    {
        let none = KeyExclusions::new();
        let pattern = Pattern::parse(regex);
        self.scan(l, &none, Some(&pattern));
    }

    /// As `resolve_regular_expression`, but for the keys that `ke` excludes.
    pub fn resolve_regular_expression_with_exlusions(
        &self,
        regex: &str,
        l: &mut Vec<VariableValue>,
        ke: &KeyExclusions,
    )
        ensures
            models(final(l)@) == reported(self@.entries, ke@, Some(parsed(regex@))).reverse()
                + models(old(l)@),
    {
        let pattern = Pattern::parse(regex);
        self.scan(l, ke, Some(&pattern));
    }

    /// The keys, in the order in which each was first set.
    pub fn keys(&self) -> (keys: Vec<String>)
        ensures
            keys@.len() == self@.entries.len(),
            forall|i: int| 0 <= i < keys@.len() ==> (#[trigger] keys@[i])@ == self@.entries[i].key,
    {
        let mut keys: Vec<String> = Vec::new();
        let mut i: usize = 0;
        while i < self.m_set.len()
            invariant
                i <= self.m_set@.len(),
                keys@.len() == i,
                forall|j: int| 0 <= j < i ==> (#[trigger] keys@[j])@ == self@.entries[j].key,
            decreases self.m_set.len() - i,
        {
            keys.push(self.m_set[i].key.clone());
            i = i + 1;
        }
        keys
    }

    pub fn name(&self) -> (name: &str)
        ensures
            name@ == self@.name,
    {
        self.m_name.as_str()
    }
}

} // verus!
