use vstd::prelude::*;
use vstd::string::StringExecFns;
use crate::collection::model::{
    append_record, appended, deleted, first_of, first_replaced, flat, has_key, kept, key_is_kept,
    lemma_prepended_concat, lemma_prepended_none, lemma_prepended_step, lemma_slot, pattern_model,
    prepend_record, prepended, records_of, stored, values_of, well_formed, KeyedValues,
};
use crate::collection::Collection;
use crate::text::same_text;
use crate::variables::exclusion::{Exclusion, KeyExclusions};
use crate::variables::pattern::{parsed, Pattern};
use crate::variables::value::{models, ValueModel, VariableValue};

verus! {

struct Bucket {
    key: String,
    values: Vec<String>,
}

impl View for Bucket {
    type V = KeyedValues;

    closed spec fn view(&self) -> KeyedValues {
        KeyedValues { key: self.key@, values: Seq::new(self.values@.len(), |i: int| self.values@[i]@) }
    }
}

/// The state of an in-memory collection, as plain values.
pub struct MemoryState {
    pub name: Seq<char>,
    /// The keys in the order in which each was first stored, with their values.
    pub store: Seq<KeyedValues>,
    /// Whether the write guard is held.
    pub locked: bool,
    /// How many writes were lost to a held guard; it stops at the largest count.
    pub dropped: u64,
}

/// The count of lost writes after one more is lost.
pub open spec fn one_more(dropped: u64) -> u64 {
    if dropped < u64::MAX {
        (dropped + 1) as u64
    } else {
        dropped
    }
}

/// A collection that lives in the memory of one process and is gone with it.
///
/// A write first tries to take the write guard. Where the guard is held the
/// write is dropped and counted: it neither waits nor fails. Reads never take
/// the guard.
pub struct InMemoryPerProcess {
    m_name: String,
    collection: Vec<Bucket>,
    lock: bool,
    dropped: u64,
}

impl View for InMemoryPerProcess {
    type V = MemoryState;

    closed spec fn view(&self) -> MemoryState {
        MemoryState {
            name: self.m_name@,
            store: Seq::new(self.collection@.len(), |i: int| self.collection@[i]@),
            locked: self.lock,
            dropped: self.dropped,
        }
    }
}

impl InMemoryPerProcess {
    /// The empty collection `name`, with its guard free.
    pub fn new(name: &str) -> (c: InMemoryPerProcess)
        ensures
            c.inv(),
            c@ == (MemoryState {
                name: name@,
                store: Seq::empty(),
                locked: false,
                dropped: 0,
            }),
    {
        let c = InMemoryPerProcess {
            m_name: String::from_str(name),
            collection: Vec::with_capacity(1000),
            lock: false,
            dropped: 0,
        };
        assert(c@.store =~= Seq::empty());
        c
    }

    /// Tries to take the write guard; never waits.
    pub fn try_lock(&mut self) -> (acquired: bool)
        ensures
            acquired == !old(self)@.locked,
            final(self)@ == (MemoryState { locked: true, ..old(self)@ }),
    {
        let acquired = !self.lock;
        self.lock = true;
        acquired
    }

    /// Gives the write guard back.
    pub fn unlock(&mut self)
        ensures
            final(self)@ == (MemoryState { locked: false, ..old(self)@ }),
    {
        self.lock = false;
    }

    /// How many writes were dropped because the guard was held.
    pub fn dropped_writes(&self) -> (n: u64)
        ensures
            n == self@.dropped,
    {
        self.dropped
    }

    pub fn name(&self) -> (name: &str)
        ensures
            name@ == self@.name,
    {
        self.m_name.as_str()
    }

    /// The place of `key` among the keys.
    fn find(&self, key: &str) -> (place: Option<usize>)
        ensures
            match place {
                Some(i) => i < self@.store.len() && self@.store[i as int].key == key@,
                None => !has_key(self@.store, key@),
            },
    {
        let mut i: usize = 0;
        while i < self.collection.len()
            invariant
                i <= self.collection@.len(),
                forall|j: int| 0 <= j < i ==> (#[trigger] self@.store[j]).key != key@,
            decreases self.collection.len() - i,
        {
            if same_text(self.collection[i].key.as_str(), key) {
                return Some(i);
            }
            i = i + 1;
        }
        None
    }

    /// Puts the values of the key at place `i` in front of `l`, where the key is reported.
    fn prepend_values(
        &self,
        i: usize,
        l: &mut Vec<VariableValue>,
        ke: &KeyExclusions,
        pattern: Option<&Pattern>,
    )
        requires
            i < self@.store.len(),
        ensures
            models(final(l)@) == prepended(
                models(old(l)@),
                self@.name,
                records_of(self@.store[i as int]),
                ke@,
                pattern_model(pattern),
            ),
    {
        let bucket = &self.collection[i];
        let keep = key_is_kept(bucket.key.as_str(), ke, pattern);
        let ghost records = records_of(self@.store[i as int]);
        proof {
            lemma_prepended_none(models(l@), self@.name, ke@, pattern_model(pattern));
            assert(records.take(0) =~= Seq::empty());
        }
        let mut j: usize = 0;
        while j < bucket.values.len()
            invariant
                i < self@.store.len(),
                bucket == self.collection@[i as int],
                records == records_of(self@.store[i as int]),
                keep == kept(ke@, pattern_model(pattern), bucket.key@),
                j <= bucket.values@.len(),
                models(l@) == prepended(
                    models(old(l)@),
                    self@.name,
                    records.take(j as int),
                    ke@,
                    pattern_model(pattern),
                ),
            decreases bucket.values.len() - j,
        {
            proof {
                assert(records.take(j + 1) =~= records.take(j as int).push(records[j as int]));
                lemma_prepended_step(
                    models(old(l)@),
                    self@.name,
                    records.take(j as int),
                    records[j as int],
                    ke@,
                    pattern_model(pattern),
                );
            }
            if keep {
                prepend_record(
                    self.m_name.as_str(),
                    bucket.key.as_str(),
                    bucket.values[j].as_str(),
                    l,
                );
            }
            j = j + 1;
        }
        assert(records.take(j as int) =~= records);
    }

    /// Scans every key, in the order in which the keys were first stored.
    fn scan(&self, l: &mut Vec<VariableValue>, ke: &KeyExclusions, pattern: Option<&Pattern>)
        ensures
            models(final(l)@) == prepended(
                models(old(l)@),
                self@.name,
                flat(self@.store),
                ke@,
                pattern_model(pattern),
            ),
    {
        proof {
            lemma_prepended_none(models(l@), self@.name, ke@, pattern_model(pattern));
            assert(self@.store.take(0) =~= Seq::empty());
        }
        let mut i: usize = 0;
        while i < self.collection.len()
            invariant
                i <= self@.store.len(),
                self@.store.len() == self.collection@.len(),
                models(l@) == prepended(
                    models(old(l)@),
                    self@.name,
                    flat(self@.store.take(i as int)),
                    ke@,
                    pattern_model(pattern),
                ),
            decreases self.collection.len() - i,
        {
            proof {
                assert(self@.store.take(i + 1).drop_last() =~= self@.store.take(i as int));
                lemma_prepended_concat(
                    models(old(l)@),
                    self@.name,
                    flat(self@.store.take(i as int)),
                    records_of(self@.store[i as int]),
                    ke@,
                    pattern_model(pattern),
                );
            }
            self.prepend_values(i, l, ke, pattern);
            i = i + 1;
        }
        assert(self@.store.take(i as int) =~= self@.store);
    }

    /// Counts one write lost to the held guard.
    fn count_dropped(&mut self)
        ensures
            final(self)@ == (MemoryState { dropped: one_more(old(self)@.dropped), ..old(self)@ }),
    {
        if self.dropped < u64::MAX {
            self.dropped = self.dropped + 1;
        }
    }
}

impl Collection for InMemoryPerProcess {
    open spec fn inv(&self) -> bool {
        well_formed(self@.store)
    }

    open spec fn name(&self) -> Seq<char> {
        self@.name
    }

    open spec fn stores(&self, after: &Self, key: Seq<char>, value: Seq<char>) -> bool {
        after@ == if self@.locked {
            MemoryState { dropped: one_more(self@.dropped), ..self@ }
        } else {
            MemoryState { store: stored(self@.store, key, value), ..self@ }
        }
    }

    open spec fn updates_first(
        &self,
        after: &Self,
        key: Seq<char>,
        value: Seq<char>,
        updated: bool,
    ) -> bool {
        &&& updated == (!self@.locked && has_key(self@.store, key))
        &&& after@ == (if self@.locked {
            MemoryState { dropped: one_more(self@.dropped), ..self@ }
        } else {
            MemoryState { store: first_replaced(self@.store, key, value), ..self@ }
        })
    }

    open spec fn stores_or_updates_first(
        &self,
        after: &Self,
        key: Seq<char>,
        value: Seq<char>,
    ) -> bool {
        after@ == if self@.locked {
            MemoryState { dropped: one_more(one_more(self@.dropped)), ..self@ }
        } else if has_key(self@.store, key) {
            MemoryState { store: first_replaced(self@.store, key, value), ..self@ }
        } else {
            MemoryState { store: stored(self@.store, key, value), ..self@ }
        }
    }

    open spec fn deletes(&self, after: &Self, key: Seq<char>) -> bool {
        after@ == if self@.locked {
            MemoryState { dropped: one_more(self@.dropped), ..self@ }
        } else {
            MemoryState { store: deleted(self@.store, key), ..self@ }
        }
    }

    open spec fn resolves_first(&self, key: Seq<char>, found: Option<Seq<char>>) -> bool {
        found == first_of(self@.store, key)
    }

    open spec fn resolves_single_match(
        &self,
        key: Seq<char>,
        before: Seq<ValueModel>,
        after: Seq<ValueModel>,
    ) -> bool {
        after == appended(before, self@.name, key, values_of(self@.store, key))
    }

    open spec fn resolves_multi_matches(
        &self,
        key: Seq<char>,
        exclusions: Seq<Exclusion>,
        before: Seq<ValueModel>,
        after: Seq<ValueModel>,
    ) -> bool {
        after == if key.len() == 0 {
            prepended(before, self@.name, flat(self@.store), exclusions, None)
        } else {
            prepended(
                before,
                self@.name,
                records_of(KeyedValues { key, values: values_of(self@.store, key) }),
                exclusions,
                None,
            )
        }
    }

    open spec fn resolves_regular_expression(
        &self,
        pattern: Seq<char>,
        exclusions: Seq<Exclusion>,
        before: Seq<ValueModel>,
        after: Seq<ValueModel>,
    ) -> bool {
        after == prepended(before, self@.name, flat(self@.store), exclusions, Some(parsed(pattern)))
    }

    fn store(&mut self, key: String, value: String) {
        if !self.try_lock() {
            self.count_dropped();
            return;
        }
        match self.find(key.as_str()) {
            Some(i) => {
                proof {
                    lemma_slot(self@.store, i as int);
                }
                self.collection[i].values.push(value);
                assert(self@.store =~= stored(old(self)@.store, key@, value@)) by {
                    assert(self@.store[i as int].values =~= old(self)@.store[i as int].values.push(
                        value@,
                    ));
                }
            },
            None => {
                let mut values: Vec<String> = Vec::new();
                values.push(value);
                self.collection.push(Bucket { key, values });
                assert(self@.store =~= stored(old(self)@.store, key@, value@)) by {
                    assert(self@.store.last().values =~= seq![value@]);
                }
            },
        }
        self.unlock();
    }

    fn update_first(&mut self, key: &str, value: &str) -> (updated: bool) {
        if !self.try_lock() {
            self.count_dropped();
            assert(old(self).updates_first(self, key@, value@, false));
            return false;
        }
        let updated = match self.find(key) {
            Some(i) => {
                proof {
                    lemma_slot(self@.store, i as int);
                }
                self.collection[i].values[0] = String::from_str(value);
                assert(self@.store =~= first_replaced(old(self)@.store, key@, value@)) by {
                    assert(self@.store[i as int].values =~= old(self)@.store[i as int].values.update(
                        0,
                        value@,
                    ));
                }
                true
            },
            None => false,
        };
        self.unlock();
        updated
    }

    fn store_or_update_first(&mut self, key: &str, value: &str) -> (done: bool) {
        if !self.update_first(key, value) {
            self.store(String::from_str(key), String::from_str(value));
        }
        true
    }

    fn del(&mut self, key: &str) {
        if !self.try_lock() {
            self.count_dropped();
            return;
        }
        match self.find(key) {
            Some(i) => {
                proof {
                    lemma_slot(self@.store, i as int);
                }
                let _ = self.collection.remove(i);
                assert(self@.store =~= deleted(old(self)@.store, key@));
            },
            None => {},
        }
        self.unlock();
    }

    fn resolve_first(&self, key: &str) -> (found: Option<String>) {
        match self.find(key) {
            Some(i) => {
                proof {
                    lemma_slot(self@.store, i as int);
                }
                Some(self.collection[i].values[0].clone())
            },
            None => None,
        }
    }

    fn resolve_single_match(&self, key: &str, l: &mut Vec<VariableValue>) {
        match self.find(key) {
            Some(i) => {
                proof {
                    lemma_slot(self@.store, i as int);
                }
                let values = &self.collection[i].values;
                let mut j: usize = 0;
                while j < values.len()
                    invariant
                        j <= values@.len(),
                        values@.len() == self@.store[i as int].values.len(),
                        forall|k: int| 0 <= k < values@.len() ==> values@[k]@ == self@.store[i as int].values[k],
                        models(l@) == appended(models(old(l)@), self@.name, key@, self@.store[i as int].values.take(j as int)),
                    decreases values.len() - j,
                {
                    append_record(self.m_name.as_str(), key, values[j].as_str(), l);
                    j = j + 1;
                    assert(models(l@) =~= appended(
                        models(old(l)@),
                        self@.name,
                        key@,
                        self@.store[i as int].values.take(j as int),
                    ));
                }
                assert(self@.store[i as int].values.take(j as int) =~= self@.store[i as int].values);
            },
            None => {
                assert(models(l@) =~= appended(models(old(l)@), self@.name, key@, Seq::empty()));
            },
        }
    }

    fn resolve_multi_matches(&self, key: &str, l: &mut Vec<VariableValue>, ke: &KeyExclusions) {
        if key.is_empty() {
            self.scan(l, ke, None);
            return;
        }
        match self.find(key) {
            Some(i) => {
                proof {
                    lemma_slot(self@.store, i as int);
                }
                self.prepend_values(i, l, ke, None);
            },
            None => {
                proof {
                    assert(records_of(KeyedValues { key: key@, values: Seq::empty() })
                        =~= Seq::empty());
                    lemma_prepended_none(models(l@), self@.name, ke@, None);
                }
            },
        }
    }

    fn resolve_regular_expression(
        &self,
        re_key: &str,
        l: &mut Vec<VariableValue>,
        ke: &KeyExclusions,
    ) {
        let pattern = Pattern::parse(re_key);
        self.scan(l, ke, Some(&pattern));
    }
}

} // verus!
