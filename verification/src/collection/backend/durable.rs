use vstd::prelude::*;
use vstd::string::StringExecFns;
use std::rc::Rc;
use std::sync::Arc;
use lmdb_zero::traits::CreateCursor;
use lmdb_zero::{Cursor, Database, Environment, ReadTransaction, WriteTransaction};
use crate::collection::model::{
    append_record, appended, pairs_as_records, prepend_scanned, prepended, Record,
};
use crate::collection::Collection;
use crate::variables::exclusion::{Exclusion, KeyExclusions};
use crate::variables::pattern::{parsed, Pattern};
use crate::variables::value::{models, ValueModel, VariableValue};

verus! {

/// `lmdb_zero::Environment`: the files of one store, opened.
#[verifier::external_type_specification]
#[verifier::external_body]
pub struct ExEnvironment(Environment);

/// `lmdb_zero::Database`: one named table of an environment.
#[verifier::external_type_specification]
#[verifier::external_body]
pub struct ExDatabase<'a>(Database<'a>);

/// `lmdb_zero::ReadTransaction`: a view of the store that does not change
/// while it is open.
#[verifier::external_type_specification]
#[verifier::external_body]
pub struct ExReadTransaction<'env>(ReadTransaction<'env>);

/// `lmdb_zero::WriteTransaction`: a set of changes that reach the store
/// together when it is committed, and not at all when it is dropped.
#[verifier::external_type_specification]
#[verifier::external_body]
pub struct ExWriteTransaction<'env>(WriteTransaction<'env>);

/// `lmdb_zero::Cursor`: a place among the pairs of a table, inside a transaction.
#[verifier::external_type_specification]
#[verifier::external_body]
pub struct ExCursor<'txn, 'db>(Cursor<'txn, 'db>);

/// A collection kept in an embedded store on disk, which outlives the process.
///
/// The store hands out the keys, and the values of one key, in its own sort
/// order, not in the order of their arrival. It takes no empty key: under the
/// empty key nothing is found and nothing is written, and the store is not
/// asked. Every operation runs in a transaction of its own, which is
/// committed only where every step of the operation succeeded; a failure of
/// the store reads as "nothing found" or "nothing written".
pub struct LMDB {
    m_name: String,
    env: Arc<Environment>,
    db: Arc<Database<'static>>,
}

/// `WriteTransaction::new`: a new write transaction in the environment, or
/// nothing where the store refuses one.
#[verifier::external_body]
fn begin_write(env: &Arc<Environment>) -> (txn: Option<WriteTransaction<'static>>) {
    WriteTransaction::new(env.clone()).ok()
}

/// `ReadTransaction::new`: a new read transaction in the environment, or
/// nothing where the store refuses one.
#[verifier::external_body]
fn begin_read(env: &Arc<Environment>) -> (txn: Option<ReadTransaction<'static>>) {
    ReadTransaction::new(env.clone()).ok()
}

/// `WriteTransaction::commit`: makes the changes of the transaction lasting.
/// The flag says whether the store reported success.
#[verifier::external_body]
fn txn_commit(txn: WriteTransaction<'static>) -> (ok: bool) {
    txn.commit().is_ok()
}

/// `WriteAccessor::put`, with the accessor that `WriteTransaction::access`
/// gives: writes one more value under the key. The flag says whether the
/// store reported success.
#[verifier::external_body]
fn txn_put(
    txn: &WriteTransaction<'static>,
    db: &Arc<Database<'static>>,
    key: &str,
    value: &str,
) -> (ok: bool) {
    txn.access().put(db, key, value, lmdb_zero::put::Flags::empty()).is_ok()
}

/// `WriteAccessor::del_key`, with the accessor that `WriteTransaction::access`
/// gives: removes the key with all its values. The flag says whether the
/// store reported success.
#[verifier::external_body]
fn txn_del_key(
    txn: &WriteTransaction<'static>,
    db: &Arc<Database<'static>>,
    key: &str,
) -> (ok: bool) {
    txn.access().del_key(db, key).is_ok()
}

/// `WriteAccessor::del_item`, with the accessor that `WriteTransaction::access`
/// gives: removes one pair of key and value. The flag says whether the store
/// reported success.
#[verifier::external_body]
fn txn_del_item(
    txn: &WriteTransaction<'static>,
    db: &Arc<Database<'static>>,
    key: &str,
    value: &str,
) -> (ok: bool) {
    txn.access().del_item(db, key, value).is_ok()
}

/// `ConstAccessor::get`, with the accessor that `ConstTransaction::access`
/// gives: the first value that the store holds for the key. Nothing is
/// claimed of the result: it depends on what is on disk.
#[verifier::external_body]
fn txn_get(
    txn: &Rc<ReadTransaction<'static>>,
    db: &Arc<Database<'static>>,
    key: &str,
) -> (found: Option<String>) {
    let access = txn.access();
    let found = access.get::<str, str>(db, key).ok().map(|value| value.to_owned());
    found
}

/// `CreateCursor::cursor`: a cursor over the table inside the read
/// transaction, or nothing where the store refuses one.
#[verifier::external_body]
fn open_cursor(
    txn: &Rc<ReadTransaction<'static>>,
    db: &Arc<Database<'static>>,
) -> (cursor: Option<Cursor<'static, 'static>>) {
    CreateCursor::cursor(txn, db.clone()).ok()
}

/// `Cursor::first`: moves to the first pair of the store and hands it out.
#[verifier::external_body]
fn cursor_first(
    cursor: &mut Cursor<'static, 'static>,
    txn: &Rc<ReadTransaction<'static>>,
) -> (pair: Option<(String, String)>) {
    let access = txn.access();
    let pair = cursor.first::<str, str>(&access).ok().map(|(k, v)| (k.to_owned(), v.to_owned()));
    pair
}

/// `Cursor::next`: moves to the next pair of the store and hands it out.
#[verifier::external_body]
fn cursor_next(
    cursor: &mut Cursor<'static, 'static>,
    txn: &Rc<ReadTransaction<'static>>,
) -> (pair: Option<(String, String)>) {
    let access = txn.access();
    let pair = cursor.next::<str, str>(&access).ok().map(|(k, v)| (k.to_owned(), v.to_owned()));
    pair
}

/// `Cursor::seek_k`: moves to the first value of the key and hands it out.
#[verifier::external_body]
fn cursor_seek_key(
    cursor: &mut Cursor<'static, 'static>,
    txn: &Rc<ReadTransaction<'static>>,
    key: &str,
) -> (value: Option<String>) {
    let access = txn.access();
    let value = cursor.seek_k::<str, str>(&access, key).ok().map(|v| v.to_owned());
    value
}

/// `Cursor::next_dup`: moves to the next value of the current key and hands it out.
#[verifier::external_body]
fn cursor_next_dup(
    cursor: &mut Cursor<'static, 'static>,
    txn: &Rc<ReadTransaction<'static>>,
) -> (value: Option<String>) {
    let access = txn.access();
    let value = cursor.next_dup::<str, str>(&access).ok().map(|(_, v)| v.to_owned());
    value
}

/// Whether the store can hold anything under `key`: it takes every key but
/// the empty one, which is asked for nowhere and written nowhere.
pub fn storable_key(key: &str) -> (storable: bool)
    ensures
        storable == (key@.len() > 0),
{
    !key.is_empty()
}

impl LMDB {
    pub closed spec fn collection_name(&self) -> Seq<char> {
        self.m_name@
    }

    pub closed spec fn environment(&self) -> Arc<Environment> {
        self.env
    }

    pub closed spec fn database(&self) -> Arc<Database<'static>> {
        self.db
    }

    /// The collection `name` over a store that is already open.
    pub fn from_handles(name: &str, env: Arc<Environment>, db: Arc<Database<'static>>) -> (c: LMDB)
        ensures
            c.collection_name() == name@,
            c.environment() == env,
            c.database() == db,
    {
        LMDB { m_name: String::from_str(name), env, db }
    }

    /// The environment that the store lives in.
    pub fn into_env(&self) -> (env: &Environment)
        ensures
            *env == *self.environment(),
    {
        &*self.env
    }

    /// Reads the first value of `key` in a read transaction of its own. The
    /// empty key has no value, and the store is not asked for one.
    fn read_first(&self, key: &str) -> (found: Option<String>)
        ensures
            key@.len() == 0 ==> found is None,
    {
        if !storable_key(key) {
            return None;
        }
        match begin_read(&self.env) {
            Some(txn) => txn_get(&Rc::new(txn), &self.db, key),
            None => None,
        }
    }

    /// Reads every pair of the store, in the store's order.
    fn read_all(&self) -> (pairs: Vec<(String, String)>) {
        let mut pairs: Vec<(String, String)> = Vec::new();
        let txn = match begin_read(&self.env) {
            Some(txn) => Rc::new(txn),
            None => return pairs,
        };
        let mut cursor = match open_cursor(&txn, &self.db) {
            Some(cursor) => cursor,
            None => return pairs,
        };
        let mut item = cursor_first(&mut cursor, &txn);
        while item.is_some() && pairs.len() < usize::MAX
            decreases usize::MAX - pairs.len(),
        {
            match item {
                Some(pair) => pairs.push(pair),
                None => {},
            }
            item = cursor_next(&mut cursor, &txn);
        }
        pairs
    }

    /// Reads the values of `key`, in the store's order. The empty key has no
    /// value, and the store is not asked for one.
    fn read_key(&self, key: &str) -> (values: Vec<String>)
        ensures
            key@.len() == 0 ==> values@.len() == 0,
    {
        let mut values: Vec<String> = Vec::new();
        if !storable_key(key) {
            return values;
        }
        let txn = match begin_read(&self.env) {
            Some(txn) => Rc::new(txn),
            None => return values,
        };
        let mut cursor = match open_cursor(&txn, &self.db) {
            Some(cursor) => cursor,
            None => return values,
        };
        let mut item = cursor_seek_key(&mut cursor, &txn, key);
        while item.is_some() && values.len() < usize::MAX
            invariant
                key@.len() > 0,
            decreases usize::MAX - values.len(),
        {
            match item {
                Some(value) => values.push(value),
                None => {},
            }
            item = cursor_next_dup(&mut cursor, &txn);
        }
        values
    }
}

/// The pairs that stand for the values of one key.
pub open spec fn keyed(key: Seq<char>, values: Seq<Seq<char>>) -> Seq<Record> {
    Seq::new(values.len(), |i: int| Record { key, value: values[i] })
}

/// The characters of each string of a list.
pub open spec fn texts(values: Seq<String>) -> Seq<Seq<char>> {
    Seq::new(values.len(), |i: int| values[i]@)
}

/// Puts the values of `key` behind `l`, in their order.
pub fn append_values(name: &str, key: &str, values: &Vec<String>, l: &mut Vec<VariableValue>)
    ensures
        models(final(l)@) == appended(models(old(l)@), name@, key@, texts(values@)),
{
    let mut i: usize = 0;
    assert(models(l@) =~= appended(models(old(l)@), name@, key@, texts(values@).take(0)));
    while i < values.len()
        invariant
            i <= values@.len(),
            models(l@) == appended(models(old(l)@), name@, key@, texts(values@).take(i as int)),
        decreases values.len() - i,
    {
        append_record(name, key, values[i].as_str(), l);
        i = i + 1;
        assert(models(l@) =~= appended(
            models(old(l)@),
            name@,
            key@,
            texts(values@).take(i as int),
        ));
    }
    assert(texts(values@).take(i as int) =~= texts(values@));
}

/// Pairs each value with `key`.
pub fn pair_with_key(key: &str, values: Vec<String>) -> (pairs: Vec<(String, String)>)
    ensures
        pairs_as_records(pairs@) == keyed(key@, texts(values@)),
{
    let mut pairs: Vec<(String, String)> = Vec::new();
    let mut i: usize = 0;
    assert(pairs_as_records(pairs@) =~= keyed(key@, texts(values@).take(0)));
    while i < values.len()
        invariant
            i <= values@.len(),
            pairs_as_records(pairs@) == keyed(key@, texts(values@).take(i as int)),
        decreases values.len() - i,
    {
        let ghost done = pairs_as_records(pairs@);
        let pair = (String::from_str(key), values[i].clone());
        let ghost record = Record { key: pair.0@, value: pair.1@ };
        pairs.push(pair);
        i = i + 1;
        assert(pairs_as_records(pairs@) =~= done.push(record));
        assert(keyed(key@, texts(values@).take(i as int)) =~= keyed(
            key@,
            texts(values@).take(i - 1),
        ).push(record));
    }
    assert(texts(values@).take(i as int) =~= texts(values@));
    pairs
}

impl Collection for LMDB {
    open spec fn inv(&self) -> bool {
        true
    }

    open spec fn name(&self) -> Seq<char> {
        self.collection_name()
    }

    /// The handle is as it was. What the store holds afterwards is not stated:
    /// the write may have been refused.
    open spec fn stores(&self, after: &Self, key: Seq<char>, value: Seq<char>) -> bool {
        after == self
    }

    /// The handle is as it was, and nothing is updated under the empty key.
    /// For every other key the store decides.
    open spec fn updates_first(
        &self,
        after: &Self,
        key: Seq<char>,
        value: Seq<char>,
        updated: bool,
    ) -> bool {
        after == self && (key.len() == 0 ==> !updated)
    }

    open spec fn stores_or_updates_first(
        &self,
        after: &Self,
        key: Seq<char>,
        value: Seq<char>,
    ) -> bool {
        after == self
    }

    open spec fn deletes(&self, after: &Self, key: Seq<char>) -> bool {
        after == self
    }

    /// Nothing is found under the empty key. For every other key any value
    /// may be found: it is read from the disk.
    open spec fn resolves_first(&self, key: Seq<char>, found: Option<Seq<char>>) -> bool {
        key.len() == 0 ==> found is None
    }

    /// Some values were read for the key, none of them for the empty key, and
    /// they stand behind the list in the order in which they were read.
    open spec fn resolves_single_match(
        &self,
        key: Seq<char>,
        before: Seq<ValueModel>,
        after: Seq<ValueModel>,
    ) -> bool {
        exists|values: Seq<Seq<char>>|
            after == #[trigger] appended(before, self.name(), key, values) && (key.len() == 0
                ==> values.len() == 0)
    }

    /// Some pairs were read, all under `key` where one is given, and what a
    /// scan over them reports stands in front of the list.
    open spec fn resolves_multi_matches(
        &self,
        key: Seq<char>,
        exclusions: Seq<Exclusion>,
        before: Seq<ValueModel>,
        after: Seq<ValueModel>,
    ) -> bool {
        exists|records: Seq<Record>|
            after == #[trigger] prepended(before, self.name(), records, exclusions, None) && (
            key.len() > 0 ==> forall|i: int|
                0 <= i < records.len() ==> (#[trigger] records[i]).key == key)
    }

    open spec fn resolves_regular_expression(
        &self,
        pattern: Seq<char>,
        exclusions: Seq<Exclusion>,
        before: Seq<ValueModel>,
        after: Seq<ValueModel>,
    ) -> bool {
        exists|records: Seq<Record>|
            after == #[trigger] prepended(
                before,
                self.name(),
                records,
                exclusions,
                Some(parsed(pattern)),
            )
    }

    fn store(&mut self, key: String, value: String) {
        if !storable_key(key.as_str()) {
            return;
        }
        match begin_write(&self.env) {
            Some(txn) => {
                if txn_put(&txn, &self.db, key.as_str(), value.as_str()) {
                    let _ = txn_commit(txn);
                }
            },
            None => {},
        }
    }

    fn update_first(&mut self, key: &str, value: &str) -> (updated: bool) {
        let updated = match self.read_first(key) {
            Some(earliest) => match begin_write(&self.env) {
                Some(txn) => {
                    if txn_del_item(&txn, &self.db, key, earliest.as_str()) && txn_put(
                        &txn,
                        &self.db,
                        key,
                        value,
                    ) {
                        txn_commit(txn)
                    } else {
                        false
                    }
                },
                None => false,
            },
            None => false,
        };
        assert(old(self).updates_first(self, key@, value@, updated));
        updated
    }

    fn store_or_update_first(&mut self, key: &str, value: &str) -> (done: bool) {
        if !self.update_first(key, value) {
            self.store(String::from_str(key), String::from_str(value));
        }
        assert(old(self).stores_or_updates_first(self, key@, value@));
        true
    }

    fn del(&mut self, key: &str) {
        if !storable_key(key) {
            return;
        }
        match begin_write(&self.env) {
            Some(txn) => {
                if txn_del_key(&txn, &self.db, key) {
                    let _ = txn_commit(txn);
                }
            },
            None => {},
        }
    }

    fn resolve_first(&self, key: &str) -> (found: Option<String>) {
        self.read_first(key)
    }

    fn resolve_single_match(&self, key: &str, l: &mut Vec<VariableValue>) {
        let values = self.read_key(key);
        append_values(self.m_name.as_str(), key, &values, l);
        assert(models(l@) == appended(models(old(l)@), self.name(), key@, texts(values@)));
        assert(key@.len() == 0 ==> texts(values@).len() == 0);
    }

    fn resolve_multi_matches(&self, key: &str, l: &mut Vec<VariableValue>, ke: &KeyExclusions) {
        let pairs = if key.is_empty() {
            self.read_all()
        } else {
            pair_with_key(key, self.read_key(key))
        };
        prepend_scanned(self.m_name.as_str(), &pairs, ke, None, l);
        assert(models(l@) == prepended(
            models(old(l)@),
            self.name(),
            pairs_as_records(pairs@),
            ke@,
            None,
        ));
    }

    fn resolve_regular_expression(
        &self,
        re_key: &str,
        l: &mut Vec<VariableValue>,
        ke: &KeyExclusions,
    ) {
        let pattern = Pattern::parse(re_key);
        let pairs = self.read_all();
        prepend_scanned(self.m_name.as_str(), &pairs, ke, Some(&pattern), l);
        assert(models(l@) == prepended(
            models(old(l)@),
            self.name(),
            pairs_as_records(pairs@),
            ke@,
            Some(parsed(re_key@)),
        ));
    }
}

} // verus!
