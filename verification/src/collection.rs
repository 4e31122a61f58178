use vstd::prelude::*;
use vstd::string::StringExecFns;
use crate::variables::exclusion::{Exclusion, KeyExclusions};
use crate::variables::value::{models, ValueModel, VariableValue};

pub mod backend;
pub mod collections;
pub mod model;
pub mod theorems;

verus! {

/// The key under which `key` is kept inside `compartment`: the compartment, two
/// colons, the key. Nothing is escaped.
pub open spec fn compartment_key(compartment: Seq<char>, key: Seq<char>) -> Seq<char> {
    compartment + seq![':', ':'] + key
}

/// Builds the key of `key` inside `compartment`.
pub fn compose_key(compartment: &str, key: &str) -> (composed: String)
    ensures
        composed@ == compartment_key(compartment@, key@),
{
    let mut composed = String::from_str(compartment);
    composed.push(':');
    composed.push(':');
    composed.append(key);
    assert(composed@ =~= compartment_key(compartment@, key@));
    composed
}

/// A named store of values under string keys. A key holds its values in the
/// order in which they were stored, and may hold equal values more than once.
///
/// Each operation comes with a relation that says what it does. A backend
/// defines the relations as exactly as its storage allows; the operations on
/// compartments only compose the key and hand on to the base operations, so
/// they are stated once, here, over the same relations.
pub trait Collection: Sized {
    /// What every operation needs of the store and leaves true of it.
    spec fn inv(&self) -> bool;

    /// The name of the collection, which its records carry.
    spec fn name(&self) -> Seq<char>;

    /// `after` is the store that `store(key, value)` may leave.
    spec fn stores(&self, after: &Self, key: Seq<char>, value: Seq<char>) -> bool;

    /// `after` and `updated` are what `update_first(key, value)` may leave and return.
    spec fn updates_first(
        &self,
        after: &Self,
        key: Seq<char>,
        value: Seq<char>,
        updated: bool,
    ) -> bool;

    /// `after` is the store that `store_or_update_first(key, value)` may leave.
    spec fn stores_or_updates_first(&self, after: &Self, key: Seq<char>, value: Seq<char>) -> bool;

    /// `after` is the store that `del(key)` may leave.
    spec fn deletes(&self, after: &Self, key: Seq<char>) -> bool;

    /// `found` is what `resolve_first(key)` may return.
    spec fn resolves_first(&self, key: Seq<char>, found: Option<Seq<char>>) -> bool;

    /// `after` is the list that `resolve_single_match(key, ..)` may make of `before`.
    spec fn resolves_single_match(
        &self,
        key: Seq<char>,
        before: Seq<ValueModel>,
        after: Seq<ValueModel>,
    ) -> bool;

    /// `after` is the list that `resolve_multi_matches(key, .., exclusions)` may make of `before`.
    spec fn resolves_multi_matches(
        &self,
        key: Seq<char>,
        exclusions: Seq<Exclusion>,
        before: Seq<ValueModel>,
        after: Seq<ValueModel>,
    ) -> bool;

    /// `after` is the list that `resolve_regular_expression(pattern, .., exclusions)`
    /// may make of `before`.
    spec fn resolves_regular_expression(
        &self,
        pattern: Seq<char>,
        exclusions: Seq<Exclusion>,
        before: Seq<ValueModel>,
        after: Seq<ValueModel>,
    ) -> bool;

    /// Puts `value` behind the values of `key`. Never replaces a value.
    fn store(&mut self, key: String, value: String)
        requires
            old(self).inv(),
        ensures
            final(self).inv(),
            old(self).stores(final(self), key@, value@),
    ;

    /// Replaces the earliest value of `key`; without effect where the key is absent.
    fn update_first(&mut self, key: &str, value: &str) -> (updated: bool)
        requires
            old(self).inv(),
        ensures
            final(self).inv(),
            old(self).updates_first(final(self), key@, value@, updated),
    ;

    /// Replaces the earliest value of `key`, or stores `value` where there is none.
    fn store_or_update_first(&mut self, key: &str, value: &str) -> (done: bool)
        requires
            old(self).inv(),
        ensures
            done,
            final(self).inv(),
            old(self).stores_or_updates_first(final(self), key@, value@),
    ;

    /// Removes `key` with all its values.
    fn del(&mut self, key: &str)
        requires
            old(self).inv(),
        ensures
            final(self).inv(),
            old(self).deletes(final(self), key@),
    ;

    /// The earliest value of `key`.
    fn resolve_first(&self, key: &str) -> (found: Option<String>)
        requires
            self.inv(),
        ensures
            self.resolves_first(
                key@,
                match found {
                    Some(value) => Some(value@),
                    None => None,
                },
            ),
    ;

    /// Puts the values of exactly `key` behind `l`, earliest first.
    fn resolve_single_match(&self, key: &str, l: &mut Vec<VariableValue>)
        requires
            self.inv(),
        ensures
            self.resolves_single_match(key@, models(old(l)@), models(final(l)@)),
    ;

    /// Puts the values of `key`, or of every key where `key` is empty, in front
    /// of `l`, leaving out the keys that `ke` excludes.
    fn resolve_multi_matches(&self, key: &str, l: &mut Vec<VariableValue>, ke: &KeyExclusions)
        requires
            self.inv(),
        ensures
            self.resolves_multi_matches(key@, ke@, models(old(l)@), models(final(l)@)),
    ;

    /// Puts the values of every key that the pattern `re_key` matches in front
    /// of `l`, leaving out the keys that `ke` excludes.
    fn resolve_regular_expression(
        &self,
        re_key: &str,
        l: &mut Vec<VariableValue>,
        ke: &KeyExclusions,
    )
        requires
            self.inv(),
        ensures
            self.resolves_regular_expression(re_key@, ke@, models(old(l)@), models(final(l)@)),
    ;

    /// `store` on the key inside a compartment.
    fn store_with_compartment(&mut self, key: String, value: String, compartment: String)
        requires
            old(self).inv(),
        ensures
            final(self).inv(),
            old(self).stores(final(self), compartment_key(compartment@, key@), value@),
    {
        let nkey = compose_key(compartment.as_str(), key.as_str());
        self.store(nkey, value);
    }

    /// `store` on the key inside two nested compartments.
    fn store_with_compartments(
        &mut self,
        key: String,
        value: String,
        compartment: String,
        compartment2: String,
    )
        requires
            old(self).inv(),
        ensures
            final(self).inv(),
            old(self).stores(
                final(self),
                compartment_key(compartment@, compartment_key(compartment2@, key@)),
                value@,
            ),
    {
        let inner = compose_key(compartment2.as_str(), key.as_str());
        let nkey = compose_key(compartment.as_str(), inner.as_str());
        self.store(nkey, value);
    }

    /// `store_or_update_first` on the key inside a compartment.
    fn store_or_update_first_with_compartment(
        &mut self,
        key: String,
        value: String,
        compartment: String,
    ) -> (done: bool)
        requires
            old(self).inv(),
        ensures
            final(self).inv(),
            done,
            old(self).stores_or_updates_first(
                final(self),
                compartment_key(compartment@, key@),
                value@,
            ),
    {
        let nkey = compose_key(compartment.as_str(), key.as_str());
        self.store_or_update_first(nkey.as_str(), value.as_str())
    }

    /// `store_or_update_first` on the key inside two nested compartments.
    fn store_or_update_first_with_compartments(
        &mut self,
        key: String,
        value: String,
        compartment: String,
        compartment2: String,
    ) -> (done: bool)
        requires
            old(self).inv(),
        ensures
            final(self).inv(),
            done,
            old(self).stores_or_updates_first(
                final(self),
                compartment_key(compartment@, compartment_key(compartment2@, key@)),
                value@,
            ),
    {
        let inner = compose_key(compartment2.as_str(), key.as_str());
        let nkey = compose_key(compartment.as_str(), inner.as_str());
        self.store_or_update_first(nkey.as_str(), value.as_str())
    }

    /// `update_first` on the key inside a compartment.
    fn update_first_with_compartment(
        &mut self,
        key: String,
        value: String,
        compartment: String,
    ) -> (updated: bool)
        requires
            old(self).inv(),
        ensures
            final(self).inv(),
            old(self).updates_first(
                final(self),
                compartment_key(compartment@, key@),
                value@,
                updated,
            ),
    {
        let nkey = compose_key(compartment.as_str(), key.as_str());
        self.update_first(nkey.as_str(), value.as_str())
    }

    /// `update_first` on the key inside two nested compartments.
    fn update_first_with_compartments(
        &mut self,
        key: String,
        value: String,
        compartment: String,
        compartment2: String,
    ) -> (updated: bool)
        requires
            old(self).inv(),
        ensures
            final(self).inv(),
            old(self).updates_first(
                final(self),
                compartment_key(compartment@, compartment_key(compartment2@, key@)),
                value@,
                updated,
            ),
    {
        let inner = compose_key(compartment2.as_str(), key.as_str());
        let nkey = compose_key(compartment.as_str(), inner.as_str());
        self.update_first(nkey.as_str(), value.as_str())
    }

    /// `del` on the key inside a compartment.
    fn del_with_compartment(&mut self, key: String, compartment: String)
        requires
            old(self).inv(),
        ensures
            final(self).inv(),
            old(self).deletes(final(self), compartment_key(compartment@, key@)),
    {
        let nkey = compose_key(compartment.as_str(), key.as_str());
        self.del(nkey.as_str());
    }

    /// `del` on the key inside two nested compartments.
    fn del_with_compartments(&mut self, key: String, compartment: String, compartment2: String)
        requires
            old(self).inv(),
        ensures
            final(self).inv(),
            old(self).deletes(
                final(self),
                compartment_key(compartment@, compartment_key(compartment2@, key@)),
            ),
    {
        let inner = compose_key(compartment2.as_str(), key.as_str());
        let nkey = compose_key(compartment.as_str(), inner.as_str());
        self.del(nkey.as_str());
    }

    /// `resolve_first` on the key inside a compartment.
    fn resolve_first_with_compartment(
        &self,
        key: String,
        compartment: String,
    ) -> (found: Option<String>)
        requires
            self.inv(),
        ensures
            self.resolves_first(
                compartment_key(compartment@, key@),
                match found {
                    Some(value) => Some(value@),
                    None => None,
                },
            ),
    {
        let nkey = compose_key(compartment.as_str(), key.as_str());
        self.resolve_first(nkey.as_str())
    }

    /// `resolve_first` on the key inside two nested compartments.
    fn resolve_first_with_compartments(
        &self,
        key: String,
        compartment: String,
        compartment2: String,
    ) -> (found: Option<String>)
        requires
            self.inv(),
        ensures
            self.resolves_first(
                compartment_key(compartment@, compartment_key(compartment2@, key@)),
                match found {
                    Some(value) => Some(value@),
                    None => None,
                },
            ),
    {
        let inner = compose_key(compartment2.as_str(), key.as_str());
        let nkey = compose_key(compartment.as_str(), inner.as_str());
        self.resolve_first(nkey.as_str())
    }

    /// `resolve_single_match` on the key inside a compartment.
    fn resolve_single_match_with_compartment(
        &self,
        key: String,
        compartment: String,
        l: &mut Vec<VariableValue>,
    )
        requires
            self.inv(),
        ensures
            self.resolves_single_match(
                compartment_key(compartment@, key@),
                models(old(l)@),
                models(final(l)@),
            ),
    {
        let nkey = compose_key(compartment.as_str(), key.as_str());
        self.resolve_single_match(nkey.as_str(), l);
    }

    /// `resolve_single_match` on the key inside two nested compartments.
    fn resolve_single_match_with_compartments(
        &self,
        key: String,
        compartment: String,
        compartment2: String,
        l: &mut Vec<VariableValue>,
    )
        requires
            self.inv(),
        ensures
            self.resolves_single_match(
                compartment_key(compartment@, compartment_key(compartment2@, key@)),
                models(old(l)@),
                models(final(l)@),
            ),
    {
        let inner = compose_key(compartment2.as_str(), key.as_str());
        let nkey = compose_key(compartment.as_str(), inner.as_str());
        self.resolve_single_match(nkey.as_str(), l);
    }

    /// `resolve_multi_matches` on the key inside a compartment.
    fn resolve_multi_matches_with_compartment(
        &self,
        key: String,
        compartment: String,
        l: &mut Vec<VariableValue>,
        ke: &KeyExclusions,
    )
        requires
            self.inv(),
        ensures
            self.resolves_multi_matches(
                compartment_key(compartment@, key@),
                ke@,
                models(old(l)@),
                models(final(l)@),
            ),
    {
        let nkey = compose_key(compartment.as_str(), key.as_str());
        self.resolve_multi_matches(nkey.as_str(), l, ke);
    }

    /// `resolve_multi_matches` on the key inside two nested compartments.
    fn resolve_multi_matches_with_compartments(
        &self,
        key: String,
        compartment: String,
        compartment2: String,
        l: &mut Vec<VariableValue>,
        ke: &KeyExclusions,
    )
        requires
            self.inv(),
        ensures
            self.resolves_multi_matches(
                compartment_key(compartment@, compartment_key(compartment2@, key@)),
                ke@,
                models(old(l)@),
                models(final(l)@),
            ),
    {
        let inner = compose_key(compartment2.as_str(), key.as_str());
        let nkey = compose_key(compartment.as_str(), inner.as_str());
        self.resolve_multi_matches(nkey.as_str(), l, ke);
    }

    /// `resolve_regular_expression` with the pattern composed as a key inside a compartment.
    fn resolve_regular_expression_with_compartment(
        &self,
        key: String,
        compartment: String,
        l: &mut Vec<VariableValue>,
        ke: &KeyExclusions,
    )
        requires
            self.inv(),
        ensures
            self.resolves_regular_expression(
                compartment_key(compartment@, key@),
                ke@,
                models(old(l)@),
                models(final(l)@),
            ),
    {
        let nkey = compose_key(compartment.as_str(), key.as_str());
        self.resolve_regular_expression(nkey.as_str(), l, ke);
    }

    /// `resolve_regular_expression` with the pattern composed as a key inside
    /// two nested compartments.
    fn resolve_regular_expression_with_compartments(
        &self,
        key: String,
        compartment: String,
        compartment2: String,
        l: &mut Vec<VariableValue>,
        ke: &KeyExclusions,
    )
        requires
            self.inv(),
        ensures
            self.resolves_regular_expression(
                compartment_key(compartment@, compartment_key(compartment2@, key@)),
                ke@,
                models(old(l)@),
                models(final(l)@),
            ),
    {
        let inner = compose_key(compartment2.as_str(), key.as_str());
        let nkey = compose_key(compartment.as_str(), inner.as_str());
        self.resolve_regular_expression(nkey.as_str(), l, ke);
    }
}

} // verus!
