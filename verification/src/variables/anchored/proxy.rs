use vstd::prelude::*;
use vstd::string::StringExecFns;
use crate::collection::model::prepend_record;
use crate::variables::anchored::set::{keys_of, AnchoredSetVariable};
use crate::variables::value::{collection_record, models, ValueModel, VariableValue};

verus! {

/// The records that stand for the keys `keys` under the name `name`: one for
/// each key, with the key as its value.
pub open spec fn key_records(name: Seq<char>, keys: Seq<Seq<char>>) -> Seq<ValueModel> {
    Seq::new(keys.len(), |i: int| collection_record(name, keys[i], keys[i]))
}

/// A second name for a set variable, under which its keys are read as values.
/// It holds nothing but its name and the number of the set variable that it
/// reads; the records are made when they are asked for.
pub struct AnchoredSetVariableTranslationProxy {
    m_name: String,
    m_fount: usize,
}

impl AnchoredSetVariableTranslationProxy {
    pub closed spec fn name(&self) -> Seq<char> {
        self.m_name@
    }

    pub closed spec fn fount(&self) -> usize {
        self.m_fount
    }

    /// The view `name` of the set variable with the number `fount`.
    pub fn new(name: &str, fount: usize) -> (p: AnchoredSetVariableTranslationProxy)
        ensures
            p.name() == name@,
            p.fount() == fount,
    {
        AnchoredSetVariableTranslationProxy { m_name: String::from_str(name), m_fount: fount }
    }

    /// The number of the set variable that this view reads.
    pub fn fount_id(&self) -> (id: usize)
        ensures
            id == self.fount(),
    {
        self.m_fount
    }

    /// Puts one record for each key of `fount` in front of `l`; the key set last
    /// comes first.
    pub fn resolve(&self, fount: &AnchoredSetVariable, l: &mut Vec<VariableValue>)
        ensures
            models(final(l)@) == key_records(self.name(), keys_of(fount@.entries)).reverse()
                + models(old(l)@),
    {
        let keys = fount.keys();
        let ghost all = key_records(self.name(), keys_of(fount@.entries));
        let mut i: usize = 0;
        assert(models(l@) =~= all.take(0).reverse() + models(old(l)@));
        while i < keys.len()
            invariant
                i <= keys@.len(),
                keys@.len() == fount@.entries.len(),
                forall|j: int|
                    0 <= j < keys@.len() ==> (#[trigger] keys@[j])@ == fount@.entries[j].key,
                all == key_records(self.name(), keys_of(fount@.entries)),
                models(l@) == all.take(i as int).reverse() + models(old(l)@),
            decreases keys.len() - i,
        {
            prepend_record(self.m_name.as_str(), keys[i].as_str(), keys[i].as_str(), l);
            assert(all.take(i + 1) =~= all.take(i as int).push(all[i as int]));
            assert(all.take(i as int).push(all[i as int]).reverse() =~= seq![all[i as int]]
                + all.take(i as int).reverse());
            i = i + 1;
            assert(models(l@) =~= all.take(i as int).reverse() + models(old(l)@));
        }
        assert(all.take(i as int) =~= all);
    }
}

} // verus!
