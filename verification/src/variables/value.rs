use vstd::prelude::*;
use vstd::string::StringExecFns;
use crate::variables::origin::VariableOrigin;

verus! {

/// What a `VariableValue` holds, as plain mathematical values.
pub struct ValueModel {
    pub origin: Seq<VariableOrigin>,
    pub collection: Seq<char>,
    pub key: Seq<char>,
    pub key_with_collection: Seq<char>,
    pub value: Seq<char>,
}

/// The identifier under which a key of a collection is reported: the bare key
/// for the nameless collection, otherwise the collection's name, a colon and the key.
pub open spec fn qualified_key(collection: Seq<char>, key: Seq<char>) -> Seq<char> {
    if collection.len() == 0 {
        key
    } else {
        collection + seq![':'] + key
    }
}

/// The record that a collection reports for one value stored under `key`.
pub open spec fn collection_record(
    collection: Seq<char>,
    key: Seq<char>,
    value: Seq<char>,
) -> ValueModel {
    ValueModel {
        origin: Seq::empty(),
        collection,
        key,
        key_with_collection: qualified_key(collection, key),
        value,
    }
}

/// The value `v` with one more range recorded behind those that it has.
pub open spec fn with_origin(v: ValueModel, origin: VariableOrigin) -> ValueModel {
    ValueModel { origin: v.origin.push(origin), ..v }
}

/// A copy has an origin list of its own: after a range is added to the copy
/// the source still has the ranges that it had, and the copy has one more.
pub proof fn copy_is_independent(
    source: VariableValue,
    copy: VariableValue,
    changed_copy: VariableValue,
    origin: VariableOrigin,
)
    requires
        copy@ == source@,
        changed_copy@ == with_origin(copy@, origin),
    ensures
        changed_copy@.origin == source@.origin.push(origin),
        changed_copy@.origin.len() == source@.origin.len() + 1,
        changed_copy@.origin != source@.origin,
        (ValueModel { origin: source@.origin, ..changed_copy@ }) == source@,
{
}

/// The models of a list of values, element by element.
pub open spec fn models(l: Seq<VariableValue>) -> Seq<ValueModel> {
    Seq::new(l.len(), |i: int| l[i]@)
}

/// A snapshot of one variable: its value and where the value came from.
pub struct VariableValue {
    m_origin: Vec<VariableOrigin>,
    m_collection: String,
    m_key: String,
    m_key_with_collection: String,
    m_value: String,
}

impl View for VariableValue {
    type V = ValueModel;

    closed spec fn view(&self) -> ValueModel {
        ValueModel {
            origin: self.m_origin@,
            collection: self.m_collection@,
            key: self.m_key@,
            key_with_collection: self.m_key_with_collection@,
            value: self.m_value@,
        }
    }
}

impl VariableValue {
    /// A value outside any collection; an absent value reads as the empty string.
    pub fn new(key: &str, value: Option<&str>) -> (v: VariableValue)
        ensures
            v@ == (ValueModel {
                origin: Seq::empty(),
                collection: Seq::empty(),
                key: key@,
                key_with_collection: key@,
                value: match value {
                    Some(text) => text@,
                    None => Seq::empty(),
                },
            }),
    {
        let m_value = match value {
            Some(text) => String::from_str(text),
            None => String::new(),
        };
        VariableValue {
            m_origin: Vec::new(),
            m_collection: String::new(),
            m_key: String::from_str(key),
            m_key_with_collection: String::from_str(key),
            m_value,
        }
    }

    /// The record of one value stored under `key` in the collection `collection_name`.
    pub fn new_with_collection(collection_name: &str, key: &str, value: &str) -> (v: VariableValue)
        ensures
            v@ == collection_record(collection_name@, key@, value@),
    {
        let key_with_collection = if collection_name.is_empty() {
            String::from_str(key)
        } else {
            let mut qualified = String::from_str(collection_name);
            qualified.push(':');
            qualified.append(key);
            qualified
        };
        assert(key_with_collection@ =~= qualified_key(collection_name@, key@));
        VariableValue {
            m_key_with_collection: key_with_collection,
            m_key: String::from_str(key),
            m_value: String::from_str(value),
            m_collection: String::from_str(collection_name),
            m_origin: Vec::new(),
        }
    }

    /// A copy of `vv` that shares nothing with it: the origins are copied one by one.
    pub fn new_from(vv: &VariableValue) -> (v: VariableValue)
        ensures
            v@ == vv@,
    {
        let mut m_origin: Vec<VariableOrigin> = Vec::new();
        let mut i: usize = 0;
        while i < vv.m_origin.len()
            invariant
                i <= vv.m_origin.len(),
                m_origin@ == vv.m_origin@.subrange(0, i as int),
            decreases vv.m_origin.len() - i,
        {
            let o = &vv.m_origin[i];
            m_origin.push(VariableOrigin::new_with_props(o.m_length, o.m_offset));
            i = i + 1;
            assert(m_origin@ =~= vv.m_origin@.subrange(0, i as int));
        }
        assert(m_origin@ =~= vv.m_origin@);
        VariableValue {
            m_origin,
            m_collection: vv.m_collection.clone(),
            m_key: vv.m_key.clone(),
            m_key_with_collection: vv.m_key_with_collection.clone(),
            m_value: vv.m_value.clone(),
        }
    }

    pub fn get_key(&self) -> (key: &str)
        ensures
            key@ == self@.key,
    {
        self.m_key.as_str()
    }

    pub fn get_key_with_collection(&self) -> (key: &str)
        ensures
            key@ == self@.key_with_collection,
    {
        self.m_key_with_collection.as_str()
    }

    pub fn get_collection(&self) -> (name: &str)
        ensures
            name@ == self@.collection,
    {
        self.m_collection.as_str()
    }

    pub fn get_value(&self) -> (value: &str)
        ensures
            value@ == self@.value,
    {
        self.m_value.as_str()
    }

    /// Replaces the value; key, collection and origins stay.
    pub fn set_value(&mut self, value: &str)
        ensures
            final(self)@ == (ValueModel { value: value@, ..old(self)@ }),
    {
        self.m_value = String::from_str(value);
    }

    /// Records one more range behind those already recorded.
    pub fn add_origin(&mut self, origin: VariableOrigin)
        ensures
            final(self)@ == with_origin(old(self)@, origin),
    {
        self.m_origin.push(origin);
    }

    pub fn get_origin(&self) -> (origin: &Vec<VariableOrigin>)
        ensures
            origin@ == self@.origin,
    {
        &self.m_origin
    }
}

} // verus!
