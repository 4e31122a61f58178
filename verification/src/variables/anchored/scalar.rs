use vstd::prelude::*;
use vstd::string::StringExecFns;
use vstd::string::StringSliceAdditionalSpecFns;
use crate::transaction::Transaction;
use crate::variables::origin::VariableOrigin;
use crate::variables::value::{models, ValueModel, VariableValue};

verus! {

/// What an `AnchoredVariable` holds, as plain values.
pub struct AnchoredModel {
    pub name: Seq<char>,
    pub value: Seq<char>,
    /// Where the latest part of the value was found.
    pub offset: usize,
    /// The ranges that the value was put together from, in order.
    pub origin: Seq<VariableOrigin>,
}

/// The value after `addition` is put behind `value`; one space goes between
/// them where it is asked for and neither is empty.
pub open spec fn joined(value: Seq<char>, addition: Seq<char>, space_separator: bool) -> Seq<char> {
    if space_separator && value.len() > 0 && addition.len() > 0 {
        value + seq![' '] + addition
    } else {
        value + addition
    }
}

/// The range of `length` bytes at `offset`.
pub open spec fn origin_at(length: usize, offset: usize) -> VariableOrigin {
    VariableOrigin { m_length: length, m_offset: offset }
}

/// The record that the variable hands to its consumers.
pub open spec fn snapshot(v: AnchoredModel) -> ValueModel {
    ValueModel {
        origin: v.origin,
        collection: Seq::empty(),
        key: v.name,
        key_with_collection: v.name,
        value: v.value,
    }
}

/// One named fact about a transaction that has a single value.
pub struct AnchoredVariable {
    m_offset: usize,
    m_name: String,
    m_value: String,
    m_var: VariableValue,
}

impl View for AnchoredVariable {
    type V = AnchoredModel;

    closed spec fn view(&self) -> AnchoredModel {
        AnchoredModel {
            name: self.m_name@,
            value: self.m_value@,
            offset: self.m_offset,
            origin: self.m_var@.origin,
        }
    }
}

impl AnchoredVariable {
    /// The record kept inside carries the variable's name and no collection.
    pub closed spec fn inv(&self) -> bool {
        &&& self.m_var@.key == self.m_name@
        &&& self.m_var@.key_with_collection == self.m_name@
        &&& self.m_var@.collection == Seq::<char>::empty()
    }

    /// The variable `name` of the transaction `t`, not yet set.
    pub fn new(t: &Transaction, name: &str) -> (v: AnchoredVariable)
        ensures
            v.inv(),
            v@ == (AnchoredModel {
                name: name@,
                value: Seq::empty(),
                offset: 0,
                origin: Seq::empty(),
            }),
    {
        AnchoredVariable {
            m_offset: 0,
            m_name: String::from_str(name),
            m_value: String::new(),
            m_var: VariableValue::new(name, None),
        }
    }

    /// Clears the value. The recorded ranges stay.
    pub fn unset(&mut self)
        requires
            old(self).inv(),
        ensures
            final(self).inv(),
            final(self)@ == (AnchoredModel { value: Seq::empty(), ..old(self)@ }),
    {
        self.m_value = String::new();
    }

    /// Replaces the value by one found at `offset`, whose range is the only one recorded.
    pub fn set(&mut self, value: &str, offset: usize)
        requires
            old(self).inv(),
        ensures
            final(self).inv(),
            final(self)@ == (AnchoredModel {
                value: value@,
                offset,
                origin: seq![origin_at(value.spec_bytes().len() as usize, offset)],
                ..old(self)@
            }),
    {
        self.set_with_length(value, offset, value.len());
    }

    /// As `set`, with the length of the range given.
    pub fn set_with_length(&mut self, value: &str, offset: usize, length: usize)
        requires
            old(self).inv(),
        ensures
            final(self).inv(),
            final(self)@ == (AnchoredModel {
                value: value@,
                offset,
                origin: seq![origin_at(length, offset)],
                ..old(self)@
            }),
    {
        self.m_value = String::from_str(value);
        self.m_offset = offset;
        let mut var = VariableValue::new(self.m_name.as_str(), None);
        var.add_origin(VariableOrigin::new_with_props(length, offset));
        self.m_var = var;
        assert(self.m_var@.origin =~= seq![origin_at(length, offset)]);
    }

    /// Puts `value`, found at `offset`, behind the value, and records its range
    /// behind the ranges already recorded.
    pub fn append(&mut self, value: &str, offset: usize, space_separator: bool)
        requires
            old(self).inv(),
        ensures
            final(self).inv(),
            final(self)@ == (AnchoredModel {
                value: joined(old(self)@.value, value@, space_separator),
                offset,
                origin: old(self)@.origin.push(
                    origin_at(value.spec_bytes().len() as usize, offset),
                ),
                ..old(self)@
            }),
    {
        self.append_with_length(value, offset, value.len(), space_separator);
    }

    /// As `append`, with the length of the range given.
    pub fn append_with_length(
        &mut self,
        value: &str,
        offset: usize,
        length: usize,
        space_separator: bool,
    )
        requires
            old(self).inv(),
        ensures
            final(self).inv(),
            final(self)@ == (AnchoredModel {
                value: joined(old(self)@.value, value@, space_separator),
                offset,
                origin: old(self)@.origin.push(origin_at(length, offset)),
                ..old(self)@
            }),
    {
        if space_separator && !self.m_value.as_str().is_empty() && !value.is_empty() {
            self.m_value.push(' ');
        }
        self.m_value.append(value);
        self.m_offset = offset;
        self.m_var.add_origin(VariableOrigin::new_with_props(length, offset));
        assert(self.m_value@ =~= joined(old(self)@.value, value@, space_separator));
    }

    /// The current value; the empty string where none was set.
    pub fn evaluate(&self) -> (value: &str)
        ensures
            value@ == self@.value,
    {
        self.m_value.as_str()
    }

    /// Puts the variable's record behind `l`. A variable without a name hands out nothing.
    pub fn evaluate_variable_values(&mut self, l: &mut Vec<VariableValue>)
        requires
            old(self).inv(),
        ensures
            final(self).inv(),
            final(self)@ == old(self)@,
            models(final(l)@) == if old(self)@.name.len() == 0 {
                models(old(l)@)
            } else {
                models(old(l)@).push(snapshot(old(self)@))
            },
    {
        if self.m_name.as_str().is_empty() {
            return;
        }
        self.m_var.set_value(self.m_value.as_str());
        let new_var = VariableValue::new_from(&self.m_var);
        l.push(new_var);
        assert(models(l@) =~= models(old(l)@).push(snapshot(old(self)@)));
    }

    /// A copy of the current value.
    pub fn resolve_first(&self) -> (value: String)
        ensures
            value@ == self@.value,
    {
        self.m_value.clone()
    }
}

} // verus!
