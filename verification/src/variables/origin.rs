use vstd::prelude::*;
use crate::text::{decimal, push_decimal};

verus! {

/// Where a captured value came from: a byte range of the raw transaction data.
pub struct VariableOrigin {
    pub m_length: usize,
    pub m_offset: usize,
}

/// The diagnostic rendering of a range: the letter `v`, the offset, a comma, the length.
pub open spec fn origin_text(offset: nat, length: nat) -> Seq<char> {
    seq!['v'] + decimal(offset) + seq![','] + decimal(length)
}

impl VariableOrigin {
    /// The empty range at the start of the buffer.
    pub fn new() -> (o: VariableOrigin)
        ensures
            o.m_length == 0,
            o.m_offset == 0,
    {
        VariableOrigin { m_length: 0, m_offset: 0 }
    }

    /// The range of `length` bytes that starts at `offset`.
    pub fn new_with_props(length: usize, offset: usize) -> (o: VariableOrigin)
        ensures
            o.m_length == length,
            o.m_offset == offset,
    {
        VariableOrigin { m_length: length, m_offset: offset }
    }

    /// Renders the range for the audit log, offset first.
    pub fn to_text(&self) -> (text: String)
        ensures
            text@ == origin_text(self.m_offset as nat, self.m_length as nat),
    {
        let mut text = String::new();
        text.push('v');
        push_decimal(&mut text, self.m_offset as u64);
        text.push(',');
        push_decimal(&mut text, self.m_length as u64);
        assert(text@ =~= origin_text(self.m_offset as nat, self.m_length as nat));
        text
    }

    pub fn set_length(&mut self, length: usize)
        ensures
            final(self).m_length == length,
            final(self).m_offset == old(self).m_offset,
    {
        self.m_length = length;
    }

    pub fn set_offset(&mut self, offset: usize)
        ensures
            final(self).m_offset == offset,
            final(self).m_length == old(self).m_length,
    {
        self.m_offset = offset;
    }
}

} // verus!
