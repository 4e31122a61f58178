use vstd::prelude::*;
use vstd::string::StringExecFns;
use crate::rules::rule::{Rule, RuleMessage};
use crate::transaction::Transaction;

verus! {

/// A rule that carries actions. It knows the place where it was read.
pub struct RuleWithActions {
    m_file_name: String,
    m_line_number: i32,
}

impl RuleWithActions {
    /// The rule read at line `line_number` of `file_name`.
    pub fn new(file_name: &str, line_number: i32) -> (r: RuleWithActions)
        ensures
            r.file_name() == file_name@,
            r.line_number() == line_number,
    {
        RuleWithActions { m_file_name: String::from_str(file_name), m_line_number: line_number }
    }
}

impl Rule for RuleWithActions {
    closed spec fn file_name(&self) -> Seq<char> {
        self.m_file_name@
    }

    closed spec fn line_number(&self) -> int {
        self.m_line_number as int
    }

    /// A rule without an operator matches nothing.
    fn evaluate(&self, transaction: &Transaction) -> (matched: bool)
        ensures
            !matched,
    {
        false
    }

    fn evaluate_rule_message(&self, transaction: &Transaction, rm: &RuleMessage) -> (matched: bool)
        ensures
            !matched,
    {
        false
    }

    fn get_file_name(&self) -> (name: &str) {
        self.m_file_name.as_str()
    }

    fn get_line_number(&self) -> (line: i32) {
        self.m_line_number
    }
}

} // verus!
