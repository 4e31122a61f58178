use vstd::prelude::*;
use vstd::string::StringExecFns;
use crate::text::{push_signed_decimal, signed_decimal};
use crate::transaction::Transaction;

verus! {

/// What a rule reports when it matches.
pub struct RuleMessage {}

/// How a rule is cited: its file, or `<<no file>>` where it has none, a colon
/// and its line.
pub open spec fn reference_text(file_name: Seq<char>, line: int) -> Seq<char> {
    (if file_name.len() == 0 {
        "<<no file>>"@
    } else {
        file_name
    }) + seq![':'] + signed_decimal(line)
}

/// Builds the citation of a rule from its file and line.
pub fn make_reference(file_name: &str, line: i32) -> (reference: String)
    ensures
        reference@ == reference_text(file_name@, line as int),
{
    let mut reference = if file_name.is_empty() {
        String::from_str("<<no file>>")
    } else {
        String::from_str(file_name)
    };
    reference.push(':');
    push_signed_decimal(&mut reference, line);
    assert(reference@ =~= reference_text(file_name@, line as int));
    reference
}

pub trait Rule {
    /// The file that the rule was read from; empty where it has none.
    spec fn file_name(&self) -> Seq<char>;

    /// The line of that file on which the rule stands.
    spec fn line_number(&self) -> int;

    fn evaluate(&self, transaction: &Transaction) -> bool;

    fn evaluate_rule_message(&self, transaction: &Transaction, rm: &RuleMessage) -> bool;

    fn is_marker(&self) -> (marker: bool)
        ensures
            !marker,
    {
        false
    }

    fn get_file_name(&self) -> (name: &str)
        ensures
            name@ == self.file_name(),
    ;

    fn get_line_number(&self) -> (line: i32)
        ensures
            line == self.line_number(),
    ;

    fn get_reference(&self) -> (reference: String)
        ensures
            reference@ == reference_text(self.file_name(), self.line_number()),
    {
        make_reference(self.get_file_name(), self.get_line_number())
    }
}

} // verus!
