use vstd::prelude::*;
use crate::actions::action::{action_name, action_payload, Action, BaseAction, Kind};
use crate::rules::rule_with_actions::RuleWithActions;
use crate::transaction::Transaction;

verus! {

/// The action that marks a transaction for the audit log.
pub struct AuditLog {
    pub base: BaseAction,
    pub action_kind: Kind,
    pub m_is_none: bool,
    pub temporary_action: bool,
}

impl AuditLog {
    /// The action that the text `action` writes, run only where the rule matched.
    pub fn new(action: &str) -> (a: AuditLog)
        ensures
            a.base.m_name@ == action_name(action@),
            a.base.m_parser_payload@ == action_payload(action@, Seq::empty()),
            a.action_kind == Kind::RunTimeOnlyIfMatchKind,
            !a.m_is_none,
            !a.temporary_action,
    {
        AuditLog::new_kind(action, Kind::RunTimeOnlyIfMatchKind)
    }

    /// The action that the text `action` writes, run when `kind` says.
    pub fn new_kind(action: &str, kind: Kind) -> (a: AuditLog)
        ensures
            a.base.m_name@ == action_name(action@),
            a.base.m_parser_payload@ == action_payload(action@, Seq::empty()),
            a.action_kind == kind,
            !a.m_is_none,
            !a.temporary_action,
    {
        AuditLog {
            base: BaseAction::new(action),
            action_kind: kind,
            m_is_none: false,
            temporary_action: false,
        }
    }
}

impl Action for AuditLog {
    /// Marking the transaction cannot fail.
    open spec fn rule_actions_result(&self, ra: &RuleWithActions, transaction: &Transaction) -> bool {
        true
    }

    fn evaluate(&self, value: &str, transaction: &Transaction) -> (result: String)
        ensures
            result@ == value@,
    {
        self.base.evaluate(value, transaction)
    }

    fn evaluate_rule_actions(&self, ra: &RuleWithActions, transaction: &Transaction) -> (done: bool)
        ensures
            done,
    {
        self.base.evaluate_rule_actions(ra, transaction)
    }
}

} // verus!
