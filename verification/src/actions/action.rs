use vstd::prelude::*;
use vstd::string::StringExecFns;
use crate::rules::rule::RuleMessage;
use crate::rules::rule_with_actions::RuleWithActions;
use crate::text::{chars_of, string_of};
use crate::transaction::Transaction;

verus! {

/// When an action runs.
#[derive(Clone, Copy, Debug, PartialEq, Eq, Structural)]
pub enum Kind {
    /// While the configuration is read: the id of a rule, its phase.
    ConfigurationKind,
    /// Before the operator is called: the transformations.
    RunTimeBeforeMatchAttemptKind,
    /// After the operator matched: the disruptive actions.
    RunTimeOnlyIfMatchKind,
}

pub trait Action {
    /// What the action answers when it is run for the rule `ra` in `transaction`.
    spec fn rule_actions_result(&self, ra: &RuleWithActions, transaction: &Transaction) -> bool;

    fn init(&self, err: &str) -> (ready: bool)
        ensures
            ready,
    {
        true
    }

    fn is_disruptive() -> (disruptive: bool)
        ensures
            !disruptive,
    {
        false
    }

    fn evaluate(&self, value: &str, transaction: &Transaction) -> String;

    fn evaluate_rule_actions(&self, ra: &RuleWithActions, transaction: &Transaction) -> (done: bool)
        ensures
            done == self.rule_actions_result(ra, transaction),
    ;

    /// Runs the action with the message of the rule at hand. An action that
    /// has no use for the message answers as it does without one.
    fn evaluate_rule_actions_with_message(
        &self,
        ra: &RuleWithActions,
        transaction: &Transaction,
        rm: &RuleMessage,
    ) -> (done: bool)
        ensures
            done == self.rule_actions_result(ra, transaction),
    {
        self.evaluate_rule_actions(ra, transaction)
    }
}

/// The text without the transformation prefixes `t:` that it starts with.
pub open spec fn without_prefix(d: Seq<char>) -> Seq<char>
    decreases d.len(),
{
    if d.len() >= 2 && d[0] == 't' && d[1] == ':' {
        without_prefix(d.skip(2))
    } else {
        d
    }
}

/// The text without the single quotes that it starts with.
pub open spec fn without_quotes(d: Seq<char>) -> Seq<char>
    decreases d.len(),
{
    if d.len() > 0 && d[0] == '\'' {
        without_quotes(d.skip(1))
    } else {
        d
    }
}

/// `i` is the place of the first colon of `d`.
pub open spec fn first_colon_at(d: Seq<char>, i: int) -> bool {
    &&& 0 <= i < d.len()
    &&& d[i] == ':'
    &&& forall|j: int| 0 <= j < i ==> d[j] != ':'
}

pub open spec fn has_colon(d: Seq<char>) -> bool {
    exists|i: int| first_colon_at(d, i)
}

pub open spec fn first_colon(d: Seq<char>) -> int {
    choose|i: int| first_colon_at(d, i)
}

/// The name that the text of an action gives it. The colon is looked for
/// behind the prefixes `t:`, and the text is cut as many characters from its
/// start as the colon stands behind them.
pub open spec fn action_name(data: Seq<char>) -> Seq<char> {
    if has_colon(without_prefix(data)) {
        data.take(first_colon(without_prefix(data)))
    } else {
        data
    }
}

/// The payload that the text of an action gives it: what follows the name,
/// without the single quotes at its start and without its last character.
/// A text without a colon leaves the payload as it was.
pub open spec fn action_payload(data: Seq<char>, payload: Seq<char>) -> Seq<char> {
    if has_colon(without_prefix(data)) {
        let rest = without_quotes(data.skip(first_colon(without_prefix(data))));
        if rest.len() > 0 {
            rest.drop_last()
        } else {
            rest
        }
    } else {
        payload
    }
}

/// What every action has: a name, and the payload that the parser gave it.
pub struct BaseAction {
    pub m_name: String,
    pub m_parser_payload: String,
}

impl BaseAction {
    /// The action that the text `act` writes.
    pub fn new(act: &str) -> (a: BaseAction)
        ensures
            a.m_name@ == action_name(act@),
            a.m_parser_payload@ == action_payload(act@, Seq::empty()),
    {
        let mut base_action = BaseAction { m_name: String::new(), m_parser_payload: String::new() };
        base_action.set_name_and_payload(act);
        base_action
    }

    /// Takes the name and the payload from the text of an action.
    pub fn set_name_and_payload(&mut self, data: &str)
        ensures
            final(self).m_name@ == action_name(data@),
            final(self).m_parser_payload@ == action_payload(data@, old(self).m_parser_payload@),
    {
        let d = chars_of(data);
        let n = d.len();
        let mut k: usize = 0;
        assert(d@.skip(0) =~= d@);
        while n - k >= 2 && d[k] == 't' && d[k + 1] == ':'
            invariant
                n == d@.len(),
                k <= n,
                without_prefix(d@) == without_prefix(d@.skip(k as int)),
            decreases n - k,
        {
            assert(d@.skip(k as int).skip(2) =~= d@.skip(k + 2));
            k = k + 2;
        }
        let ghost dt = d@.skip(k as int);
        assert(without_prefix(d@) == dt);
        let mut i: usize = 0;
        let mut found = false;
        while k + i < n
            invariant_except_break
                !found,
            invariant
                n == d@.len(),
                k <= n,
                k + i <= n,
                dt == d@.skip(k as int),
                forall|j: int| 0 <= j < i ==> dt[j] != ':',
            ensures
                k + i <= n,
                found ==> first_colon_at(dt, i as int),
                !found ==> !has_colon(dt),
            decreases n - k - i,
        {
            if d[k + i] == ':' {
                found = true;
                assert(dt[i as int] == ':');
                break;
            }
            i = i + 1;
        }
        if !found {
            self.m_name = String::from_str(data);
            return;
        }
        proof {
            let c = first_colon(dt);
            assert(first_colon_at(dt, i as int));
            assert(first_colon_at(dt, c));
            if c < i {
                assert(dt[c] != ':');
            } else if i < c {
                assert(dt[i as int] != ':');
            }
        }
        let mut q: usize = i;
        assert(d@.skip(i as int).skip(0) =~= d@.skip(i as int));
        while q < n && d[q] == '\''
            invariant
                n == d@.len(),
                i <= q <= n,
                without_quotes(d@.skip(i as int)) == without_quotes(d@.skip(q as int)),
            decreases n - q,
        {
            assert(d@.skip(q as int).skip(1) =~= d@.skip(q + 1));
            q = q + 1;
        }
        let ghost rest = d@.skip(q as int);
        assert(without_quotes(d@.skip(i as int)) == rest);
        self.m_name = string_of(&d, 0, i);
        assert(d@.subrange(0, i as int) =~= d@.take(i as int));
        if q < n {
            self.m_parser_payload = string_of(&d, q, n - 1);
            assert(d@.subrange(q as int, n - 1) =~= rest.drop_last());
        } else {
            self.m_parser_payload = String::new();
            assert(rest =~= Seq::empty());
        }
    }
}

impl Action for BaseAction {
    /// The action by itself does nothing, and is done with it.
    open spec fn rule_actions_result(&self, ra: &RuleWithActions, transaction: &Transaction) -> bool {
        true
    }

    /// The value goes through unchanged.
    fn evaluate(&self, value: &str, transaction: &Transaction) -> (result: String)
        ensures
            result@ == value@,
    {
        String::from_str(value)
    }

    fn evaluate_rule_actions(&self, ra: &RuleWithActions, transaction: &Transaction) -> (done: bool)
        ensures
            done,
    {
        true
    }
}

} // verus!
