//! The active policy: how it is loaded, and what a reload does to it.

use std::sync::Arc;

use vstd::prelude::*;

use crate::engine::{law_default_applies, law_first_match_wins};
use crate::error::{GateError, GateErrorView};
use crate::policy::{
    law_compile_keeps_every_rule, law_compile_succeeds_iff_every_rule_does,
    law_first_bad_rule_decides_the_error, Policy, PolicyFile, PolicyFileView, PolicyView, RuleSpecView,
    RuleView,
};
use crate::text;
use crate::types::{Action, DecisionView, ToolCallView};

verus! {

/// What reading and parsing a policy file gave.
#[derive(Debug)]
pub enum PolicyRead {
    /// The file could not be read; the system's words for it.
    Unreadable(String),
    /// The file holds no policy; the parser's words for it.
    Malformed(String),
    Parsed(PolicyFile),
}

/// A [`PolicyRead`] with its texts as sequences of characters.
pub enum PolicyReadView {
    Unreadable(Seq<char>),
    Malformed(Seq<char>),
    Parsed(PolicyFileView),
}

impl View for PolicyRead {
    type V = PolicyReadView;

    open spec fn view(&self) -> PolicyReadView {
        match *self {
            PolicyRead::Unreadable(s) => PolicyReadView::Unreadable(s@),
            PolicyRead::Malformed(s) => PolicyReadView::Malformed(s@),
            PolicyRead::Parsed(file) => PolicyReadView::Parsed(file@),
        }
    }
}

impl PolicyReadView {
    /// The policy that the file at `path` stands for, or why there is none.
    pub open spec fn compiled(self, path: Seq<char>) -> Result<PolicyView, GateErrorView> {
        match self {
            PolicyReadView::Unreadable(source) => Err(GateErrorView::PolicyIo { path, source }),
            PolicyReadView::Malformed(s) => Err(GateErrorView::PolicyParse(s)),
            PolicyReadView::Parsed(file) => file.compiled(),
        }
    }

    /// Compiling what was read does not panic.
    pub open spec fn is_safe(self) -> bool {
        self matches PolicyReadView::Parsed(file) ==> file.is_safe()
    }
}

/// Compiles what was read from the file at `path`. `None` where compiling it
/// would make `globset` panic.
pub fn read_and_compile(path: &str, read: PolicyRead) -> (r: Option<Result<Policy, GateError>>)
    ensures
        r is Some <==> read@.is_safe(),
        match r {
            Some(Ok(policy)) => read@.compiled(path@) == Ok::<PolicyView, GateErrorView>(policy@),
            Some(Err(e)) => read@.compiled(path@) == Err::<PolicyView, GateErrorView>(e@),
            None => true,
        },
{
    match read {
        PolicyRead::Unreadable(source) => Some(
            Err(GateError::PolicyIo { path: path.to_owned(), source }),
        ),
        PolicyRead::Malformed(s) => Some(Err(GateError::PolicyParse(s))),
        PolicyRead::Parsed(file) => Policy::compile_checked(file),
    }
}

/// The policy in force, after a reload that ended so.
pub open spec fn after_reload(
    current: PolicyView,
    outcome: Result<PolicyView, GateErrorView>,
) -> PolicyView {
    match outcome {
        Ok(policy) => policy,
        Err(_) => current,
    }
}

/// The policy in force, after reloads that ended so.
pub open spec fn after_reloads(
    current: PolicyView,
    outcomes: Seq<Result<PolicyView, GateErrorView>>,
) -> PolicyView
    decreases outcomes.len(),
{
    if outcomes.len() == 0 {
        current
    } else {
        after_reload(after_reloads(current, outcomes.drop_last()), outcomes.last())
    }
}

/// The outcome of compiling, with policy and error as their views.
pub open spec fn outcome(compiled: Result<Policy, GateError>) -> Result<PolicyView, GateErrorView> {
    match compiled {
        Ok(policy) => Ok(policy@),
        Err(e) => Err(e@),
    }
}

/// The policy in force, hot-swappable.
pub struct ActivePolicy {
    current: Arc<Policy>,
}

impl View for ActivePolicy {
    type V = PolicyView;

    closed spec fn view(&self) -> PolicyView {
        self.current@
    }
}

impl ActivePolicy {
    /// Puts a first policy in force.
    pub fn load(compiled: Result<Policy, GateError>) -> (r: Result<Self, GateError>)
        ensures
            match r {
                Ok(active) => outcome(compiled) == Ok::<PolicyView, GateErrorView>(active@),
                Err(e) => outcome(compiled) == Err::<PolicyView, GateErrorView>(e@),
            },
            match compiled {
                Ok(policy) => r matches Ok(active) && active@ == policy@,
                Err(e) => r == Err::<Self, GateError>(e),
            },
    {
        match compiled {
            Ok(policy) => Ok(ActivePolicy { current: Arc::new(policy) }),
            Err(e) => Err(e),
        }
    }

    /// The policy in force.
    pub fn current(&self) -> (r: &Arc<Policy>)
        ensures
            r@ == self@,
    {
        &self.current
    }

    /// Puts a new policy in force and returns its number of rules. Where there
    /// is none, the previous policy stays.
    pub fn reload(&mut self, compiled: Result<Policy, GateError>) -> (r: Result<usize, GateError>)
        ensures
            final(self)@ == after_reload(old(self)@, outcome(compiled)),
            match r {
                Ok(n) => compiled is Ok && n == final(self)@.rules.len(),
                Err(e) => outcome(compiled) == Err::<PolicyView, GateErrorView>(e@),
            },
            match compiled {
                Ok(policy) => final(self)@ == policy@ && r == Ok::<usize, GateError>(
                    policy.rules.len(),
                ),
                Err(e) => final(self)@ == old(self)@ && r == Err::<usize, GateError>(e),
            },
    {
        match compiled {
            Ok(policy) => {
                let n: usize = policy.rules.len();
                self.current = Arc::new(policy);
                Ok(n)
            },
            Err(e) => Err(e),
        }
    }
}

/// What is loaded is the file's own policy: its default, and what each of its
/// rules compiles to, in order; where it is loaded from makes no difference.
pub proof fn law_loaded_policy_is_the_files(
    path: Seq<char>,
    file: PolicyFileView,
    policy: PolicyView,
)
    requires
        PolicyReadView::Parsed(file).compiled(path) == Ok::<PolicyView, GateErrorView>(policy),
    ensures
        policy.default == file.default,
        policy.rules.len() == file.rules.len(),
        forall|i: int|
            0 <= i < file.rules.len() ==> (#[trigger] file.rules[i]).compiled(i as u32) == Ok::<
                RuleView,
                GateErrorView,
            >(policy.rules[i]),
        forall|elsewhere: Seq<char>| #[trigger]
            PolicyReadView::Parsed(file).compiled(elsewhere) == Ok::<PolicyView, GateErrorView>(
                policy,
            ),
{
    law_compile_keeps_every_rule(file, policy);
}

/// A file that was read loads just where every rule in it compiles, and the
/// error is that of the first that does not.
pub proof fn law_file_loads_iff_every_rule_compiles(path: Seq<char>, file: PolicyFileView)
    ensures
        PolicyReadView::Parsed(file).compiled(path) is Ok <==> forall|i: int|
            0 <= i < file.rules.len() ==> (#[trigger] file.rules[i]).compiled(i as u32) is Ok,
        forall|i: int|
            {
                &&& 0 <= i < file.rules.len()
                &&& (#[trigger] file.rules[i]).compiled(i as u32) is Err
                &&& forall|j: int| 0 <= j < i ==> (#[trigger] file.rules[j]).compiled(j as u32) is Ok
            } ==> PolicyReadView::Parsed(file).compiled(path) == Err::<PolicyView, GateErrorView>(
                file.rules[i].compiled(i as u32)->Err_0,
            ),
{
    law_compile_succeeds_iff_every_rule_does(file);
    assert forall|i: int|
        {
            &&& 0 <= i < file.rules.len()
            &&& (#[trigger] file.rules[i]).compiled(i as u32) is Err
            &&& forall|j: int| 0 <= j < i ==> (#[trigger] file.rules[j]).compiled(j as u32) is Ok
        } implies PolicyReadView::Parsed(file).compiled(path) == Err::<PolicyView, GateErrorView>(
        file.rules[i].compiled(i as u32)->Err_0,
    ) by {
        law_first_bad_rule_decides_the_error(file, i);
    }
}

/// What could not be read or parsed is no policy: the error names the file
/// that could not be read, and holds the words of the system or the parser.
pub proof fn law_failed_read_is_reported(path: Seq<char>, words: Seq<char>)
    ensures
        PolicyReadView::Unreadable(words).compiled(path) == Err::<PolicyView, GateErrorView>(
            GateErrorView::PolicyIo { path, source: words },
        ),
        PolicyReadView::Malformed(words).compiled(path) == Err::<PolicyView, GateErrorView>(
            GateErrorView::PolicyParse(words),
        ),
        PolicyReadView::Unreadable(words).is_safe(),
        PolicyReadView::Malformed(words).is_safe(),
{
}

/// Loading a file that was read is safe just where compiling it is.
pub proof fn law_load_is_safe_where_compiling_is(file: PolicyFileView)
    ensures
        PolicyReadView::Parsed(file).is_safe() <==> file.is_safe(),
{
}

/// The first rule of the loaded file that applies decides, with the action and
/// the reason that are written there.
pub proof fn law_first_written_rule_decides(
    path: Seq<char>,
    file: PolicyFileView,
    policy: PolicyView,
    call: ToolCallView,
    i: int,
)
    requires
        PolicyReadView::Parsed(file).compiled(path) == Ok::<PolicyView, GateErrorView>(policy),
        0 <= i < policy.rules.len(),
        policy.rules[i].applies(call),
        forall|j: int| 0 <= j < i ==> !(#[trigger] policy.rules[j]).applies(call),
    ensures
        match file.rules[i] {
            RuleSpecView::Full(f) => match (f.action, f.reason) {
                (Action::Allow, _) => policy.decide(call) is Allow,
                (Action::Deny, Some(reason)) => policy.decide(call) == (DecisionView::Deny {
                    reason,
                }),
                (Action::Deny, None) => policy.decide(call) == (DecisionView::Deny {
                    reason: "denied by policy"@,
                }),
                (Action::Ask, Some(reason)) => policy.decide(call) == (DecisionView::Ask { reason }),
                (Action::Ask, None) => policy.decide(call) == (DecisionView::Ask {
                    reason: "confirmation required by policy"@,
                }),
            },
            RuleSpecView::DenyPrefix(p) => policy.decide(call) == (DecisionView::Deny {
                reason: "matched deny-list shorthand "@ + text::quoted(p),
            }),
        },
{
    law_loaded_policy_is_the_files(path, file, policy);
    assert(file.rules[i].compiled(i as u32) is Ok);
    law_first_match_wins(policy, call, i);
}

/// Where no rule of the loaded file applies, the default that is written there
/// decides.
pub proof fn law_written_default_decides(
    path: Seq<char>,
    file: PolicyFileView,
    policy: PolicyView,
    call: ToolCallView,
)
    requires
        PolicyReadView::Parsed(file).compiled(path) == Ok::<PolicyView, GateErrorView>(policy),
        forall|i: int| 0 <= i < policy.rules.len() ==> !(#[trigger] policy.rules[i]).applies(call),
    ensures
        match file.default {
            Action::Allow => policy.decide(call) is Allow,
            Action::Deny => policy.decide(call) == (DecisionView::Deny {
                reason: "no matching rule; denied by default"@,
            }),
            Action::Ask => policy.decide(call) == (DecisionView::Ask {
                reason: "no matching rule; confirmation required"@,
            }),
        },
{
    law_loaded_policy_is_the_files(path, file, policy);
    law_default_applies(policy, call);
}

/// The outcome of compiling is the policy that came out of it, or the error.
pub proof fn law_outcome_is_what_came_out(compiled: Result<Policy, GateError>)
    ensures
        match compiled {
            Ok(policy) => outcome(compiled) == Ok::<PolicyView, GateErrorView>(policy@),
            Err(e) => outcome(compiled) == Err::<PolicyView, GateErrorView>(e@),
        },
{
}

/// The model of what was read tells its three cases apart, and holds the words
/// or the file.
pub proof fn law_model_of_a_read(read: PolicyRead)
    ensures
        match read {
            PolicyRead::Unreadable(s) => read@ == PolicyReadView::Unreadable(s@),
            PolicyRead::Malformed(s) => read@ == PolicyReadView::Malformed(s@),
            PolicyRead::Parsed(file) => read@ == PolicyReadView::Parsed(file@),
        },
{
}

/// A reload that succeeds puts the whole new policy in force, whatever was
/// before, and one that fails leaves every answer as it was.
pub proof fn law_reload_replaces_or_keeps(
    current: PolicyView,
    other: PolicyView,
    new: PolicyView,
    e: GateErrorView,
    call: ToolCallView,
)
    ensures
        after_reload(current, Ok(new)) == new,
        after_reload(current, Ok(new)) == after_reload(other, Ok(new)),
        after_reload(current, Err(e)) == current,
        after_reload(current, Err(e)).decide(call) == current.decide(call),
{
}

/// Reloads that come after one another: each starts from where the ones before
/// it ended.
pub proof fn law_reloads_follow_one_another(
    current: PolicyView,
    a: Seq<Result<PolicyView, GateErrorView>>,
    b: Seq<Result<PolicyView, GateErrorView>>,
)
    ensures
        after_reloads(current, a + b) == after_reloads(after_reloads(current, a), b),
    decreases b.len(),
{
    if b.len() == 0 {
        assert(a + b =~= a);
    } else {
        assert((a + b).drop_last() =~= a + b.drop_last());
        assert((a + b).last() == b.last());
        law_reloads_follow_one_another(current, a, b.drop_last());
    }
}

/// Reloads that fail, however many, leave the policy in force.
pub proof fn law_failed_reloads_keep_the_policy(
    current: PolicyView,
    outcomes: Seq<Result<PolicyView, GateErrorView>>,
)
    requires
        forall|i: int| 0 <= i < outcomes.len() ==> (#[trigger] outcomes[i]) is Err,
    ensures
        after_reloads(current, outcomes) == current,
    decreases outcomes.len(),
{
    if outcomes.len() > 0 {
        law_failed_reloads_keep_the_policy(current, outcomes.drop_last());
    }
}

/// After a reload that succeeded, and any number that failed, its policy is
/// in force.
pub proof fn law_last_good_policy_is_in_force(
    current: PolicyView,
    outcomes: Seq<Result<PolicyView, GateErrorView>>,
    i: int,
)
    requires
        0 <= i < outcomes.len(),
        outcomes[i] is Ok,
        forall|j: int| i < j < outcomes.len() ==> (#[trigger] outcomes[j]) is Err,
    ensures
        after_reloads(current, outcomes) == outcomes[i]->Ok_0,
    decreases outcomes.len(),
{
    if i < outcomes.len() - 1 {
        law_last_good_policy_is_in_force(current, outcomes.drop_last(), i);
    }
}

} // verus!
