//! The decision engine: given a policy and a tool call, produce a `Decision`.

use vstd::prelude::*;

use crate::error::{GateError, GateErrorView};
use crate::policy::{Policy, PolicyView, Rule, RuleView};
use crate::text;
use crate::text::text_of;
use crate::types::{
    is_agent_name, Action, AgentName, Decision, DecisionView, RuleId, ToolCall, ToolCallView,
};

verus! {

/// Rule `i` is the first that applies to the call.
pub open spec fn is_first_match(rules: Seq<RuleView>, call: ToolCallView, i: int) -> bool {
    &&& 0 <= i < rules.len()
    &&& rules[i].applies(call)
    &&& forall|j: int| 0 <= j < i ==> !(#[trigger] rules[j]).applies(call)
}

/// The verdict of a rule that matched: its own reason, or a generic one for
/// its action.
pub open spec fn verdict(action: Action, reason: Option<Seq<char>>) -> DecisionView {
    match action {
        Action::Allow => DecisionView::Allow,
        Action::Deny => DecisionView::Deny {
            reason: match reason {
                Some(r) => r,
                None => "denied by policy"@,
            },
        },
        Action::Ask => DecisionView::Ask {
            reason: match reason {
                Some(r) => r,
                None => "confirmation required by policy"@,
            },
        },
    }
}

/// The verdict where no rule matched.
pub open spec fn default_verdict(default: Action) -> DecisionView {
    match default {
        Action::Allow => DecisionView::Allow,
        Action::Deny => DecisionView::Deny { reason: "no matching rule; denied by default"@ },
        Action::Ask => DecisionView::Ask { reason: "no matching rule; confirmation required"@ },
    }
}

impl PolicyView {
    /// The first rule that applies decides; where there is none, the default.
    pub open spec fn decide(self, call: ToolCallView) -> DecisionView {
        if exists|i: int| is_first_match(self.rules, call, i) {
            let i = choose|i: int| is_first_match(self.rules, call, i);
            verdict(self.rules[i].action, self.rules[i].reason)
        } else {
            default_verdict(self.default)
        }
    }
}

/// One word for a verdict.
pub open spec fn label(decision: DecisionView) -> Seq<char> {
    match decision {
        DecisionView::Allow => "allow"@,
        DecisionView::Deny { .. } => "deny"@,
        DecisionView::Ask { .. } => "ask"@,
    }
}

/// The first rule that applies to the call.
pub fn first_match<'a>(policy: &'a Policy, call: &ToolCall) -> (r: Option<&'a Rule>)
    ensures
        match r {
            Some(rule) => exists|i: int|
                {
                    &&& is_first_match(policy@.rules, call@, i)
                    &&& policy.rules[i] == *rule
                },
            None => forall|i: int|
                0 <= i < policy@.rules.len() ==> !(#[trigger] policy@.rules[i]).applies(call@),
        },
{
    for i in 0..policy.rules.len()
        invariant
            forall|j: int| 0 <= j < i ==> !(#[trigger] policy@.rules[j]).applies(call@),
    {
        assert(policy@.rules[i as int] == policy.rules[i as int]@);
        if policy.rules[i].applies(call) {
            assert(is_first_match(policy@.rules, call@, i as int));
            return Some(&policy.rules[i]);
        }
    }
    None
}

/// First applicable rule wins; otherwise the policy's `default` action applies.
pub fn evaluate(policy: &Policy, call: &ToolCall) -> (r: Decision)
    ensures
        r@ == policy@.decide(call@),
{
    evaluate_traced(policy, call).0
}

/// [`evaluate`], and the number of the rule that decided, for the trace.
pub fn evaluate_traced(policy: &Policy, call: &ToolCall) -> (r: (Decision, Option<RuleId>))
    ensures
        r.0@ == policy@.decide(call@),
        match r.1 {
            Some(id) => exists|i: int|
                {
                    &&& is_first_match(policy@.rules, call@, i)
                    &&& policy@.rules[i].id == id.0
                },
            None => forall|i: int|
                0 <= i < policy@.rules.len() ==> !(#[trigger] policy@.rules[i]).applies(call@),
        },
{
    match first_match(policy, call) {
        Some(rule) => {
            proof {
                let i = choose|i: int|
                    is_first_match(policy@.rules, call@, i) && policy.rules[i] == *rule;
                law_first_match_wins(policy@, call@, i);
            }
            (action_to_decision(rule.action, rule.reason.clone()), Some(rule.id))
        },
        None => (default_decision(policy.default), None),
    }
}

/// Build the `Decision` for a matched rule: its own `reason`, or a generic
/// default for that action. `Allow` carries no reason.
pub fn action_to_decision(action: Action, reason: Option<String>) -> (r: Decision)
    ensures
        r@ == verdict(action, text_of(reason)),
{
    match action {
        Action::Allow => Decision::Allow,
        Action::Deny => Decision::Deny {
            reason: match reason {
                Some(r) => r,
                None => "denied by policy".to_owned(),
            },
        },
        Action::Ask => Decision::Ask {
            reason: match reason {
                Some(r) => r,
                None => "confirmation required by policy".to_owned(),
            },
        },
    }
}

/// Build the `Decision` when no rule matched, applying the policy `default`.
pub fn default_decision(default: Action) -> (r: Decision)
    ensures
        r@ == default_verdict(default),
{
    match default {
        Action::Allow => Decision::Allow,
        Action::Deny => Decision::Deny {
            reason: "no matching rule; denied by default".to_owned(),
        },
        Action::Ask => Decision::Ask {
            reason: "no matching rule; confirmation required".to_owned(),
        },
    }
}

pub fn decision_label(decision: &Decision) -> (r: &'static str)
    ensures
        r@ == label(decision@),
{
    match decision {
        Decision::Allow => "allow",
        Decision::Deny { .. } => "deny",
        Decision::Ask { .. } => "ask",
    }
}

/// A decision as it goes over the wire: `{"decision": .., "reason": ..}`, the
/// second only where there is one.
#[derive(Debug, PartialEq, Eq)]
pub struct DecisionBody {
    pub decision: &'static str,
    pub reason: Option<String>,
}

/// A [`DecisionBody`] with its texts as sequences of characters.
pub struct DecisionBodyView {
    pub decision: Seq<char>,
    pub reason: Option<Seq<char>>,
}

impl View for DecisionBody {
    type V = DecisionBodyView;

    open spec fn view(&self) -> DecisionBodyView {
        DecisionBodyView { decision: self.decision@, reason: text_of(self.reason) }
    }
}

/// What goes over the wire for a decision: a tag in lower case, and the reason
/// of a denial or a question.
pub open spec fn body(decision: DecisionView) -> DecisionBodyView {
    match decision {
        DecisionView::Allow => DecisionBodyView { decision: "allow"@, reason: None },
        DecisionView::Deny { reason } => DecisionBodyView {
            decision: "deny"@,
            reason: Some(reason),
        },
        DecisionView::Ask { reason } => DecisionBodyView { decision: "ask"@, reason: Some(reason) },
    }
}

/// The decision as it goes over the wire.
pub fn decision_body(decision: Decision) -> (r: DecisionBody)
    ensures
        r@ == body(decision@),
        r.decision@ == label(decision@),
{
    let tag = decision_label(&decision);
    let reason = match decision {
        Decision::Allow => None,
        Decision::Deny { reason } => Some(reason),
        Decision::Ask { reason } => Some(reason),
    };
    DecisionBody { decision: tag, reason }
}

/// One-shot evaluation of a call given in words, without a session.
pub fn check(policy: &Policy, tool: String, command: String, agent: String) -> (r: Result<
    Decision,
    GateError,
>)
    ensures
        match r {
            Ok(decision) => is_agent_name(agent@) && decision@ == policy@.decide(
                ToolCallView { tool: tool@, command: command@, agent: agent@, session: None },
            ),
            Err(e) => !is_agent_name(agent@) && e@ == GateErrorView::InvalidAgent(agent@),
        },
{
    match AgentName::try_from(agent) {
        Ok(agent) => {
            let call = ToolCall { tool, command, agent, session: None };
            Ok(evaluate(policy, &call))
        },
        Err(e) => Err(e),
    }
}

/// The first rule that applies decides, and nothing else does: by its action,
/// and with its own reason or a generic one.
pub proof fn law_first_match_wins(policy: PolicyView, call: ToolCallView, i: int)
    requires
        0 <= i < policy.rules.len(),
        policy.rules[i].applies(call),
        forall|j: int| 0 <= j < i ==> !(#[trigger] policy.rules[j]).applies(call),
    ensures
        policy.decide(call) == verdict(policy.rules[i].action, policy.rules[i].reason),
        policy.rules[i].action is Allow ==> policy.decide(call) is Allow,
        policy.rules[i].action is Deny ==> (policy.decide(call) matches DecisionView::Deny { reason }
            && match policy.rules[i].reason {
            Some(own) => reason == own,
            None => reason == "denied by policy"@,
        }),
        policy.rules[i].action is Ask ==> (policy.decide(call) matches DecisionView::Ask { reason }
            && match policy.rules[i].reason {
            Some(own) => reason == own,
            None => reason == "confirmation required by policy"@,
        }),
{
    assert(is_first_match(policy.rules, call, i));
    let k = choose|k: int| is_first_match(policy.rules, call, k);
    assert(is_first_match(policy.rules, call, k));
    assert(k == i);
}

/// Where no rule applies, the default does, and it says that none matched.
pub proof fn law_default_applies(policy: PolicyView, call: ToolCallView)
    requires
        forall|i: int| 0 <= i < policy.rules.len() ==> !(#[trigger] policy.rules[i]).applies(call),
    ensures
        policy.decide(call) == default_verdict(policy.default),
        policy.default is Allow ==> policy.decide(call) is Allow,
        policy.default is Deny ==> (policy.decide(call) matches DecisionView::Deny { reason }
            && reason == "no matching rule; denied by default"@),
        policy.default is Ask ==> (policy.decide(call) matches DecisionView::Ask { reason }
            && reason == "no matching rule; confirmation required"@),
{
}

/// The first match is the least of the rules that apply: it applies, and none
/// that applies comes before it.
pub proof fn law_first_match_is_the_least(rules: Seq<RuleView>, call: ToolCallView, i: int)
    ensures
        is_first_match(rules, call, i) <==> {
            &&& 0 <= i < rules.len() && rules[i].applies(call)
            &&& forall|k: int|
                0 <= k < rules.len() && (#[trigger] rules[k]).applies(call) ==> i <= k
        },
{
}

/// A rule in front that applies decides, whatever stands behind it; one that
/// does not apply leaves the decision to the rest.
pub proof fn law_rules_are_asked_in_order(policy: PolicyView, rule: RuleView, call: ToolCallView)
    ensures
        ({
            let longer = PolicyView { rules: seq![rule] + policy.rules, ..policy };
            if rule.applies(call) {
                longer.decide(call) == verdict(rule.action, rule.reason)
            } else {
                longer.decide(call) == policy.decide(call)
            }
        }),
{
    let longer = PolicyView { rules: seq![rule] + policy.rules, ..policy };
    assert(longer.rules[0] == rule);
    if rule.applies(call) {
        law_first_match_wins(longer, call, 0);
    } else {
        law_rule_that_does_not_apply_is_ignored(longer, call, 0);
        assert(longer.rules.remove(0) =~= policy.rules);
    }
}

/// The default has no say where a rule applies.
pub proof fn law_default_does_not_matter_where_a_rule_applies(
    policy: PolicyView,
    default: Action,
    call: ToolCallView,
)
    requires
        exists|i: int| 0 <= i < policy.rules.len() && (#[trigger] policy.rules[i]).applies(call),
    ensures
        (PolicyView { default, ..policy }).decide(call) == policy.decide(call),
{
    let i = choose|i: int| 0 <= i < policy.rules.len() && (#[trigger] policy.rules[i]).applies(call);
    let first = lemma_first_match_exists(policy.rules, call, i);
    law_first_match_wins(policy, call, first);
    law_first_match_wins(PolicyView { default, ..policy }, call, first);
}

/// A verdict is of the kind of the rule's action, and gives the rule's own
/// reason as it was written, be it empty; without one it gives a generic
/// reason for the action.
pub proof fn law_verdict_gives_the_rules_reason(action: Action, own: Seq<char>)
    ensures
        action is Allow ==> verdict(action, Some(own)) is Allow && verdict(action, None) is Allow,
        action is Deny ==> verdict(action, Some(own)) == (DecisionView::Deny { reason: own }),
        action is Deny ==> verdict(action, None) == verdict(action, Some("denied by policy"@)),
        action is Ask ==> verdict(action, Some(own)) == (DecisionView::Ask { reason: own }),
        action is Ask ==> verdict(action, None) == verdict(
            action,
            Some("confirmation required by policy"@),
        ),
{
}

/// The default's verdict is of the kind of the default, and never takes a
/// rule's words.
pub proof fn law_default_verdict_is_of_its_kind(default: Action)
    ensures
        default is Allow ==> default_verdict(default) is Allow,
        default is Deny ==> default_verdict(default) == verdict(
            default,
            Some("no matching rule; denied by default"@),
        ),
        default is Ask ==> default_verdict(default) == verdict(
            default,
            Some("no matching rule; confirmation required"@),
        ),
{
}

/// The label is the kind of the decision in lower case, whatever its reason;
/// over the wire the reason goes along, where there is one, as it is.
pub proof fn law_labels(decision: DecisionView)
    ensures
        decision is Allow ==> label(decision) == "allow"@ && body(decision).reason is None,
        decision matches DecisionView::Deny { reason } ==> label(decision) == "deny"@ && body(
            decision,
        ).reason == Some(reason),
        decision matches DecisionView::Ask { reason } ==> label(decision) == "ask"@ && body(
            decision,
        ).reason == Some(reason),
{
}

/// The model of what goes over the wire holds its texts, each in its place.
pub proof fn law_model_of_a_body(b: DecisionBody)
    ensures
        b@.decision == b.decision@,
        match b.reason {
            Some(s) => b@.reason == Some(s@),
            None => b@.reason is None,
        },
{
}

/// Rules behind one that applies make no difference.
pub proof fn law_later_rules_do_not_matter(
    policy: PolicyView,
    more: Seq<RuleView>,
    call: ToolCallView,
)
    requires
        exists|i: int| 0 <= i < policy.rules.len() && (#[trigger] policy.rules[i]).applies(call),
    ensures
        (PolicyView { rules: policy.rules + more, ..policy }).decide(call) == policy.decide(call),
{
    let i = choose|i: int| 0 <= i < policy.rules.len() && (#[trigger] policy.rules[i]).applies(call);
    let first = lemma_first_match_exists(policy.rules, call, i);
    let longer = PolicyView { rules: policy.rules + more, ..policy };
    assert(is_first_match(longer.rules, call, first)) by {
        assert forall|j: int| 0 <= j < first implies !(#[trigger] longer.rules[j]).applies(call) by {
            assert(longer.rules[j] == policy.rules[j]);
        }
    }
    law_first_match_wins(policy, call, first);
    law_first_match_wins(longer, call, first);
}

/// A rule that does not apply, such as one scoped to another agent or another
/// tool, makes no difference.
pub proof fn law_rule_that_does_not_apply_is_ignored(
    policy: PolicyView,
    call: ToolCallView,
    i: int,
)
    requires
        0 <= i < policy.rules.len(),
        !policy.rules[i].applies(call),
    ensures
        (PolicyView { rules: policy.rules.remove(i), ..policy }).decide(call) == policy.decide(
            call,
        ),
{
    let fewer = PolicyView { rules: policy.rules.remove(i), ..policy };
    assert forall|j: int| 0 <= j < fewer.rules.len() implies #[trigger] fewer.rules[j]
        == policy.rules[if j < i {
        j
    } else {
        j + 1
    }] by {}
    if exists|k: int| 0 <= k < policy.rules.len() && (#[trigger] policy.rules[k]).applies(call) {
        let k = choose|k: int|
            0 <= k < policy.rules.len() && (#[trigger] policy.rules[k]).applies(call);
        let first = lemma_first_match_exists(policy.rules, call, k);
        let moved = if first < i {
            first
        } else {
            first - 1
        };
        assert(is_first_match(fewer.rules, call, moved));
        law_first_match_wins(policy, call, first);
        law_first_match_wins(fewer, call, moved);
    } else {
        law_default_applies(policy, call);
        law_default_applies(fewer, call);
    }
}

/// A rule scoped to a tool applies to no call of another tool.
pub proof fn law_tool_scope(rule: RuleView, tool: Seq<char>, call: ToolCallView)
    requires
        rule.tool == Some(tool),
        call.tool != tool,
    ensures
        !rule.applies(call),
{
}

/// A rule scoped to an agent applies to no call from another agent.
pub proof fn law_agent_scope(rule: RuleView, agent: Seq<char>, call: ToolCallView)
    requires
        rule.agent == Some(agent),
        call.agent != agent,
    ensures
        !rule.applies(call),
{
}

/// White space before and after a command makes no difference.
pub proof fn law_padding_does_not_matter(
    policy: PolicyView,
    call: ToolCallView,
    before: Seq<char>,
    after: Seq<char>,
)
    requires
        text::is_blank(before),
        text::is_blank(after),
    ensures
        policy.decide(ToolCallView { command: before + call.command + after, ..call })
            == policy.decide(call),
{
    text::lemma_trimmed_padding(before, call.command, after);
    lemma_same_rules_same_decision(
        policy,
        ToolCallView { command: before + call.command + after, ..call },
        call,
    );
}

/// The session makes no difference.
pub proof fn law_session_does_not_matter(
    policy: PolicyView,
    call: ToolCallView,
    session: Option<Seq<char>>,
)
    ensures
        policy.decide(ToolCallView { session, ..call }) == policy.decide(call),
{
    lemma_same_rules_same_decision(policy, ToolCallView { session, ..call }, call);
}

/// Command chaining is not parsed: a prefix rule that applies to a command
/// applies to it whatever follows.
pub proof fn law_prefix_rule_ignores_what_follows(
    rule: RuleView,
    call: ToolCallView,
    rest: Seq<char>,
)
    requires
        rule.matcher is Prefix,
        rule.applies(call),
    ensures
        rule.applies(ToolCallView { command: call.command + rest, ..call }),
{
    text::lemma_trimmed_grows(call.command, rest);
}

/// The label of a decision is its tag over the wire, whatever the reason.
pub proof fn law_label_is_the_wire_tag(decision: DecisionView)
    ensures
        body(decision).decision == label(decision),
{
}

/// Nothing of a decision is lost over the wire: different decisions differ
/// there.
pub proof fn law_wire_form_tells_decisions_apart(a: DecisionView, b: DecisionView)
    requires
        body(a) == body(b),
    ensures
        a == b,
{
    reveal_strlit("allow");
    reveal_strlit("deny");
    reveal_strlit("ask");
    assert("allow"@.len() == 5 && "deny"@.len() == 4 && "ask"@.len() == 3);
}

/// `t` occurs in `s`.
pub open spec fn mentions(s: Seq<char>, t: Seq<char>) -> bool {
    exists|i: int| 0 <= i <= s.len() - t.len() && #[trigger] s.subrange(i, i + t.len()) == t
}

/// A matched rule never claims that none matched, unless its own reason does.
pub proof fn law_match_does_not_claim_no_match(action: Action, reason: Option<Seq<char>>)
    requires
        reason matches Some(r) ==> !mentions(r, "no matching rule"@),
    ensures
        match verdict(action, reason) {
            DecisionView::Allow => true,
            DecisionView::Deny { reason } => !mentions(reason, "no matching rule"@),
            DecisionView::Ask { reason } => !mentions(reason, "no matching rule"@),
        },
{
    reveal_strlit("no matching rule");
    reveal_strlit("denied by policy");
    reveal_strlit("confirmation required by policy");
    let t = "no matching rule"@;
    let deny = "denied by policy"@;
    let ask = "confirmation required by policy"@;
    assert forall|i: int| 0 <= i <= deny.len() - t.len() implies #[trigger] deny.subrange(
        i,
        i + t.len(),
    ) != t by {
        assert(deny.subrange(i, i + t.len())[0] == deny[i]);
    }
    assert forall|i: int| 0 <= i <= ask.len() - t.len() implies #[trigger] ask.subrange(
        i,
        i + t.len(),
    ) != t by {
        assert(ask.subrange(i, i + t.len())[0] == ask[i]);
        assert(ask.subrange(i, i + t.len())[1] == ask[i + 1]);
    }
}

/// Where no rule matched, the reason says so.
pub proof fn law_default_claims_no_match(default: Action)
    ensures
        match default_verdict(default) {
            DecisionView::Allow => true,
            DecisionView::Deny { reason } => mentions(reason, "no matching rule"@),
            DecisionView::Ask { reason } => mentions(reason, "no matching rule"@),
        },
{
    reveal_strlit("no matching rule");
    reveal_strlit("no matching rule; denied by default");
    reveal_strlit("no matching rule; confirmation required");
    let t = "no matching rule"@;
    let deny = "no matching rule; denied by default"@;
    let ask = "no matching rule; confirmation required"@;
    assert(deny.subrange(0, 0int + t.len()) =~= t);
    assert(ask.subrange(0, 0int + t.len()) =~= t);
}

/// Among rules of which one applies, one is the first.
proof fn lemma_first_match_exists(rules: Seq<RuleView>, call: ToolCallView, i: int) -> (first: int)
    requires
        0 <= i < rules.len(),
        rules[i].applies(call),
    ensures
        is_first_match(rules, call, first),
        first <= i,
    decreases i,
{
    if exists|j: int| 0 <= j < i && (#[trigger] rules[j]).applies(call) {
        let j = choose|j: int| 0 <= j < i && (#[trigger] rules[j]).applies(call);
        lemma_first_match_exists(rules, call, j)
    } else {
        i
    }
}

/// Calls to which the same rules apply get the same decision.
proof fn lemma_same_rules_same_decision(policy: PolicyView, a: ToolCallView, b: ToolCallView)
    requires
        forall|i: int|
            0 <= i < policy.rules.len() ==> (#[trigger] policy.rules[i]).applies(a)
                == policy.rules[i].applies(b),
    ensures
        policy.decide(a) == policy.decide(b),
{
    if exists|i: int| 0 <= i < policy.rules.len() && (#[trigger] policy.rules[i]).applies(a) {
        let i = choose|i: int| 0 <= i < policy.rules.len() && (#[trigger] policy.rules[i]).applies(a);
        let first = lemma_first_match_exists(policy.rules, a, i);
        assert(is_first_match(policy.rules, b, first));
        law_first_match_wins(policy, a, first);
        law_first_match_wins(policy, b, first);
    } else {
        law_default_applies(policy, a);
        law_default_applies(policy, b);
    }
}

} // verus!
