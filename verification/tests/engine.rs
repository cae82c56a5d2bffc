use agentwarden::engine::{
    action_to_decision, check, decision_body, decision_label, default_decision, evaluate,
    evaluate_traced, first_match, DecisionBody,
};
use agentwarden::error::GateError;
use agentwarden::policy::{FullRule, Policy, PolicyFile, RuleKind, RuleSpec};
use agentwarden::types::{Action, Decision, SessionId, ToolCall};

fn rule(kind: RuleKind, action: Action, reason: Option<&str>) -> FullRule {
    FullRule { kind, action, reason: reason.map(|s| s.to_owned()), agent: None, tool: None }
}

fn prefix(s: &str) -> RuleKind {
    RuleKind::Prefix { prefix: s.into() }
}

/// A small policy used across these tests.
fn sample_policy() -> Policy {
    let file = PolicyFile {
        default: Action::Ask,
        rules: vec![
            RuleSpec::DenyPrefix("sudo".into()),
            RuleSpec::Full(rule(prefix("rm -rf"), Action::Deny, Some("destructive"))),
            RuleSpec::Full(rule(
                RuleKind::Glob { pattern: "cat *.env".into() },
                Action::Deny,
                Some("secrets"),
            )),
            RuleSpec::Full(rule(
                RuleKind::Regex { pattern: "^git\\s+push".into() },
                Action::Ask,
                Some("network"),
            )),
            RuleSpec::Full(rule(prefix("ls"), Action::Allow, None)),
        ],
    };
    Policy::compile(file).ok().expect("sample policy compiles")
}

fn policy(default: Action, rules: Vec<FullRule>) -> Policy {
    let file = PolicyFile { default, rules: rules.into_iter().map(RuleSpec::Full).collect() };
    Policy::compile(file).ok().expect("test policy compiles")
}

fn call(command: &str) -> ToolCall {
    ToolCall {
        tool: "bash".into(),
        command: command.into(),
        agent: "code-helper".parse().expect("valid agent name"),
        session: None,
    }
}

#[test]
fn first_match_wins_and_default_applies() {
    let p = sample_policy();
    assert!(matches!(
        evaluate(&p, &call("rm -rf /")),
        Decision::Deny { .. }
    ));
    assert_eq!(evaluate(&p, &call("ls -la")), Decision::Allow);
    assert!(matches!(
        evaluate(&p, &call("git push origin main")),
        Decision::Ask { .. }
    ));
    assert!(matches!(
        evaluate(&p, &call("cat secrets.env")),
        Decision::Deny { .. }
    ));
    assert!(matches!(
        evaluate(&p, &call("sudo reboot")),
        Decision::Deny { .. }
    ));
    // no rule matches -> policy default "ask"
    assert!(matches!(
        evaluate(&p, &call("whoami")),
        Decision::Ask { .. }
    ));
}

#[test]
fn leading_whitespace_is_normalized() {
    let p = sample_policy();
    assert!(matches!(
        evaluate(&p, &call("   rm -rf /")),
        Decision::Deny { .. }
    ));
}

#[test]
fn known_limitation_shell_chaining_is_not_parsed() {
    let p = sample_policy();
    assert_eq!(evaluate(&p, &call("ls; rm -rf /")), Decision::Allow);
}

#[test]
fn known_limitation_naive_deny_is_evaded_by_spacing_or_path() {
    let p = sample_policy();
    assert!(matches!(
        evaluate(&p, &call("rm  -rf /")),
        Decision::Ask { .. }
    ));
    assert!(matches!(
        evaluate(&p, &call("/bin/rm -rf /")),
        Decision::Ask { .. }
    ));
}

#[test]
fn rules_can_be_scoped_to_a_tool() {
    let p = policy(
        Action::Allow,
        vec![FullRule {
            tool: Some("shell".into()),
            ..rule(prefix("echo"), Action::Deny, Some("z"))
        }],
    );

    let as_tool = |tool: &str| ToolCall {
        tool: tool.into(),
        command: "echo hi".into(),
        agent: "code-helper".parse().expect("valid agent name"),
        session: None,
    };
    // The rule is scoped to tool="shell": applies there, not to bash.
    assert_eq!(evaluate(&p, &as_tool("bash")), Decision::Allow);
    assert!(matches!(
        evaluate(&p, &as_tool("shell")),
        Decision::Deny { .. }
    ));
}

#[test]
fn rules_can_be_scoped_to_an_agent() {
    let p = policy(
        Action::Allow,
        vec![FullRule {
            agent: Some("robot".into()),
            ..rule(prefix("echo"), Action::Deny, Some("z"))
        }],
    );
    let as_agent = |agent: &str| ToolCall {
        agent: agent.parse().expect("valid agent name"),
        ..call("echo hi")
    };
    assert_eq!(evaluate(&p, &as_agent("code-helper")), Decision::Allow);
    assert_eq!(evaluate(&p, &as_agent("robot")), Decision::Deny { reason: "z".into() });
}

#[test]
fn matched_ask_rule_without_a_reason_does_not_claim_no_match() {
    let p = policy(Action::Allow, vec![rule(prefix("git push"), Action::Ask, None)]);
    match evaluate(&p, &call("git push origin main")) {
        Decision::Ask { reason } => {
            assert!(!reason.contains("no matching rule"), "got: {reason}")
        }
        other => panic!("expected Ask, got {other:?}"),
    }
}

#[test]
fn default_ask_path_does_note_no_matching_rule() {
    let p = sample_policy();
    match evaluate(&p, &call("whoami")) {
        Decision::Ask { reason } => {
            assert!(reason.contains("no matching rule"), "got: {reason}")
        }
        other => panic!("expected Ask, got {other:?}"),
    }
}

#[test]
fn the_reason_is_the_rules_own_or_a_generic_one() {
    let own = || Some("why".to_owned());
    assert_eq!(action_to_decision(Action::Allow, own()), Decision::Allow);
    assert_eq!(
        action_to_decision(Action::Deny, own()),
        Decision::Deny { reason: "why".into() }
    );
    assert_eq!(
        action_to_decision(Action::Ask, own()),
        Decision::Ask { reason: "why".into() }
    );
    assert_eq!(
        action_to_decision(Action::Deny, None),
        Decision::Deny { reason: "denied by policy".into() }
    );
    assert_eq!(
        action_to_decision(Action::Ask, None),
        Decision::Ask { reason: "confirmation required by policy".into() }
    );
}

#[test]
fn the_default_decision_says_that_nothing_matched() {
    assert_eq!(default_decision(Action::Allow), Decision::Allow);
    assert_eq!(
        default_decision(Action::Deny),
        Decision::Deny { reason: "no matching rule; denied by default".into() }
    );
    assert_eq!(
        default_decision(Action::Ask),
        Decision::Ask { reason: "no matching rule; confirmation required".into() }
    );
}

#[test]
fn labels() {
    assert_eq!(decision_label(&Decision::Allow), "allow");
    assert_eq!(decision_label(&Decision::Deny { reason: "".into() }), "deny");
    assert_eq!(decision_label(&Decision::Ask { reason: "".into() }), "ask");
}

#[test]
fn the_label_is_the_wire_tag() {
    let why = || "why".to_owned();
    assert_eq!(
        decision_body(Decision::Allow),
        DecisionBody { decision: "allow", reason: None }
    );
    assert_eq!(
        decision_body(Decision::Deny { reason: why() }),
        DecisionBody { decision: "deny", reason: Some(why()) }
    );
    assert_eq!(
        decision_body(Decision::Ask { reason: why() }),
        DecisionBody { decision: "ask", reason: Some(why()) }
    );
    for d in [Decision::Allow, Decision::Deny { reason: why() }, Decision::Ask { reason: why() }] {
        assert_eq!(decision_label(&d), decision_body(d.clone()).decision);
    }
}

#[test]
fn the_trace_names_the_rule_that_decided() {
    let p = sample_policy();
    let (decision, rule) = evaluate_traced(&p, &call("git push"));
    assert_eq!(decision, Decision::Ask { reason: "network".into() });
    assert_eq!(rule.map(|id| id.0), Some(3));
    let (decision, rule) = evaluate_traced(&p, &call("whoami"));
    assert!(matches!(decision, Decision::Ask { .. }));
    assert!(rule.is_none());
}

#[test]
fn an_earlier_rule_hides_a_later_one() {
    let p = policy(
        Action::Allow,
        vec![
            rule(prefix("ls"), Action::Ask, Some("first")),
            rule(prefix("ls -la"), Action::Deny, Some("second")),
        ],
    );
    assert_eq!(evaluate(&p, &call("ls -la")), Decision::Ask { reason: "first".into() });
    assert_eq!(first_match(&p, &call("ls -la")).map(|r| r.id.0), Some(0));
    assert_eq!(first_match(&p, &call("cat")).map(|r| r.id.0), None);
}

#[test]
fn the_session_makes_no_difference() {
    let p = sample_policy();
    let session = SessionId::try_from("s-1".to_owned()).ok();
    assert!(session.is_some());
    let with_session = ToolCall { session, ..call("sudo reboot") };
    assert_eq!(evaluate(&p, &with_session), evaluate(&p, &call("sudo reboot")));
}

#[test]
fn a_shorthand_says_what_it_matched() {
    assert_eq!(
        evaluate(&sample_policy(), &call("sudo reboot")),
        Decision::Deny { reason: "matched deny-list shorthand \"sudo\"".into() }
    );
}

fn check_label(command: &str) -> &'static str {
    let r = check(&sample_policy(), "bash".into(), command.into(), "cli".into());
    decision_label(&r.ok().expect("cli is an agent name"))
}

#[test]
fn check_denies_a_destructive_command() {
    assert_eq!(check_label("rm -rf /"), "deny");
}

#[test]
fn check_allows_a_listed_safe_command() {
    assert_eq!(check_label("ls -la"), "allow");
}

#[test]
fn check_asks_when_no_rule_matches() {
    assert_eq!(check_label("whoami"), "ask");
}

#[test]
fn check_rejects_a_bad_agent() {
    let r = check(&sample_policy(), "bash".into(), "ls".into(), "Me".into());
    assert!(matches!(r, Err(GateError::InvalidAgent(s)) if s == "Me"));
}
