use agentwarden::engine::{decision_body, evaluate};
use agentwarden::error::GateError;
use agentwarden::policy::{FullRule, Policy, PolicyFile, RuleKind, RuleSpec};
use agentwarden::server::{
    authorize_reload, daemon_step, reload_period, DaemonAction, DaemonEvent,
};
use agentwarden::types::{Action, AdminKey, AgentName, ToolCall};

fn key(s: &str) -> Option<AdminKey> {
    Some(AdminKey::new(s.to_owned()))
}

fn rule(kind: RuleKind, action: Action, reason: Option<&str>) -> RuleSpec {
    RuleSpec::Full(FullRule {
        kind,
        action,
        reason: reason.map(|s| s.to_owned()),
        agent: None,
        tool: None,
    })
}

/// A small policy used across these tests.
fn sample_policy() -> Policy {
    let file = PolicyFile {
        default: Action::Ask,
        rules: vec![
            RuleSpec::DenyPrefix("sudo".into()),
            rule(
                RuleKind::Prefix { prefix: "rm -rf".into() },
                Action::Deny,
                Some("destructive"),
            ),
            rule(
                RuleKind::Glob { pattern: "cat *.env".into() },
                Action::Deny,
                Some("secrets"),
            ),
            rule(
                RuleKind::Regex { pattern: "^git\\s+push".into() },
                Action::Ask,
                Some("network"),
            ),
            rule(RuleKind::Prefix { prefix: "ls".into() }, Action::Allow, None),
        ],
    };
    Policy::compile(file).ok().expect("sample policy compiles")
}

#[test]
fn evaluate_returns_a_decision() {
    let policy = sample_policy();
    let call = ToolCall {
        tool: "bash".into(),
        command: "rm -rf /".into(),
        agent: "code-helper".parse().expect("valid agent name"),
        session: None,
    };
    let body = decision_body(evaluate(&policy, &call));
    assert_eq!(body.decision, "deny");
    assert_eq!(body.reason.as_deref(), Some("destructive"));
}

#[test]
fn bad_agent_is_422_with_error_envelope() {
    let e = AgentName::try_from("Bad Name!".to_owned()).err().expect("bad");
    let resp = e.into_response();
    assert_eq!(resp.status, 422);
    assert_eq!(resp.error, "invalid agent name: \"Bad Name!\"");
}

#[test]
fn reload_is_forbidden_without_a_configured_key() {
    for header in [None, Some("".as_bytes()), Some("secret".as_bytes())] {
        let e = authorize_reload(&None, header).err().expect("refused");
        assert_eq!(e.status(), 403);
    }
}

#[test]
fn reload_rejects_a_wrong_key() {
    let e = authorize_reload(&key("secret"), Some("wrong".as_bytes())).err().expect("refused");
    assert_eq!(e.status(), 401);
}

#[test]
fn reload_takes_the_very_key() {
    assert!(authorize_reload(&key("secret"), Some("secret".as_bytes())).is_ok());
    assert!(authorize_reload(&key("a b\tc~"), Some("a b\tc~".as_bytes())).is_ok());
    for wrong in ["", "secre", "secrets", "Secret", " secret"] {
        let r = authorize_reload(&key("secret"), Some(wrong.as_bytes()));
        assert!(matches!(r, Err(GateError::Unauthorized)));
    }
    assert!(matches!(authorize_reload(&key("secret"), None), Err(GateError::Unauthorized)));
}

#[test]
fn a_header_that_is_no_text_is_no_key() {
    let r = authorize_reload(&key("s\u{e9}"), Some("s\u{e9}".as_bytes()));
    assert!(matches!(r, Err(GateError::Unauthorized)));
    let r = authorize_reload(&key("s\u{7f}"), Some("s\u{7f}".as_bytes()));
    assert!(matches!(r, Err(GateError::Unauthorized)));
    let r = authorize_reload(&key("s\n"), Some("s\n".as_bytes()));
    assert!(matches!(r, Err(GateError::Unauthorized)));
}

#[test]
fn into_response_redacts_server_errors_but_not_client_errors() {
    let server = GateError::EmptyRule { id: 3 }.into_response();
    assert_eq!(server.status, 500);
    let body = server.error;
    assert!(body.contains("internal error"));
    assert!(!body.contains("rule 3")); // internal detail is redacted

    let client = GateError::InvalidRequest("boom".into()).into_response();
    assert_eq!(client.status, 422);
    assert!(client.error.contains("boom"));
}

#[test]
fn every_error_has_its_words() {
    let said = |e: GateError| (e.status(), e.message());
    assert_eq!(
        said(GateError::InvalidRequest("boom".into())),
        (422, "invalid request: boom".to_owned())
    );
    assert_eq!(
        said(GateError::InvalidSession("a\"b".into())),
        (422, "invalid session id: \"a\\\"b\"".to_owned())
    );
    assert_eq!(
        said(GateError::Unauthorized),
        (401, "missing or invalid admin key".to_owned())
    );
    assert_eq!(
        said(GateError::Forbidden),
        (403, "reload endpoint is disabled (no admin key configured)".to_owned())
    );
    assert_eq!(
        said(GateError::PolicyIo { path: "p".into(), source: "gone".into() }),
        (500, "failed to read policy file p: gone".to_owned())
    );
    assert_eq!(
        said(GateError::PolicyParse("bad".into())),
        (500, "failed to parse policy file: bad".to_owned())
    );
    let source = regex::Regex::new("(").err().expect("no regex");
    let words = format!("invalid regex in rule 4294967295: {source}");
    assert_eq!(said(GateError::BadRegex { id: u32::MAX, source }), (500, words));
    let source = globset::Glob::new("[").err().expect("no glob");
    let words = format!("invalid glob in rule 10: {source}");
    assert_eq!(said(GateError::BadGlob { id: 10, source }), (500, words));
    assert_eq!(
        said(GateError::EmptyRule { id: 0 }),
        (500, "rule 0 has an empty pattern that would match every command".to_owned())
    );
}

#[test]
fn a_key_is_not_shown() {
    let secret = AdminKey::new("s3cret".to_owned());
    assert_eq!(secret.redacted(), "AdminKey(***)");
    assert_eq!(secret.clone().expose(), "s3cret");
}

#[test]
fn the_daemon_stops_only_when_cancelled() {
    assert!(matches!(daemon_step(DaemonEvent::Tick), DaemonAction::Reload));
    assert!(matches!(
        daemon_step(DaemonEvent::Reloaded(Ok(3))),
        DaemonAction::LogReloaded(3)
    ));
    match daemon_step(DaemonEvent::Reloaded(Err(GateError::EmptyRule { id: 12 }))) {
        DaemonAction::LogFailure(s) => assert_eq!(
            s,
            "rule 12 has an empty pattern that would match every command"
        ),
        other => panic!("expected a log entry, got {other:?}"),
    }
    assert!(matches!(daemon_step(DaemonEvent::Cancelled), DaemonAction::Stop));
}

#[test]
fn an_interval_of_zero_disables_the_daemon() {
    assert_eq!(reload_period(0), None);
    assert_eq!(reload_period(1), Some(1));
    assert_eq!(reload_period(u64::MAX), Some(u64::MAX));
}
