use agentwarden::error::GateError;
use agentwarden::pattern::{GlobMatch, RegexMatch};
use agentwarden::policy::{
    build_matcher, compile_rule, default_action, FullRule, Policy, PolicyFile, RuleKind, RuleSpec,
};
use agentwarden::store::{read_and_compile, ActivePolicy, PolicyRead};
use agentwarden::types::{Action, AgentName, RuleId, SessionId, ToolCall};

fn full(kind: RuleKind, action: Action) -> RuleSpec {
    RuleSpec::Full(FullRule { kind, action, reason: None, agent: None, tool: None })
}

fn deny_regex(pattern: &str) -> RuleSpec {
    full(RuleKind::Regex { pattern: pattern.into() }, Action::Deny)
}

fn deny_glob(pattern: &str) -> RuleSpec {
    full(RuleKind::Glob { pattern: pattern.into() }, Action::Deny)
}

fn file(rules: Vec<RuleSpec>) -> PolicyFile {
    PolicyFile { default: Action::Ask, rules }
}

fn call(command: &str) -> ToolCall {
    ToolCall {
        tool: "bash".into(),
        command: command.into(),
        agent: "code-helper".parse().expect("valid agent name"),
        session: None,
    }
}

/// Braces nested too deep for the regex that the glob stands for.
fn too_deep() -> String {
    let mut s = "{".repeat(300);
    s.push('a');
    s.push_str(&"}".repeat(300));
    s
}

#[test]
fn empty_deny_prefix_is_rejected() {
    let file = PolicyFile { default: Action::Ask, rules: vec![RuleSpec::DenyPrefix("".into())] };
    assert!(matches!(
        Policy::compile(file),
        Err(GateError::EmptyRule { .. })
    ));
}

#[test]
fn bad_regex_is_rejected_at_compile() {
    let file = PolicyFile { default: default_action(), rules: vec![deny_regex("(")] };
    assert!(matches!(
        Policy::compile(file),
        Err(GateError::BadRegex { .. })
    ));
}

#[test]
fn bad_glob_is_rejected_at_compile() {
    let file = PolicyFile { default: default_action(), rules: vec![deny_glob("[")] };
    assert!(matches!(
        Policy::compile(file),
        Err(GateError::BadGlob { .. })
    ));
}

#[test]
fn invalid_agent_name_is_rejected_on_deserialize() {
    let body: serde_json::Value =
        serde_json::from_str(r#"{"tool":"bash","command":"ls","agent":"Bad Name!"}"#)
            .expect("the body is JSON");
    let agent = body["agent"].as_str().expect("the agent is a string");
    let bad = AgentName::try_from(agent.to_owned());
    assert!(bad.is_err());
}

#[test]
fn blank_deny_prefixes_are_rejected_and_others_kept() {
    for blank in [" ", "\t\n", "\u{a0}\u{2003}\u{3000}"] {
        let r = Policy::compile(file(vec![RuleSpec::DenyPrefix(blank.into())]));
        assert!(matches!(r, Err(GateError::EmptyRule { id: 0 })));
    }
    let p = Policy::compile(file(vec![RuleSpec::DenyPrefix("su\"do".into())])).ok().expect("fine");
    assert_eq!(p.rules[0].action, Action::Deny);
    assert_eq!(
        p.rules[0].reason.as_deref(),
        Some("matched deny-list shorthand \"su\\\"do\"")
    );
    assert!(p.rules[0].applies(&call("su\"do ls")));
    assert!(!p.rules[0].applies(&call("sudo ls")));
    assert!(!p.rules[0].applies(&call("  ")));
}

#[test]
fn the_default_action_is_to_ask() {
    assert_eq!(default_action(), Action::Ask);
}

#[test]
fn rules_keep_their_order_and_are_numbered() {
    let p = Policy::compile(file(vec![
        RuleSpec::DenyPrefix("sudo".into()),
        full(RuleKind::Exact { command: "ls".into() }, Action::Allow),
        deny_glob("*.env"),
        deny_regex("^git"),
    ]))
    .ok()
    .expect("compiles");
    assert_eq!(p.default, Action::Ask);
    let ids: Vec<u32> = p.rules.iter().map(|r| r.id.0).collect();
    assert_eq!(ids, vec![0, 1, 2, 3]);
    let actions: Vec<Action> = p.rules.iter().map(|r| r.action).collect();
    assert_eq!(actions, vec![Action::Deny, Action::Allow, Action::Deny, Action::Deny]);
    assert_eq!(p.deny_count(), 3);
}

#[test]
fn an_empty_policy_compiles() {
    let p = Policy::compile(file(vec![])).ok().expect("compiles");
    assert_eq!(p.rules.len(), 0);
    assert_eq!(p.deny_count(), 0);
}

#[test]
fn the_first_bad_rule_decides_the_error() {
    let r = Policy::compile(file(vec![
        RuleSpec::DenyPrefix("sudo".into()),
        deny_glob("a{b"),
        deny_regex("("),
        RuleSpec::DenyPrefix(" ".into()),
    ]));
    let e = r.err().expect("bad");
    assert!(matches!(&e, GateError::BadGlob { id: 1, .. }));
    assert_eq!(
        e.message(),
        format!("invalid glob in rule 1: {}", globset::Glob::new("a{b").err().expect("bad"))
    );
}

#[test]
fn a_regex_matches_anywhere_and_a_glob_the_whole() {
    let anywhere = RegexMatch::new("push".into()).ok().expect("a regex");
    assert!(anywhere.matches("git push origin"));
    assert!(!anywhere.matches("git pull"));
    let whole = GlobMatch::new("cat *.env".into()).ok().expect("a glob");
    assert!(whole.matches("cat a/b.env"));
    assert!(!whole.matches("sudo cat b.env"));
    assert!(!whole.matches("cat b.env2"));
}

#[test]
fn exact_and_prefix_matchers() {
    let kind = RuleKind::Exact { command: "ls -la".into() };
    let exact = build_matcher(RuleId(0), kind).ok().expect("builds");
    assert!(exact.matches("ls -la"));
    assert!(!exact.matches("ls -l"));
    assert!(!exact.matches("ls -la /"));
    let kind = RuleKind::Prefix { prefix: "ls".into() };
    let prefix = build_matcher(RuleId(0), kind).ok().expect("builds");
    assert!(prefix.matches("ls -la"));
    assert!(prefix.matches("lsof"));
    assert!(!prefix.matches("l"));
    assert!(!prefix.matches(" ls"));
}

#[test]
fn an_empty_prefix_in_a_full_rule_matches_everything() {
    let spec = full(RuleKind::Prefix { prefix: "".into() }, Action::Ask);
    let rule = compile_rule(RuleId(7), spec).ok().expect("compiles");
    assert_eq!(rule.id, RuleId(7));
    assert!(rule.applies(&call("")));
    assert!(rule.applies(&call("anything")));
}

#[test]
fn an_exact_rule_sees_the_trimmed_command() {
    let spec = full(RuleKind::Exact { command: "ls".into() }, Action::Allow);
    let rule = compile_rule(RuleId(0), spec).ok().expect("compiles");
    assert!(rule.applies(&call("\t ls \u{2028}\n")));
    assert!(!rule.applies(&call("l s")));
    let spec = full(RuleKind::Exact { command: " ls".into() }, Action::Allow);
    let rule = compile_rule(RuleId(0), spec).ok().expect("compiles");
    assert!(!rule.applies(&call(" ls")));
}

#[test]
fn white_space_is_unicodes() {
    let spec = || full(RuleKind::Exact { command: "x".into() }, Action::Allow);
    let rule = compile_rule(RuleId(0), spec()).ok().expect("compiles");
    for n in 0..=0x10ffff_u32 {
        if let Some(c) = char::from_u32(n) {
            let listed = matches!(n, 0x9..=0xd | 0x20 | 0x85 | 0xa0 | 0x1680
                | 0x2000..=0x200a | 0x2028 | 0x2029 | 0x202f | 0x205f | 0x3000);
            assert_eq!(c.is_whitespace(), listed, "{n:x}");
        }
    }
    assert!(rule.applies(&call("\u{85}x\u{205f}")));
    assert!(!rule.applies(&call("\u{200b}x")));
}

#[test]
fn a_glob_that_cannot_be_built_is_told_apart() {
    assert_eq!(GlobMatch::probe("cat *.env"), Some(true));
    assert_eq!(GlobMatch::probe("["), None);
    assert_eq!(GlobMatch::probe(&too_deep()), Some(false));
    assert!(RegexMatch::probe("a|b"));
    assert!(!RegexMatch::probe("("));
    assert!(Policy::compile_checked(file(vec![deny_glob(&too_deep())])).is_none());
    assert!(Policy::compile_checked(file(vec![
        RuleSpec::DenyPrefix("sudo".into()),
        deny_glob(&too_deep()),
    ]))
    .is_none());
    // The rule before it fails, so it is never reached.
    let r = Policy::compile_checked(file(vec![deny_regex("("), deny_glob(&too_deep())]));
    assert!(matches!(r, Some(Err(GateError::BadRegex { id: 0, .. }))));
    for bad in [deny_glob("["), RuleSpec::DenyPrefix(" ".into())] {
        let r = Policy::compile_checked(file(vec![
            deny_glob("*"),
            deny_regex("a"),
            bad,
            deny_glob(&too_deep()),
        ]));
        assert!(matches!(
            r,
            Some(Err(GateError::BadGlob { id: 2, .. } | GateError::EmptyRule { id: 2 }))
        ));
    }
    let r = Policy::compile_checked(file(vec![deny_glob("*"), deny_regex("(")]));
    assert!(matches!(r, Some(Err(GateError::BadRegex { id: 1, .. }))));
    let r = Policy::compile_checked(file(vec![deny_glob("*"), deny_glob("?")]));
    assert!(matches!(r, Some(Ok(p)) if p.rules.len() == 2));
}

#[test]
fn texts_are_compared_character_by_character() {
    let spec = full(RuleKind::Exact { command: "caf\u{e9} \u{1f600}".into() }, Action::Allow);
    let rule = compile_rule(RuleId(0), spec).ok().expect("compiles");
    assert!(rule.applies(&call("caf\u{e9} \u{1f600}")));
    assert!(!rule.applies(&call("caf\u{e8} \u{1f600}")));
    assert!(!rule.applies(&call("cafe\u{301} \u{1f600}")));
    assert!(!rule.applies(&call("")));
}

#[test]
fn agent_names_are_lowercase_digits_and_dashes() {
    for good in ["code-helper", "a", "-", "0", "agent-007"] {
        let name = AgentName::try_from(good.to_owned()).ok().expect("good");
        assert_eq!(name.as_str(), good);
        assert!(good.parse::<AgentName>().ok() == Some(name.clone()));
    }
    for bad in ["", "A", "a b", "a_b", "\u{e9}", "a\n", "Bad Name!"] {
        match AgentName::try_from(bad.to_owned()) {
            Err(GateError::InvalidAgent(s)) => assert_eq!(s, bad),
            other => panic!("expected an error, got {other:?}"),
        }
        assert!(matches!(bad.parse::<AgentName>(), Err(GateError::InvalidAgent(s)) if s == bad));
    }
}

#[test]
fn session_ids_are_not_empty() {
    assert!(SessionId::try_from("s".to_owned()).is_ok());
    assert!(SessionId::try_from(" ".to_owned()).is_ok());
    match SessionId::try_from(String::new()) {
        Err(e) => assert_eq!(e.message(), "invalid session id: \"\""),
        Ok(id) => panic!("accepted {id:?}"),
    }
}

#[test]
fn reading_and_compiling_reports_what_went_wrong() {
    let r = read_and_compile("p.toml", PolicyRead::Unreadable("gone".into()));
    match r {
        Some(Err(e)) => assert_eq!(e.message(), "failed to read policy file p.toml: gone"),
        _ => panic!("expected an error"),
    }
    let r = read_and_compile("p.toml", PolicyRead::Malformed("line 1".into()));
    match r {
        Some(Err(e)) => assert_eq!(e.message(), "failed to parse policy file: line 1"),
        _ => panic!("expected an error"),
    }
    let r = read_and_compile("p.toml", PolicyRead::Parsed(file(vec![deny_glob("*")])));
    assert!(matches!(r, Some(Ok(p)) if p.rules.len() == 1));
    let r = read_and_compile("p.toml", PolicyRead::Parsed(file(vec![deny_glob(&too_deep())])));
    assert!(r.is_none());
}

#[test]
fn a_failed_reload_keeps_the_previous_policy() {
    let one = Policy::compile(file(vec![deny_glob("*")]));
    let mut active = ActivePolicy::load(one).ok().expect("loads");
    assert_eq!(active.current().rules.len(), 1);

    let r = active.reload(Policy::compile(file(vec![deny_regex("(")])));
    assert!(matches!(r, Err(GateError::BadRegex { id: 0, .. })));
    assert_eq!(active.current().rules.len(), 1);
    let r = active.reload(Err(GateError::PolicyParse("x".into())));
    assert!(matches!(r, Err(GateError::PolicyParse(_))));
    assert_eq!(active.current().rules.len(), 1);

    let two = vec![deny_glob("*"), RuleSpec::DenyPrefix("sudo".into())];
    let r = active.reload(Policy::compile(file(two)));
    assert!(matches!(r, Ok(2)));
    assert_eq!(active.current().rules.len(), 2);

    assert!(ActivePolicy::load(Err(GateError::EmptyRule { id: 0 })).is_err());
}
