//! Policy: the rule types, how a policy file is compiled, and which calls a
//! compiled rule applies to.

use vstd::prelude::*;

use crate::error::{GateError, GateErrorView};
use crate::pattern;
use crate::pattern::{GlobMatch, RegexMatch};
use crate::text;
use crate::text::text_of;
use crate::types::{Action, RuleId, ToolCall, ToolCallView};

verus! {

/// How a rule matches.
#[derive(Debug, Clone)]
pub enum RuleKind {
    Exact { command: String },
    Prefix { prefix: String },
    Regex { pattern: String },
    Glob { pattern: String },
}

/// A full rule: how it matches, its action, an optional reason, and optional
/// agent/tool scoping.
#[derive(Debug, Clone)]
pub struct FullRule {
    pub kind: RuleKind,
    pub action: Action,
    pub reason: Option<String>,
    /// If set, the rule applies only to calls from this agent.
    pub agent: Option<String>,
    /// If set, the rule applies only to calls of this tool.
    pub tool: Option<String>,
}

/// One entry in the list of rules: a full rule, or a bare text, short for
/// "deny every command with this prefix".
#[derive(Debug, Clone)]
pub enum RuleSpec {
    Full(FullRule),
    DenyPrefix(String),
}

/// The policy as written: a default action and an ordered list of rules.
#[derive(Debug, Clone)]
pub struct PolicyFile {
    pub default: Action,
    pub rules: Vec<RuleSpec>,
}

/// Decides whether a rule matches a command, with regex and glob compiled.
pub enum Matcher {
    Exact(String),
    Prefix(String),
    Regex(RegexMatch),
    Glob(GlobMatch),
}

/// A compiled rule.
pub struct Rule {
    pub id: RuleId,
    pub matcher: Matcher,
    pub action: Action,
    pub reason: Option<String>,
    pub agent: Option<String>,
    pub tool: Option<String>,
}

/// A compiled policy ready to evaluate.
pub struct Policy {
    pub default: Action,
    pub rules: Vec<Rule>,
}

/// How a rule matches, as written or compiled.
pub enum MatcherView {
    Exact(Seq<char>),
    Prefix(Seq<char>),
    Regex(Seq<char>),
    Glob(Seq<char>),
}

/// A [`FullRule`] with its texts as sequences of characters.
pub struct FullRuleView {
    pub kind: MatcherView,
    pub action: Action,
    pub reason: Option<Seq<char>>,
    pub agent: Option<Seq<char>>,
    pub tool: Option<Seq<char>>,
}

/// A [`RuleSpec`] with its texts as sequences of characters.
pub enum RuleSpecView {
    Full(FullRuleView),
    DenyPrefix(Seq<char>),
}

/// A [`PolicyFile`] as a default and a sequence of rules.
pub struct PolicyFileView {
    pub default: Action,
    pub rules: Seq<RuleSpecView>,
}

/// A [`Rule`] with its texts as sequences of characters.
pub struct RuleView {
    pub id: u32,
    pub matcher: MatcherView,
    pub action: Action,
    pub reason: Option<Seq<char>>,
    pub agent: Option<Seq<char>>,
    pub tool: Option<Seq<char>>,
}

/// A [`Policy`] as a default and a sequence of rules.
pub struct PolicyView {
    pub default: Action,
    pub rules: Seq<RuleView>,
}

impl View for RuleKind {
    type V = MatcherView;

    open spec fn view(&self) -> MatcherView {
        match *self {
            RuleKind::Exact { command } => MatcherView::Exact(command@),
            RuleKind::Prefix { prefix } => MatcherView::Prefix(prefix@),
            RuleKind::Regex { pattern } => MatcherView::Regex(pattern@),
            RuleKind::Glob { pattern } => MatcherView::Glob(pattern@),
        }
    }
}

impl View for FullRule {
    type V = FullRuleView;

    open spec fn view(&self) -> FullRuleView {
        FullRuleView {
            kind: self.kind@,
            action: self.action,
            reason: text_of(self.reason),
            agent: text_of(self.agent),
            tool: text_of(self.tool),
        }
    }
}

impl View for RuleSpec {
    type V = RuleSpecView;

    open spec fn view(&self) -> RuleSpecView {
        match *self {
            RuleSpec::Full(f) => RuleSpecView::Full(f@),
            RuleSpec::DenyPrefix(p) => RuleSpecView::DenyPrefix(p@),
        }
    }
}

impl View for PolicyFile {
    type V = PolicyFileView;

    open spec fn view(&self) -> PolicyFileView {
        PolicyFileView {
            default: self.default,
            rules: self.rules@.map_values(|s: RuleSpec| s@),
        }
    }
}

impl View for Matcher {
    type V = MatcherView;

    open spec fn view(&self) -> MatcherView {
        match *self {
            Matcher::Exact(command) => MatcherView::Exact(command@),
            Matcher::Prefix(prefix) => MatcherView::Prefix(prefix@),
            Matcher::Regex(m) => MatcherView::Regex(m@),
            Matcher::Glob(m) => MatcherView::Glob(m@),
        }
    }
}

impl View for Rule {
    type V = RuleView;

    open spec fn view(&self) -> RuleView {
        RuleView {
            id: self.id.0,
            matcher: self.matcher@,
            action: self.action,
            reason: text_of(self.reason),
            agent: text_of(self.agent),
            tool: text_of(self.tool),
        }
    }
}

impl View for Policy {
    type V = PolicyView;

    open spec fn view(&self) -> PolicyView {
        PolicyView {
            default: self.default,
            rules: self.rules@.map_values(|r: Rule| r@),
        }
    }
}

impl MatcherView {
    /// The command is one that the rule matches: the same text, a text with
    /// the prefix, one in which the regex matches somewhere, or one that the
    /// glob matches as a whole.
    pub open spec fn accepts(self, command: Seq<char>) -> bool {
        match self {
            MatcherView::Exact(c) => command == c,
            MatcherView::Prefix(p) => p.is_prefix_of(command),
            MatcherView::Regex(p) => pattern::regex_is_match(p, command),
            MatcherView::Glob(p) => pattern::glob_is_match(p, command),
        }
    }

    /// What is wrong with the pattern of the rule numbered `id`, if anything.
    pub open spec fn flaw(self, id: u32) -> Option<GateErrorView> {
        match self {
            MatcherView::Exact(_) => None,
            MatcherView::Prefix(_) => None,
            MatcherView::Regex(p) => match pattern::regex_of(p) {
                Ok(_) => None,
                Err(source) => Some(GateErrorView::BadRegex { id, source }),
            },
            MatcherView::Glob(p) => match pattern::glob_of(p) {
                Ok(_) => None,
                Err(source) => Some(GateErrorView::BadGlob { id, source }),
            },
        }
    }

    /// Compiling the pattern does not panic.
    pub open spec fn is_safe(self) -> bool {
        self matches MatcherView::Glob(p) ==> pattern::glob_is_safe(p)
    }
}

impl RuleSpecView {
    /// Compiling the rule does not panic.
    pub open spec fn is_safe(self) -> bool {
        self matches RuleSpecView::Full(f) ==> f.kind.is_safe()
    }

    /// The rule numbered `id` that is compiled from this one, or why there is
    /// none. A blank deny-prefix would match every command, and is refused.
    pub open spec fn compiled(self, id: u32) -> Result<RuleView, GateErrorView> {
        match self {
            RuleSpecView::Full(f) => match f.kind.flaw(id) {
                Some(e) => Err(e),
                None => Ok(
                    RuleView {
                        id,
                        matcher: f.kind,
                        action: f.action,
                        reason: f.reason,
                        agent: f.agent,
                        tool: f.tool,
                    },
                ),
            },
            RuleSpecView::DenyPrefix(p) => if text::trimmed(p).len() == 0 {
                Err(GateErrorView::EmptyRule { id })
            } else {
                Ok(
                    RuleView {
                        id,
                        matcher: MatcherView::Prefix(p),
                        action: Action::Deny,
                        reason: Some("matched deny-list shorthand "@ + text::quoted(p)),
                        agent: None,
                        tool: None,
                    },
                )
            },
        }
    }
}

/// Compiles rules in order, each numbered by its index; the first one that
/// fails decides the error.
pub open spec fn compiled_rules(specs: Seq<RuleSpecView>) -> Result<Seq<RuleView>, GateErrorView>
    decreases specs.len(),
{
    if specs.len() == 0 {
        Ok(Seq::empty())
    } else {
        match compiled_rules(specs.drop_last()) {
            Err(e) => Err(e),
            Ok(rules) => match specs.last().compiled((specs.len() - 1) as u32) {
                Err(e) => Err(e),
                Ok(rule) => Ok(rules.push(rule)),
            },
        }
    }
}

/// Compiling one rule more.
proof fn lemma_compiled_rules_next(specs: Seq<RuleSpecView>, i: int)
    requires
        0 <= i < specs.len(),
    ensures
        compiled_rules(specs.take(i + 1)) == (match compiled_rules(specs.take(i)) {
            Err(e) => Err(e),
            Ok(rules) => match specs[i].compiled(i as u32) {
                Err(e) => Err(e),
                Ok(rule) => Ok(rules.push(rule)),
            },
        }),
{
    assert(specs.take(i + 1).drop_last() =~= specs.take(i));
    assert(specs.take(i + 1).last() == specs[i]);
}

/// Once some rules fail to compile, what follows them does not matter.
proof fn lemma_first_failure_decides(specs: Seq<RuleSpecView>, n: int)
    requires
        0 <= n <= specs.len(),
        compiled_rules(specs.take(n)) is Err,
    ensures
        compiled_rules(specs) == compiled_rules(specs.take(n)),
    decreases specs.len() - n,
{
    if n < specs.len() {
        lemma_compiled_rules_next(specs, n);
        lemma_first_failure_decides(specs, n + 1);
    } else {
        assert(specs.take(n) =~= specs);
    }
}

impl PolicyFileView {
    /// The policy that is compiled from this file, or why there is none.
    pub open spec fn compiled(self) -> Result<PolicyView, GateErrorView> {
        match compiled_rules(self.rules) {
            Err(e) => Err(e),
            Ok(rules) => Ok(PolicyView { default: self.default, rules }),
        }
    }

    /// Compiling the file does not panic: no rule that is reached does.
    pub open spec fn is_safe(self) -> bool {
        forall|i: int|
            0 <= i < self.rules.len() && compiled_rules(self.rules.take(i)) is Ok
                ==> (#[trigger] self.rules[i]).is_safe()
    }
}

impl RuleView {
    /// The optional agent/tool scope admits the call.
    pub open spec fn in_scope(self, call: ToolCallView) -> bool {
        &&& self.tool matches Some(t) ==> t == call.tool
        &&& self.agent matches Some(a) ==> a == call.agent
    }

    /// The call is in scope, and the rule matches its command without leading
    /// and trailing white space.
    pub open spec fn applies(self, call: ToolCallView) -> bool {
        &&& self.in_scope(call)
        &&& self.matcher.accepts(text::trimmed(call.command))
    }
}

impl PolicyView {
    /// How many rules deny.
    pub open spec fn denies(self) -> nat {
        self.rules.filter(|rule: RuleView| rule.action == Action::Deny).len()
    }
}

/// What applies where a policy names no default.
pub fn default_action() -> (r: Action)
    ensures
        r == Action::Ask,
{
    Action::Ask
}

impl Matcher {
    pub fn matches(&self, command: &str) -> (r: bool)
        ensures
            r == self@.accepts(command@),
            match *self {
                Matcher::Exact(c) => r == (command@ == c@),
                Matcher::Prefix(p) => r == p@.is_prefix_of(command@),
                Matcher::Regex(m) => r == pattern::regex_is_match(m@, command@),
                Matcher::Glob(m) => r == pattern::glob_is_match(m@, command@),
            },
    {
        match self {
            Matcher::Exact(c) => text::same_text(command, c.as_str()),
            Matcher::Prefix(p) => text::starts_with(command, p.as_str()),
            Matcher::Regex(m) => m.matches(command),
            Matcher::Glob(m) => m.matches(command),
        }
    }
}

/// A scope that is set admits one text only.
fn admits(scope: &Option<String>, s: &str) -> (r: bool)
    ensures
        r == (text_of(*scope) matches Some(t) ==> t == s@),
{
    match scope {
        Some(t) => text::same_text(t.as_str(), s),
        None => true,
    }
}

impl Rule {
    /// True when the optional agent/tool scope matches and the matcher matches
    /// the (whitespace-trimmed) command.
    pub fn applies(&self, call: &ToolCall) -> (r: bool)
        ensures
            r == self@.applies(call@),
            r <==> {
                &&& self.tool matches Some(t) ==> t@ == call.tool@
                &&& self.agent matches Some(a) ==> a@ == call.agent@
                &&& self.matcher@.accepts(text::trimmed(call.command@))
            },
    {
        admits(&self.tool, call.tool.as_str()) && admits(&self.agent, call.agent.as_str())
            && self.matcher.matches(text::trim(call.command.as_str()))
    }
}

/// Builds the matcher of the rule numbered `id`, compiling regex and glob.
pub fn build_matcher(id: RuleId, kind: RuleKind) -> (r: Result<Matcher, GateError>)
    requires
        kind@.is_safe(),
    ensures
        match r {
            Ok(m) => kind@.flaw(id.0) is None && m@ == kind@,
            Err(e) => kind@.flaw(id.0) == Some(e@),
        },
{
    match kind {
        RuleKind::Exact { command } => Ok(Matcher::Exact(command)),
        RuleKind::Prefix { prefix } => Ok(Matcher::Prefix(prefix)),
        RuleKind::Regex { pattern } => match RegexMatch::new(pattern) {
            Ok(m) => Ok(Matcher::Regex(m)),
            Err(source) => Err(GateError::BadRegex { id: id.0, source }),
        },
        RuleKind::Glob { pattern } => match GlobMatch::new(pattern) {
            Ok(m) => Ok(Matcher::Glob(m)),
            Err(source) => Err(GateError::BadGlob { id: id.0, source }),
        },
    }
}

/// Compiles one rule, numbered `id`.
pub fn compile_rule(id: RuleId, spec: RuleSpec) -> (r: Result<Rule, GateError>)
    requires
        spec@.is_safe(),
    ensures
        match r {
            Ok(rule) => spec@.compiled(id.0) == Ok::<RuleView, GateErrorView>(rule@),
            Err(e) => spec@.compiled(id.0) == Err::<RuleView, GateErrorView>(e@),
        },
        match (spec, r) {
            (RuleSpec::Full(f), Ok(rule)) => {
                &&& rule.id == id
                &&& rule.matcher@ == f.kind@
                &&& rule.action == f.action
                &&& rule.reason == f.reason
                &&& rule.agent == f.agent
                &&& rule.tool == f.tool
            },
            _ => true,
        },
{
    let (kind, action, reason, agent, tool) = match spec {
        RuleSpec::Full(f) => (f.kind, f.action, f.reason, f.agent, f.tool),
        RuleSpec::DenyPrefix(p) => {
            if text::trim(p.as_str()).is_empty() {
                return Err(GateError::EmptyRule { id: id.0 });
            }
            let reason = text::join(
                "matched deny-list shorthand ",
                text::quote(p.as_str()).as_str(),
            );
            (RuleKind::Prefix { prefix: p }, Action::Deny, Some(reason), None, None)
        },
    };
    match build_matcher(id, kind) {
        Ok(matcher) => Ok(Rule { id, matcher, action, reason, agent, tool }),
        Err(e) => Err(e),
    }
}

impl Policy {
    /// Compile a policy file, validating every regex/glob up front so a bad
    /// pattern fails at load time, not on a request.
    pub fn compile(file: PolicyFile) -> (r: Result<Self, GateError>)
        requires
            file@.is_safe(),
        ensures
            match r {
                Ok(policy) => file@.compiled() == Ok::<PolicyView, GateErrorView>(policy@),
                Err(e) => file@.compiled() == Err::<PolicyView, GateErrorView>(e@),
            },
    {
        let mut rules: Vec<Rule> = Vec::new();
        let ghost specs = file@.rules;
        proof {
            assert(specs.take(0) =~= Seq::empty());
            assert(rules@.map_values(|r: Rule| r@) =~= Seq::empty());
        }
        for spec in it: file.rules
            invariant
                it.seq() == file.rules@,
                specs == file@.rules,
                file@.is_safe(),
                rules.len() == it.index(),
                compiled_rules(specs.take(it.index() as int)) == Ok::<Seq<RuleView>, GateErrorView>(
                    rules@.map_values(|r: Rule| r@),
                ),
        {
            let ghost i = it.index() as int;
            let index: usize = rules.len();
            assert(spec@ == specs[i]);
            proof {
                lemma_compiled_rules_next(specs, i);
            }
            match compile_rule(RuleId(#[verifier::truncate] (index as u32)), spec) {
                Ok(rule) => {
                    let ghost before = rules@;
                    rules.push(rule);
                    assert(rules@.map_values(|r: Rule| r@) =~= before.map_values(
                        |r: Rule| r@,
                    ).push(rule@));
                },
                Err(e) => {
                    proof {
                        lemma_first_failure_decides(specs, i + 1);
                    }
                    return Err(e);
                },
            }
        }
        assert(specs.take(specs.len() as int) =~= specs);
        Ok(Policy { default: file.default, rules })
    }

    /// [`Policy::compile`] for any file: `None` where compiling it would make
    /// `globset` panic.
    pub fn compile_checked(file: PolicyFile) -> (r: Option<Result<Self, GateError>>)
        ensures
            r is Some <==> file@.is_safe(),
            match r {
                Some(Ok(policy)) => file@.compiled() == Ok::<PolicyView, GateErrorView>(policy@),
                Some(Err(e)) => file@.compiled() == Err::<PolicyView, GateErrorView>(e@),
                None => true,
            },
    {
        if is_safe(&file) {
            Some(Policy::compile(file))
        } else {
            None
        }
    }

    /// How many rules deny.
    pub fn deny_count(&self) -> (r: usize)
        ensures
            r == self@.rules.filter(|rule: RuleView| rule.action == Action::Deny).len(),
            r == self@.denies(),
    {
        let ghost rules = self@.rules;
        let ghost denies = |rule: RuleView| rule.action == Action::Deny;
        let mut count: usize = 0;
        for i in 0..self.rules.len()
            invariant
                rules == self@.rules,
                denies == (|rule: RuleView| rule.action == Action::Deny),
                count <= i,
                count == rules.take(i as int).filter(denies).len(),
        {
            reveal(Seq::filter);
            assert(rules.take(i + 1).drop_last() =~= rules.take(i as int));
            assert(rules.take(i + 1).last() == self.rules[i as int]@);
            if self.rules[i].action == Action::Deny {
                count = count + 1;
            }
        }
        assert(rules.take(rules.len() as int) =~= rules);
        count
    }
}

/// What compiling a rule comes to.
enum Probe {
    /// It succeeds.
    Fine,
    /// It ends in an error.
    Flawed,
    /// It panics.
    Unsafe,
}

/// Tries a rule without compiling it for good.
fn probe(spec: &RuleSpec) -> (r: Probe)
    ensures
        r is Unsafe <==> !spec@.is_safe(),
        r is Fine ==> forall|id: u32| (#[trigger] spec@.compiled(id)) is Ok,
        r is Flawed ==> forall|id: u32| (#[trigger] spec@.compiled(id)) is Err,
{
    match spec {
        RuleSpec::Full(f) => match &f.kind {
            RuleKind::Exact { .. } => Probe::Fine,
            RuleKind::Prefix { .. } => Probe::Fine,
            RuleKind::Regex { pattern } => if RegexMatch::probe(pattern.as_str()) {
                Probe::Fine
            } else {
                Probe::Flawed
            },
            RuleKind::Glob { pattern } => match GlobMatch::probe(pattern.as_str()) {
                Some(true) => Probe::Fine,
                Some(false) => Probe::Unsafe,
                None => Probe::Flawed,
            },
        },
        RuleSpec::DenyPrefix(p) => if text::trim(p.as_str()).is_empty() {
            Probe::Flawed
        } else {
            Probe::Fine
        },
    }
}

/// Where the last glob rule ends; what follows is safe to compile.
fn globs_end(specs: &Vec<RuleSpec>) -> (r: usize)
    ensures
        r <= specs.len(),
        forall|i: int| r <= i < specs.len() ==> (#[trigger] specs[i])@.is_safe(),
{
    let mut end: usize = 0;
    for i in 0..specs.len()
        invariant
            end <= i,
            forall|j: int| end <= j < i ==> (#[trigger] specs[j])@.is_safe(),
    {
        if let RuleSpec::Full(f) = &specs[i] {
            if let RuleKind::Glob { .. } = &f.kind {
                end = i + 1;
            }
        }
    }
    end
}

/// Whether [`Policy::compile`] may be called on a file. Rules are tried in
/// order, and none behind one that ends in an error.
fn is_safe(file: &PolicyFile) -> (r: bool)
    ensures
        r == file@.is_safe(),
{
    let ghost specs = file@.rules;
    let end: usize = globs_end(&file.rules);
    assert(specs.take(0) =~= Seq::empty());
    for i in 0..end
        invariant
            specs == file@.rules,
            end <= file.rules.len(),
            compiled_rules(specs.take(i as int)) is Ok,
            forall|j: int| 0 <= j < i ==> (#[trigger] specs[j]).is_safe(),
    {
        assert(specs[i as int] == file.rules[i as int]@);
        proof {
            lemma_compiled_rules_next(specs, i as int);
        }
        match probe(&file.rules[i]) {
            Probe::Fine => {},
            Probe::Unsafe => {
                return false;
            },
            Probe::Flawed => {
                proof {
                    assert forall|k: int|
                        0 <= k < specs.len() && compiled_rules(
                            specs.take(k),
                        ) is Ok implies (#[trigger] specs[k]).is_safe() by {
                        if k > i {
                            assert(specs.take(k).take(i + 1) =~= specs.take(i + 1));
                            lemma_first_failure_decides(specs.take(k), i + 1);
                        }
                    }
                }
                return true;
            },
        }
    }
    assert(forall|j: int| end <= j < specs.len() ==> (#[trigger] specs[j])
        == file.rules[j]@);
    true
}

/// Compiling keeps the default and every rule, in order, and numbers each
/// rule by its index (cut to 32 bits).
pub proof fn law_compile_keeps_every_rule(file: PolicyFileView, policy: PolicyView)
    requires
        file.compiled() == Ok::<PolicyView, GateErrorView>(policy),
    ensures
        policy.default == file.default,
        policy.rules.len() == file.rules.len(),
        forall|i: int|
            0 <= i < file.rules.len() ==> (#[trigger] file.rules[i]).compiled(i as u32) == Ok::<
                RuleView,
                GateErrorView,
            >(policy.rules[i]),
        forall|i: int|
            0 <= i < file.rules.len() ==> (#[trigger] policy.rules[i]).id == i as u32,
        forall|i: int|
            0 <= i < file.rules.len() && i <= u32::MAX ==> (#[trigger] policy.rules[i]).id == i,
{
    lemma_compiled_rules_each(file.rules);
    assert forall|i: int| 0 <= i < file.rules.len() implies (#[trigger] policy.rules[i]).id
        == i as u32 by {
        assert(file.rules[i].compiled(i as u32) is Ok);
    }
}

/// A file compiles just where every rule in it does.
pub proof fn law_compile_succeeds_iff_every_rule_does(file: PolicyFileView)
    ensures
        file.compiled() is Ok <==> forall|i: int|
            0 <= i < file.rules.len() ==> (#[trigger] file.rules[i]).compiled(i as u32) is Ok,
{
    if compiled_rules(file.rules) is Ok {
        lemma_compiled_rules_each(file.rules);
    } else if forall|i: int|
        0 <= i < file.rules.len() ==> (#[trigger] file.rules[i]).compiled(i as u32) is Ok {
        lemma_compiled_rules_ok(file.rules, file.rules.len() as int);
        assert(file.rules.take(file.rules.len() as int) =~= file.rules);
    }
}

/// Of several rules that do not compile, the first decides the error.
pub proof fn law_first_bad_rule_decides_the_error(file: PolicyFileView, i: int)
    requires
        0 <= i < file.rules.len(),
        file.rules[i].compiled(i as u32) is Err,
        forall|j: int| 0 <= j < i ==> (#[trigger] file.rules[j]).compiled(j as u32) is Ok,
    ensures
        file.compiled() == Err::<PolicyView, GateErrorView>(
            file.rules[i].compiled(i as u32)->Err_0,
        ),
{
    lemma_compiled_rules_ok(file.rules, i);
    lemma_compiled_rules_next(file.rules, i);
    lemma_first_failure_decides(file.rules, i + 1);
}

/// A bad pattern fails at load time: no rule of a compiled policy has one.
pub proof fn law_no_bad_pattern_is_left(file: PolicyFileView, policy: PolicyView, i: int)
    requires
        file.compiled() == Ok::<PolicyView, GateErrorView>(policy),
        0 <= i < policy.rules.len(),
    ensures
        match policy.rules[i].matcher {
            MatcherView::Regex(p) => pattern::is_regex(p),
            MatcherView::Glob(p) => pattern::is_glob(p),
            _ => true,
        },
{
    law_compile_keeps_every_rule(file, policy);
    assert(file.rules[i].compiled(i as u32) is Ok);
}

/// A full rule that compiles is the rule that was written, under its number.
pub proof fn law_full_rule_keeps_what_was_written(f: FullRuleView, id: u32, rule: RuleView)
    requires
        RuleSpecView::Full(f).compiled(id) == Ok::<RuleView, GateErrorView>(rule),
    ensures
        rule.id == id,
        rule.matcher == f.kind,
        rule.action == f.action,
        rule.reason == f.reason,
        rule.agent == f.agent,
        rule.tool == f.tool,
{
}

/// A full rule is refused for its pattern alone: an exact text and a prefix
/// are always fine, the empty ones too; a regex and a glob are fine just where
/// they parse, else the error holds what the parser said.
pub proof fn law_full_rule_is_refused_for_its_pattern(f: FullRuleView, id: u32)
    ensures
        f.kind is Exact || f.kind is Prefix ==> RuleSpecView::Full(f).compiled(id) is Ok,
        f.kind matches MatcherView::Regex(p) ==> match pattern::regex_of(p) {
            Ok(_) => RuleSpecView::Full(f).compiled(id) is Ok,
            Err(source) => RuleSpecView::Full(f).compiled(id) == Err::<RuleView, GateErrorView>(
                GateErrorView::BadRegex { id, source },
            ),
        },
        f.kind matches MatcherView::Glob(p) ==> match pattern::glob_of(p) {
            Ok(_) => RuleSpecView::Full(f).compiled(id) is Ok,
            Err(source) => RuleSpecView::Full(f).compiled(id) == Err::<RuleView, GateErrorView>(
                GateErrorView::BadGlob { id, source },
            ),
        },
{
}

/// What a pattern is found wrong for goes by the pattern alone, and the error
/// of a rule that is refused names that rule.
pub proof fn law_flaw_is_the_parsers(kind: MatcherView, id: u32)
    ensures
        kind.flaw(id) is Some <==> {
            ||| kind matches MatcherView::Regex(p) && pattern::regex_of(p) is Err
            ||| kind matches MatcherView::Glob(p) && pattern::glob_of(p) is Err
        },
        kind.flaw(id) matches Some(e) ==> match kind {
            MatcherView::Regex(p) => e matches GateErrorView::BadRegex { id: n, source } && n == id
                && pattern::regex_of(p) == Err::<regex::Regex, regex::Error>(source),
            MatcherView::Glob(p) => e matches GateErrorView::BadGlob { id: n, source } && n == id
                && pattern::glob_of(p) == Err::<globset::Glob, globset::Error>(source),
            _ => false,
        },
{
}

/// Written under another number, a rule compiles to the same but the number.
pub proof fn law_number_makes_no_other_difference(spec: RuleSpecView, a: u32, b: u32)
    ensures
        match (spec.compiled(a), spec.compiled(b)) {
            (Ok(x), Ok(y)) => x.id == a && y == (RuleView { id: b, ..x }),
            (Err(_), Err(_)) => true,
            _ => false,
        },
{
}

/// An exact matcher accepts its own text and no other: nothing is trimmed, and
/// nothing may follow.
pub proof fn law_exact_accepts_one_text(text: Seq<char>, command: Seq<char>)
    ensures
        MatcherView::Exact(text).accepts(text),
        command != text ==> !MatcherView::Exact(text).accepts(command),
{
}

/// A prefix matcher accepts its text with anything behind it, and no other
/// command.
pub proof fn law_prefix_accepts_what_begins_so(
    prefix: Seq<char>,
    rest: Seq<char>,
    command: Seq<char>,
)
    ensures
        MatcherView::Prefix(prefix).accepts(prefix + rest),
        MatcherView::Prefix(prefix).accepts(command) ==> command.len() >= prefix.len() && command
            == prefix + command.skip(prefix.len() as int),
{
    if prefix.is_prefix_of(command) {
        assert(command =~= prefix + command.skip(prefix.len() as int));
    }
    assert((prefix + rest).take(prefix.len() as int) =~= prefix);
}

/// A regex matcher accepts the commands in which its regex matches, and a glob
/// matcher those that its glob matches as a whole; each is asked of the very
/// command, and of nothing added to it or taken from it.
pub proof fn law_patterns_see_the_command_itself(pattern: Seq<char>, command: Seq<char>)
    ensures
        MatcherView::Regex(pattern).accepts(command) <==> pattern::regex_is_match(pattern, command),
        MatcherView::Glob(pattern).accepts(command) <==> pattern::glob_is_match(pattern, command),
{
}

/// A rule without a scope applies just where its pattern matches the trimmed
/// command.
pub proof fn law_unscoped_rule_applies_by_its_pattern(rule: RuleView, call: ToolCallView)
    requires
        rule.tool is None,
        rule.agent is None,
    ensures
        rule.matcher matches MatcherView::Exact(c) ==> (rule.applies(call) <==> c == text::trimmed(
            call.command,
        )),
        rule.matcher matches MatcherView::Prefix(p) ==> (rule.applies(call) <==> p.is_prefix_of(
            text::trimmed(call.command),
        )),
        rule.matcher matches MatcherView::Regex(p) ==> (rule.applies(call)
            <==> pattern::regex_is_match(p, text::trimmed(call.command))),
        rule.matcher matches MatcherView::Glob(p) ==> (rule.applies(call)
            <==> pattern::glob_is_match(p, text::trimmed(call.command))),
{
}

/// A scope is necessary and sufficient: a rule applies to a call just where
/// its tool is unset or the call's, its agent is unset or the call's, and the
/// rule without a scope would apply.
pub proof fn law_scope_and_pattern_decide(rule: RuleView, call: ToolCallView)
    ensures
        rule.applies(call) <==> {
            &&& rule.tool is None || rule.tool == Some(call.tool)
            &&& rule.agent is None || rule.agent == Some(call.agent)
            &&& (RuleView { tool: None, agent: None, ..rule }).applies(call)
        },
        rule.applies(call) <==> {
            &&& rule.tool is None || rule.tool == Some(call.tool)
            &&& rule.agent is None || rule.agent == Some(call.agent)
            &&& rule.matcher.accepts(text::trimmed(call.command))
        },
        rule.in_scope(call) <==> {
            &&& rule.tool is None || rule.tool == Some(call.tool)
            &&& rule.agent is None || rule.agent == Some(call.agent)
        },
{
}

/// Number, action and reason have no part in whether a rule applies.
pub proof fn law_outcome_does_not_decide_whether_a_rule_applies(
    a: RuleView,
    b: RuleView,
    call: ToolCallView,
)
    requires
        a.matcher == b.matcher,
        a.agent == b.agent,
        a.tool == b.tool,
    ensures
        a.applies(call) == b.applies(call),
{
}

/// A command is trimmed before a rule sees it, and the rule's own text is not:
/// an exact text or a prefix that begins with white space never applies, nor
/// does an exact text that ends in it.
pub proof fn law_padded_text_never_applies(rule: RuleView, call: ToolCallView, written: Seq<char>)
    requires
        rule.matcher == MatcherView::Exact(written) || rule.matcher == MatcherView::Prefix(written),
        written.len() > 0,
        text::is_white_space(written[0]) || (rule.matcher is Exact && text::is_white_space(
            written.last(),
        )),
    ensures
        !rule.applies(call),
{
    text::law_trimming_leaves_the_core(call.command);
    let t = text::trimmed(call.command);
    if written.is_prefix_of(t) {
        assert(t[0] == written[0]);
    }
}

/// Compiling one rule can panic in one case: a pattern that parses as a glob,
/// but whose matcher cannot be built.
pub proof fn law_only_a_glob_that_cannot_be_built_is_unsafe(spec: RuleSpecView)
    ensures
        !spec.is_safe() <==> (spec matches RuleSpecView::Full(f) && f.kind matches MatcherView::Glob(p)
            && pattern::glob_of(p) is Ok && !pattern::glob_builds(p)),
        spec matches RuleSpecView::Full(f) ==> f.kind.is_safe() == spec.is_safe(),
{
}

/// Compiling a file can panic just where such a rule is reached: every rule
/// before it compiles.
pub proof fn law_file_is_unsafe_iff_an_unsafe_rule_is_reached(file: PolicyFileView)
    ensures
        !file.is_safe() <==> exists|i: int|
            {
                &&& 0 <= i < file.rules.len()
                &&& !(#[trigger] file.rules[i]).is_safe()
                &&& forall|j: int| 0 <= j < i ==> (#[trigger] file.rules[j]).compiled(j as u32) is Ok
            },
{
    let rules = file.rules;
    assert forall|i: int| 0 <= i < rules.len() implies compiled_rules(#[trigger] rules.take(i)) is Ok
        <==> forall|j: int| 0 <= j < i ==> (#[trigger] rules[j]).compiled(j as u32) is Ok by {
        if compiled_rules(rules.take(i)) is Ok {
            lemma_compiled_rules_each(rules.take(i));
            assert forall|j: int| 0 <= j < i implies (#[trigger] rules[j]).compiled(
                j as u32,
            ) is Ok by {
                assert(rules.take(i)[j] == rules[j]);
            }
        } else if forall|j: int| 0 <= j < i ==> (#[trigger] rules[j]).compiled(j as u32) is Ok {
            lemma_compiled_rules_ok(rules, i);
        }
    }
    if !file.is_safe() {
        let i = choose|i: int|
            0 <= i < rules.len() && compiled_rules(rules.take(i)) is Ok && !(
            #[trigger] rules[i]).is_safe();
        assert(!rules[i].is_safe());
    }
}

/// The model of a rule as written holds its texts and its action, each in its
/// place.
pub proof fn law_model_of_a_written_rule(f: FullRule)
    ensures
        f@.action == f.action,
        match f.reason {
            Some(s) => f@.reason == Some(s@),
            None => f@.reason is None,
        },
        match f.agent {
            Some(s) => f@.agent == Some(s@),
            None => f@.agent is None,
        },
        match f.tool {
            Some(s) => f@.tool == Some(s@),
            None => f@.tool is None,
        },
        match f.kind {
            RuleKind::Exact { command } => f@.kind == MatcherView::Exact(command@),
            RuleKind::Prefix { prefix } => f@.kind == MatcherView::Prefix(prefix@),
            RuleKind::Regex { pattern } => f@.kind == MatcherView::Regex(pattern@),
            RuleKind::Glob { pattern } => f@.kind == MatcherView::Glob(pattern@),
        },
{
}

/// The model of a file holds its default and its entries, in order; that of an
/// entry tells a full rule from a bare text.
pub proof fn law_model_of_a_file(file: PolicyFile)
    ensures
        file@.default == file.default,
        file@.rules.len() == file.rules.len(),
        forall|i: int|
            0 <= i < file.rules.len() ==> match #[trigger] file.rules[i] {
                RuleSpec::Full(f) => file@.rules[i] == RuleSpecView::Full(f@),
                RuleSpec::DenyPrefix(p) => file@.rules[i] == RuleSpecView::DenyPrefix(p@),
            },
{
}

/// The model of a compiled rule holds its number, its texts and its action,
/// each in its place.
pub proof fn law_model_of_a_rule(rule: Rule)
    ensures
        rule@.id == rule.id.0,
        rule@.action == rule.action,
        match rule.reason {
            Some(s) => rule@.reason == Some(s@),
            None => rule@.reason is None,
        },
        match rule.agent {
            Some(s) => rule@.agent == Some(s@),
            None => rule@.agent is None,
        },
        match rule.tool {
            Some(s) => rule@.tool == Some(s@),
            None => rule@.tool is None,
        },
        match rule.matcher {
            Matcher::Exact(command) => rule@.matcher == MatcherView::Exact(command@),
            Matcher::Prefix(prefix) => rule@.matcher == MatcherView::Prefix(prefix@),
            Matcher::Regex(m) => rule@.matcher == MatcherView::Regex(m@),
            Matcher::Glob(m) => rule@.matcher == MatcherView::Glob(m@),
        },
{
}

/// The model of a policy holds its default and its rules, in order.
pub proof fn law_model_of_a_policy(policy: Policy)
    ensures
        policy@.default == policy.default,
        policy@.rules.len() == policy.rules.len(),
        forall|i: int| 0 <= i < policy.rules.len() ==> policy@.rules[i] == (#[trigger] policy.rules[i])@,
{
}

/// Each rule that denies counts once among those that do, and no other counts;
/// what a policy does by default does not count.
pub proof fn law_denials_are_counted(policy: PolicyView, rule: RuleView)
    ensures
        policy.rules.len() == 0 ==> policy.denies() == 0,
        (PolicyView { rules: policy.rules.push(rule), ..policy }).denies() == policy.denies() + (
        if rule.action is Deny {
            1nat
        } else {
            0nat
        }),
        policy.denies() <= policy.rules.len(),
    decreases policy.rules.len(),
{
    reveal(Seq::filter);
    assert(policy.rules.push(rule).drop_last() =~= policy.rules);
    if policy.rules.len() > 0 {
        let fewer = PolicyView { rules: policy.rules.drop_last(), ..policy };
        law_denials_are_counted(fewer, policy.rules.last());
        assert(fewer.rules.push(policy.rules.last()) =~= policy.rules);
    }
}

/// A bare text is refused just where it is blank; else it denies the commands
/// that begin with it, whatever the agent and the tool, and says so.
pub proof fn law_bare_text_denies_a_prefix(p: Seq<char>, id: u32)
    ensures
        match RuleSpecView::DenyPrefix(p).compiled(id) {
            Ok(rule) => {
                &&& !text::is_blank(p)
                &&& rule.id == id
                &&& rule.action == Action::Deny
                &&& rule.reason == Some("matched deny-list shorthand "@ + text::quoted(p))
                &&& rule.agent is None && rule.tool is None
                &&& forall|call: ToolCallView| #[trigger]
                    rule.applies(call) <==> p.is_prefix_of(text::trimmed(call.command))
            },
            Err(e) => text::is_blank(p) && e == GateErrorView::EmptyRule { id },
        },
{
    text::lemma_trimmed_empty(p);
}

/// No bare text makes a rule that denies every command: it leaves the blank
/// ones alone.
pub proof fn law_bare_text_does_not_deny_all(
    p: Seq<char>,
    id: u32,
    rule: RuleView,
    call: ToolCallView,
)
    requires
        RuleSpecView::DenyPrefix(p).compiled(id) == Ok::<RuleView, GateErrorView>(rule),
        text::is_blank(call.command),
    ensures
        !rule.applies(call),
{
    law_bare_text_denies_a_prefix(p, id);
    text::lemma_trimmed_empty(call.command);
}

proof fn lemma_compiled_rules_each(specs: Seq<RuleSpecView>)
    requires
        compiled_rules(specs) is Ok,
    ensures
        compiled_rules(specs)->Ok_0.len() == specs.len(),
        forall|i: int|
            0 <= i < specs.len() ==> (#[trigger] specs[i]).compiled(i as u32) == Ok::<
                RuleView,
                GateErrorView,
            >(compiled_rules(specs)->Ok_0[i]),
    decreases specs.len(),
{
    if specs.len() > 0 {
        let init = specs.drop_last();
        lemma_compiled_rules_each(init);
        assert forall|i: int| 0 <= i < specs.len() implies (#[trigger] specs[i]).compiled(i as u32)
            == Ok::<RuleView, GateErrorView>(compiled_rules(specs)->Ok_0[i]) by {
            if i < init.len() {
                assert(init[i] == specs[i]);
            }
        }
    }
}

proof fn lemma_compiled_rules_ok(specs: Seq<RuleSpecView>, n: int)
    requires
        0 <= n <= specs.len(),
        forall|i: int| 0 <= i < n ==> (#[trigger] specs[i]).compiled(i as u32) is Ok,
    ensures
        compiled_rules(specs.take(n)) is Ok,
    decreases n,
{
    if n > 0 {
        lemma_compiled_rules_ok(specs, n - 1);
        lemma_compiled_rules_next(specs, n - 1);
    }
}

} // verus!
