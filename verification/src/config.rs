//! Runtime configuration, assembled from environment variables over defaults.

use vstd::prelude::*;

use crate::text;
use crate::types::{key_of, AdminKey};

verus! {

/// What the environment holds under a name.
#[derive(Debug)]
pub enum EnvVar {
    Unset,
    Text(String),
    /// Set, but not to text; the system's words for it.
    Unreadable(String),
}

/// An [`EnvVar`] with its texts as sequences of characters.
pub enum EnvVarView {
    Unset,
    Text(Seq<char>),
    Unreadable(Seq<char>),
}

impl View for EnvVar {
    type V = EnvVarView;

    open spec fn view(&self) -> EnvVarView {
        match *self {
            EnvVar::Unset => EnvVarView::Unset,
            EnvVar::Text(s) => EnvVarView::Text(s@),
            EnvVar::Unreadable(s) => EnvVarView::Unreadable(s@),
        }
    }
}

/// The variables that make up the configuration.
#[derive(Debug)]
pub struct Environment {
    /// `AGENTWARDEN_POLICY`
    pub policy: EnvVar,
    /// `AGENTWARDEN_ADDR`
    pub addr: EnvVar,
    /// `AGENTWARDEN_RELOAD_SECS`
    pub reload_secs: EnvVar,
    /// `AGENTWARDEN_ADMIN_KEY`
    pub admin_key: EnvVar,
}

/// Why the configuration is no good.
#[derive(Debug)]
pub enum ConfigError {
    Unreadable { key: String, error: String },
    InvalidValue { key: String, value: String, error: String },
    EmptyAdminKey,
}

/// A [`ConfigError`] with its texts as sequences of characters.
pub enum ConfigErrorView {
    Unreadable { key: Seq<char>, error: Seq<char> },
    InvalidValue { key: Seq<char>, value: Seq<char>, error: Seq<char> },
    EmptyAdminKey,
}

impl View for ConfigError {
    type V = ConfigErrorView;

    open spec fn view(&self) -> ConfigErrorView {
        match *self {
            ConfigError::Unreadable { key, error } => ConfigErrorView::Unreadable {
                key: key@,
                error: error@,
            },
            ConfigError::InvalidValue { key, value, error } => ConfigErrorView::InvalidValue {
                key: key@,
                value: value@,
                error: error@,
            },
            ConfigError::EmptyAdminKey => ConfigErrorView::EmptyAdminKey,
        }
    }
}

impl ConfigErrorView {
    /// The error in words.
    pub open spec fn message(self) -> Seq<char> {
        match self {
            ConfigErrorView::Unreadable { key, error } => key + ": "@ + error,
            ConfigErrorView::InvalidValue { key, value, error } => key + ": invalid value "@
                + text::quoted(value) + ": "@ + error,
            ConfigErrorView::EmptyAdminKey =>
                "AGENTWARDEN_ADMIN_KEY is set but empty; unset it to disable /reload"@,
        }
    }
}

impl ConfigError {
    /// The error in words.
    pub fn message(&self) -> (r: String)
        ensures
            r@ == self@.message(),
    {
        match self {
            ConfigError::Unreadable { key, error } => text::join3(
                key.as_str(),
                ": ",
                error.as_str(),
            ),
            ConfigError::InvalidValue { key, value, error } => text::join3(
                key.as_str(),
                ": invalid value ",
                text::quote(value.as_str()).as_str(),
            ).concat(": ").concat(error.as_str()),
            ConfigError::EmptyAdminKey => {
                "AGENTWARDEN_ADMIN_KEY is set but empty; unset it to disable /reload".to_owned()
            },
        }
    }
}

/// The admin key, by the value of its variable: none where it is unset, and
/// none that is blank.
pub open spec fn admin_key(raw: Option<Seq<char>>) -> Result<Option<Seq<char>>, ConfigErrorView> {
    match raw {
        None => Ok(None),
        Some(key) => if text::trimmed(key).len() == 0 {
            Err(ConfigErrorView::EmptyAdminKey)
        } else {
            Ok(Some(key))
        },
    }
}

/// Validate the configured admin key. A set-but-empty value would enable
/// reloading yet authorize a request that sends no key (empty equals empty),
/// so it is rejected loudly here rather than silently failing open at request
/// time.
pub fn parse_admin_key(raw: Option<String>) -> (r: Result<Option<AdminKey>, ConfigError>)
    ensures
        match r {
            Ok(key) => admin_key(text::text_of(raw)) == Ok::<Option<Seq<char>>, ConfigErrorView>(
                key_of(key),
            ),
            Err(e) => admin_key(text::text_of(raw)) == Err::<Option<Seq<char>>, ConfigErrorView>(
                e@,
            ),
        },
        match raw {
            None => r == Ok::<Option<AdminKey>, ConfigError>(None),
            Some(s) => if text::is_blank(s@) {
                r == Err::<Option<AdminKey>, ConfigError>(ConfigError::EmptyAdminKey)
            } else {
                r matches Ok(Some(key)) && key@ == s@
            },
        },
{
    match raw {
        Some(key) => {
            proof {
                text::lemma_trimmed_empty(key@);
            }
            if text::trim(key.as_str()).is_empty() {
                Err(ConfigError::EmptyAdminKey)
            } else {
                Ok(Some(AdminKey::new(key)))
            }
        },
        None => Ok(None),
    }
}

/// The text under a name, which may be unset but must be readable.
pub open spec fn env_text(key: Seq<char>, var: EnvVarView) -> Result<
    Option<Seq<char>>,
    ConfigErrorView,
> {
    match var {
        EnvVarView::Unset => Ok(None),
        EnvVarView::Text(s) => Ok(Some(s)),
        EnvVarView::Unreadable(error) => Err(ConfigErrorView::Unreadable { key, error }),
    }
}

/// The value under a name, by what parsing its text gave: `parsed` matters
/// where there is a text. A malformed value is an error.
pub open spec fn env_value<T>(
    key: Seq<char>,
    var: EnvVarView,
    parsed: Result<T, Seq<char>>,
) -> Result<Option<T>, ConfigErrorView> {
    match env_text(key, var) {
        Ok(None) => Ok(None),
        Ok(Some(value)) => match parsed {
            Ok(t) => Ok(Some(t)),
            Err(error) => Err(ConfigErrorView::InvalidValue { key, value, error }),
        },
        Err(e) => Err(e),
    }
}

/// Parsing `s` may give `parsed`.
pub open spec fn may_parse<T, F: Fn(&str) -> Result<T, String>>(
    parse: F,
    s: Seq<char>,
    parsed: Result<T, Seq<char>>,
) -> bool {
    exists|arg: &str, r: Result<T, String>|
        {
            &&& arg@ == s
            &&& #[trigger] call_ensures(parse, (arg,), r)
            &&& parsed == parse_outcome(r)
        }
}

/// Parsing the text under a name, if there is one, may give `parsed`.
pub open spec fn may_give<T, F: Fn(&str) -> Result<T, String>>(
    parse: F,
    var: EnvVarView,
    parsed: Result<T, Seq<char>>,
) -> bool {
    var matches EnvVarView::Text(s) ==> may_parse(parse, s, parsed)
}

/// What a parser gave, with its error as a sequence of characters.
pub open spec fn parse_outcome<T>(r: Result<T, String>) -> Result<T, Seq<char>> {
    match r {
        Ok(t) => Ok(t),
        Err(e) => Err(e@),
    }
}

/// Distinguishes "unset" (`Ok(None)`) from "set but unreadable".
pub fn env_str(key: &str, var: EnvVar) -> (r: Result<Option<String>, ConfigError>)
    ensures
        match r {
            Ok(s) => env_text(key@, var@) == Ok::<Option<Seq<char>>, ConfigErrorView>(text::text_of(s)),
            Err(e) => env_text(key@, var@) == Err::<Option<Seq<char>>, ConfigErrorView>(e@),
        },
{
    match var {
        EnvVar::Unset => Ok(None),
        EnvVar::Text(s) => Ok(Some(s)),
        EnvVar::Unreadable(error) => Err(ConfigError::Unreadable { key: key.to_owned(), error }),
    }
}

/// Like [`env_str`], but parse the value and fail loudly on a malformed one
/// rather than silently falling back to the default.
pub fn env_parsed<T, F: Fn(&str) -> Result<T, String>>(key: &str, var: EnvVar, parse: F) -> (r:
    Result<Option<T>, ConfigError>)
    requires
        forall|s: &str| call_requires(parse, (s,)),
    ensures
        exists|parsed: Result<T, Seq<char>>|
            {
                &&& #[trigger] may_give(parse, var@, parsed)
                &&& match r {
                    Ok(t) => env_value(key@, var@, parsed) == Ok::<Option<T>, ConfigErrorView>(t),
                    Err(e) => env_value(key@, var@, parsed) == Err::<Option<T>, ConfigErrorView>(
                        e@,
                    ),
                }
            },
        match var {
            EnvVar::Unset => r == Ok::<Option<T>, ConfigError>(None),
            EnvVar::Text(s) => exists|arg: &str, parsed: Result<T, String>|
                {
                    &&& arg@ == s@
                    &&& #[trigger] call_ensures(parse, (arg,), parsed)
                    &&& match parsed {
                        Ok(t) => r == Ok::<Option<T>, ConfigError>(Some(t)),
                        Err(text) => r matches Err(e) && e@ == (ConfigErrorView::InvalidValue {
                            key: key@,
                            value: s@,
                            error: text@,
                        }),
                    }
                },
            EnvVar::Unreadable(s) => r matches Err(e) && e@ == (ConfigErrorView::Unreadable {
                key: key@,
                error: s@,
            }),
        },
{
    let ghost unparsed = Err::<T, Seq<char>>(Seq::empty());
    assert(var@ !is Text ==> may_give(parse, var@, unparsed));
    match env_str(key, var) {
        Ok(Some(value)) => {
            let outcome = parse(value.as_str());
            assert(may_give(parse, var@, parse_outcome(outcome)));
            match outcome {
                Ok(t) => Ok(Some(t)),
                Err(error) => Err(ConfigError::InvalidValue { key: key.to_owned(), value, error }),
            }
        },
        Ok(None) => Ok(None),
        Err(e) => Err(e),
    }
}

/// A socket address in plain numbers.
#[allow(inconsistent_fields)]
#[derive(Debug, Clone, Copy, PartialEq, Eq)]
pub enum ListenAddr {
    V4 { ip: u32, port: u16 },
    V6 { ip: u128, port: u16, flowinfo: u32, scope_id: u32 },
}

/// Server configuration. Built by [`Config::from_env`].
pub struct Config {
    pub policy_path: String,
    pub addr: ListenAddr,
    /// Hot-reload interval in seconds; `0` disables the reload daemon.
    pub reload_secs: u64,
    /// When set, forcing a reload takes this key.
    pub admin_key: Option<AdminKey>,
}

/// A [`Config`] with its texts as sequences of characters.
pub struct ConfigView {
    pub policy_path: Seq<char>,
    pub addr: ListenAddr,
    pub reload_secs: u64,
    pub admin_key: Option<Seq<char>>,
}

/// An [`Environment`] with its texts as sequences of characters.
pub struct EnvironmentView {
    pub policy: EnvVarView,
    pub addr: EnvVarView,
    pub reload_secs: EnvVarView,
    pub admin_key: EnvVarView,
}

impl View for Config {
    type V = ConfigView;

    open spec fn view(&self) -> ConfigView {
        ConfigView {
            policy_path: self.policy_path@,
            addr: self.addr,
            reload_secs: self.reload_secs,
            admin_key: key_of(self.admin_key),
        }
    }
}

impl View for Environment {
    type V = EnvironmentView;

    open spec fn view(&self) -> EnvironmentView {
        EnvironmentView {
            policy: self.policy@,
            addr: self.addr@,
            reload_secs: self.reload_secs@,
            admin_key: self.admin_key@,
        }
    }
}

/// `127.0.0.1:8080`.
pub open spec fn default_addr() -> ListenAddr {
    ListenAddr::V4 { ip: 0x7f00_0001, port: 8080 }
}

/// What parsing the text under a name as a `u64` gives; without a text,
/// nothing is parsed and the result does not matter.
pub open spec fn secs_of(var: EnvVarView) -> Result<u64, Seq<char>> {
    match var {
        EnvVarView::Text(s) => text::parsed_u64(s),
        _ => Ok(0),
    }
}

impl EnvironmentView {
    /// The configuration, by what parsing the text of the address gave, or
    /// the first error. What is unset has a default.
    pub open spec fn configured(self, addr: Result<ListenAddr, Seq<char>>) -> Result<
        ConfigView,
        ConfigErrorView,
    > {
        match env_text("AGENTWARDEN_POLICY"@, self.policy) {
            Err(e) => Err(e),
            Ok(policy) => match env_value("AGENTWARDEN_ADDR"@, self.addr, addr) {
                Err(e) => Err(e),
                Ok(addr) => match env_value(
                    "AGENTWARDEN_RELOAD_SECS"@,
                    self.reload_secs,
                    secs_of(self.reload_secs),
                ) {
                    Err(e) => Err(e),
                    Ok(secs) => match env_text("AGENTWARDEN_ADMIN_KEY"@, self.admin_key) {
                        Err(e) => Err(e),
                        Ok(raw) => match admin_key(raw) {
                            Err(e) => Err(e),
                            Ok(key) => Ok(with_defaults(policy, addr, secs, key)),
                        },
                    },
                },
            },
        }
    }
}

/// Settings over defaults.
pub open spec fn with_defaults(
    policy: Option<Seq<char>>,
    addr: Option<ListenAddr>,
    secs: Option<u64>,
    key: Option<Seq<char>>,
) -> ConfigView {
    ConfigView {
        policy_path: match policy {
            Some(path) => path,
            None => "policy.toml"@,
        },
        addr: match addr {
            Some(addr) => addr,
            None => default_addr(),
        },
        reload_secs: match secs {
            Some(secs) => secs,
            None => 5,
        },
        admin_key: key,
    }
}

impl Config {
    /// The configuration, by the environment and a parser of socket addresses.
    pub fn from_env<F: Fn(&str) -> Result<ListenAddr, String>>(
        env: Environment,
        parse_addr: F,
    ) -> (r: Result<Self, ConfigError>)
        requires
            forall|s: &str| call_requires(parse_addr, (s,)),
        ensures
            env.policy@ matches EnvVarView::Unreadable(error) ==> (r matches Err(e) && e@
                == ConfigErrorView::Unreadable { key: "AGENTWARDEN_POLICY"@, error }),
            env.policy@ !is Unreadable ==> exists|addr: Result<ListenAddr, Seq<char>>|
                {
                    &&& #[trigger] may_give(parse_addr, env.addr@, addr)
                    &&& match r {
                        Ok(config) => env@.configured(addr) == Ok::<ConfigView, ConfigErrorView>(
                            config@,
                        ),
                        Err(e) => env@.configured(addr) == Err::<ConfigView, ConfigErrorView>(e@),
                    }
                },
    {
        let policy = match env_str("AGENTWARDEN_POLICY", env.policy) {
            Ok(policy) => policy,
            Err(e) => {
                return Err(e);
            },
        };
        let addr = match env_parsed("AGENTWARDEN_ADDR", env.addr, parse_addr) {
            Ok(addr) => addr,
            Err(e) => {
                return Err(e);
            },
        };
        let secs = match env_parsed(
            "AGENTWARDEN_RELOAD_SECS",
            env.reload_secs,
            text::parse_u64,
        ) {
            Ok(secs) => secs,
            Err(e) => {
                return Err(e);
            },
        };
        let raw = match env_str("AGENTWARDEN_ADMIN_KEY", env.admin_key) {
            Ok(raw) => raw,
            Err(e) => {
                return Err(e);
            },
        };
        let admin_key = match parse_admin_key(raw) {
            Ok(key) => key,
            Err(e) => {
                return Err(e);
            },
        };
        Ok(Config::with_settings(policy, addr, secs, admin_key))
    }

    /// The configuration, by the settings that are there.
    pub fn with_settings(
        policy: Option<String>,
        addr: Option<ListenAddr>,
        secs: Option<u64>,
        admin_key: Option<AdminKey>,
    ) -> (r: Self)
        ensures
            r@ == with_defaults(text::text_of(policy), addr, secs, key_of(admin_key)),
    {
        Config {
            policy_path: match policy {
                Some(path) => path,
                None => "policy.toml".to_owned(),
            },
            addr: match addr {
                Some(addr) => addr,
                None => ListenAddr::V4 { ip: 0x7f00_0001, port: 8080 },
            },
            reload_secs: match secs {
                Some(secs) => secs,
                None => 5,
            },
            admin_key,
        }
    }
}

/// An environment is accepted just where every variable is readable, the
/// address and the interval are unset or parse, and the admin key is unset or
/// not blank. Every number is a fine interval, zero too.
pub proof fn law_well_formed_environment_is_accepted(
    env: EnvironmentView,
    addr: Result<ListenAddr, Seq<char>>,
)
    ensures
        env.configured(addr) is Ok <==> {
            &&& env.policy !is Unreadable
            &&& env.addr is Unset || (env.addr is Text && addr is Ok)
            &&& env.reload_secs is Unset || (env.reload_secs matches EnvVarView::Text(s)
                && text::parsed_u64(s) is Ok)
            &&& env.admin_key is Unset || (env.admin_key matches EnvVarView::Text(s)
                && !text::is_blank(s))
        },
{
    if let EnvVarView::Text(s) = env.admin_key {
        text::lemma_trimmed_empty(s);
    }
}

/// Any number in decimal that fits is taken for the interval as it is.
pub proof fn law_interval_reads_back(
    env: EnvironmentView,
    addr: Result<ListenAddr, Seq<char>>,
    secs: u64,
)
    requires
        env.configured(addr) is Ok,
    ensures
        ({
            let set = EnvironmentView {
                reload_secs: EnvVarView::Text(text::decimal_text(secs as nat)),
                ..env
            };
            set.configured(addr) == Ok::<ConfigView, ConfigErrorView>(
                ConfigView { reload_secs: secs, ..env.configured(addr)->Ok_0 },
            )
        }),
{
    text::law_decimal_reads_back(secs as nat);
}

/// Each setting goes by its own variable: where two environments differ in one
/// variable and both are accepted, the configurations differ in that setting
/// at most.
pub proof fn law_settings_are_independent(
    a: EnvironmentView,
    b: EnvironmentView,
    addr: Result<ListenAddr, Seq<char>>,
)
    requires
        a.configured(addr) is Ok,
        b.configured(addr) is Ok,
    ensures
        a.policy == b.policy ==> a.configured(addr)->Ok_0.policy_path == b.configured(
            addr,
        )->Ok_0.policy_path,
        a.addr == b.addr ==> a.configured(addr)->Ok_0.addr == b.configured(addr)->Ok_0.addr,
        a.reload_secs == b.reload_secs ==> a.configured(addr)->Ok_0.reload_secs == b.configured(
            addr,
        )->Ok_0.reload_secs,
        a.admin_key == b.admin_key ==> a.configured(addr)->Ok_0.admin_key == b.configured(
            addr,
        )->Ok_0.admin_key,
{
}

/// The first variable that is no good decides the error, in the order policy,
/// address, interval, admin key; the error names it, and holds its value and
/// what the system or the parser said against it.
pub proof fn law_first_bad_variable_is_reported(
    env: EnvironmentView,
    addr: Result<ListenAddr, Seq<char>>,
    e: ConfigErrorView,
)
    requires
        env.configured(addr) == Err::<ConfigView, ConfigErrorView>(e),
    ensures
        match (env.policy, env.addr, addr) {
            (EnvVarView::Unreadable(error), _, _) => e == (ConfigErrorView::Unreadable {
                key: "AGENTWARDEN_POLICY"@,
                error,
            }),
            (_, EnvVarView::Unreadable(error), _) => e == (ConfigErrorView::Unreadable {
                key: "AGENTWARDEN_ADDR"@,
                error,
            }),
            (_, EnvVarView::Text(value), Err(error)) => e == (ConfigErrorView::InvalidValue {
                key: "AGENTWARDEN_ADDR"@,
                value,
                error,
            }),
            _ => match (env.reload_secs, env.admin_key) {
                (EnvVarView::Unreadable(error), _) => e == (ConfigErrorView::Unreadable {
                    key: "AGENTWARDEN_RELOAD_SECS"@,
                    error,
                }),
                (EnvVarView::Text(value), _) if text::parsed_u64(value) is Err => e == (
                ConfigErrorView::InvalidValue {
                    key: "AGENTWARDEN_RELOAD_SECS"@,
                    value,
                    error: text::u64_error_text(value),
                }),
                (_, EnvVarView::Unreadable(error)) => e == (ConfigErrorView::Unreadable {
                    key: "AGENTWARDEN_ADMIN_KEY"@,
                    error,
                }),
                (_, EnvVarView::Text(value)) => text::is_blank(value)
                    && e is EmptyAdminKey,
                _ => false,
            },
        },
{
    if let EnvVarView::Text(s) = env.admin_key {
        text::lemma_trimmed_empty(s);
    }
}

/// An admin key is refused just where it is blank, and kept as it stands where
/// it is not; nothing is trimmed. Unset, there is none.
pub proof fn law_admin_key_is_kept_unless_blank(key: Seq<char>)
    ensures
        admin_key(None) == Ok::<Option<Seq<char>>, ConfigErrorView>(None),
        text::is_blank(key) ==> admin_key(Some(key)) == Err::<Option<Seq<char>>, ConfigErrorView>(
            ConfigErrorView::EmptyAdminKey,
        ),
        !text::is_blank(key) ==> admin_key(Some(key)) == Ok::<Option<Seq<char>>, ConfigErrorView>(
            Some(key),
        ),
{
    text::lemma_trimmed_empty(key);
}

/// Unset is no error and no text; a text is given as it is; what cannot be
/// read is an error that names the variable and holds the system's words.
pub proof fn law_unset_is_told_from_unreadable(key: Seq<char>, words: Seq<char>)
    ensures
        env_text(key, EnvVarView::Unset) == Ok::<Option<Seq<char>>, ConfigErrorView>(None),
        env_text(key, EnvVarView::Text(words)) == Ok::<Option<Seq<char>>, ConfigErrorView>(
            Some(words),
        ),
        env_text(key, EnvVarView::Unreadable(words)) == Err::<Option<Seq<char>>, ConfigErrorView>(
            ConfigErrorView::Unreadable { key, error: words },
        ),
{
}

/// A value is what its text parses to. A text that does not parse is an error
/// that names the variable and holds the text and the parser's words; without
/// a text the parser has no say.
pub proof fn law_value_is_what_its_text_parses_to<T>(
    key: Seq<char>,
    value: Seq<char>,
    t: T,
    words: Seq<char>,
    parsed: Result<T, Seq<char>>,
)
    ensures
        env_value(key, EnvVarView::Text(value), Ok::<T, Seq<char>>(t)) == Ok::<
            Option<T>,
            ConfigErrorView,
        >(Some(t)),
        env_value(key, EnvVarView::Text(value), Err::<T, Seq<char>>(words)) == Err::<
            Option<T>,
            ConfigErrorView,
        >(ConfigErrorView::InvalidValue { key, value, error: words }),
        env_value(key, EnvVarView::Unset, parsed) == Ok::<Option<T>, ConfigErrorView>(None),
        env_value(key, EnvVarView::Unreadable(words), parsed) == Err::<Option<T>, ConfigErrorView>(
            ConfigErrorView::Unreadable { key, error: words },
        ),
{
}

/// A parser is asked about the text of the variable itself, and what it said
/// is passed on as it is; it is asked nothing where there is no text.
pub proof fn law_parser_is_asked_about_the_text<T, F: Fn(&str) -> Result<T, String>>(
    parse: F,
    s: Seq<char>,
    parsed: Result<T, Seq<char>>,
)
    ensures
        may_give(parse, EnvVarView::Text(s), parsed) <==> exists|arg: &str, r: Result<T, String>|
            {
                &&& arg@ == s
                &&& #[trigger] call_ensures(parse, (arg,), r)
                &&& match (r, parsed) {
                    (Ok(t), Ok(u)) => t == u,
                    (Err(words), Err(error)) => words@ == error,
                    _ => false,
                }
            },
        may_give(parse, EnvVarView::Unset, parsed),
{
    if may_give(parse, EnvVarView::Text(s), parsed) {
        let (arg, r) = choose|arg: &str, r: Result<T, String>|
            arg@ == s && #[trigger] call_ensures(parse, (arg,), r) && parsed == parse_outcome(r);
        assert(call_ensures(parse, (arg,), r));
    }
}

/// What is set is taken as it is; what is not has its default: `policy.toml`,
/// `127.0.0.1:8080`, five seconds, and no key.
pub proof fn law_defaults(
    policy: Option<Seq<char>>,
    addr: Option<ListenAddr>,
    secs: Option<u64>,
    key: Option<Seq<char>>,
)
    ensures
        match policy {
            Some(path) => with_defaults(policy, addr, secs, key).policy_path == path,
            None => with_defaults(policy, addr, secs, key).policy_path == "policy.toml"@,
        },
        match addr {
            Some(addr_set) => with_defaults(policy, addr, secs, key).addr == addr_set,
            None => with_defaults(policy, addr, secs, key).addr == (ListenAddr::V4 {
                ip: (127 * 0x100_0000 + 1) as u32,
                port: 8080,
            }),
        },
        match secs {
            Some(n) => with_defaults(policy, addr, secs, key).reload_secs == n,
            None => with_defaults(policy, addr, secs, key).reload_secs == 5,
        },
        with_defaults(policy, addr, secs, key).admin_key == key,
{
}

/// A configuration error in words names the variable, and gives the value in
/// quotes and what was said against it, where there are such.
pub proof fn law_config_error_names_the_variable(e: ConfigErrorView)
    ensures
        e matches ConfigErrorView::Unreadable { key, error } ==> e.message() == key + ": "@ + error,
        e matches ConfigErrorView::InvalidValue { key, value, error } ==> e.message() == key
            + ": invalid value "@ + text::quoted(value) + ": "@ + error,
        e is EmptyAdminKey ==> e.message() == "AGENTWARDEN_ADMIN_KEY"@
            + " is set but empty; unset it to disable /reload"@,
{
    reveal_strlit("AGENTWARDEN_ADMIN_KEY");
    reveal_strlit(" is set but empty; unset it to disable /reload");
    reveal_strlit("AGENTWARDEN_ADMIN_KEY is set but empty; unset it to disable /reload");
    assert("AGENTWARDEN_ADMIN_KEY"@ + " is set but empty; unset it to disable /reload"@
        =~= "AGENTWARDEN_ADMIN_KEY is set but empty; unset it to disable /reload"@);
}

/// The model of an environment holds each variable in its place, as unset, as
/// its text, or as unreadable.
pub proof fn law_model_of_an_environment(env: Environment, var: EnvVar)
    ensures
        env@.policy == env.policy@,
        env@.addr == env.addr@,
        env@.reload_secs == env.reload_secs@,
        env@.admin_key == env.admin_key@,
        match var {
            EnvVar::Unset => var@ is Unset,
            EnvVar::Text(s) => var@ == EnvVarView::Text(s@),
            EnvVar::Unreadable(s) => var@ == EnvVarView::Unreadable(s@),
        },
{
}

/// The model of a configuration holds each setting in its place, and that of
/// an error is of the same kind with the same texts.
pub proof fn law_model_of_a_config(config: Config, e: ConfigError)
    ensures
        config@.policy_path == config.policy_path@,
        config@.addr == config.addr,
        config@.reload_secs == config.reload_secs,
        match config.admin_key {
            Some(key) => config@.admin_key == Some(key@),
            None => config@.admin_key is None,
        },
        match e {
            ConfigError::Unreadable { key, error } => e@ == (ConfigErrorView::Unreadable {
                key: key@,
                error: error@,
            }),
            ConfigError::InvalidValue { key, value, error } => e@ == (
            ConfigErrorView::InvalidValue { key: key@, value: value@, error: error@ }),
            ConfigError::EmptyAdminKey => e@ is EmptyAdminKey,
        },
{
}

/// A malformed or unreadable value is an error, never a silent fallback: a
/// configuration holds each value that is set, and the default of each that is
/// not.
pub proof fn law_no_silent_fallback(
    env: EnvironmentView,
    addr: Result<ListenAddr, Seq<char>>,
    config: ConfigView,
)
    requires
        env.configured(addr) == Ok::<ConfigView, ConfigErrorView>(config),
    ensures
        match env.policy {
            EnvVarView::Unset => config.policy_path == "policy.toml"@,
            EnvVarView::Text(s) => config.policy_path == s,
            EnvVarView::Unreadable(_) => false,
        },
        match env.addr {
            EnvVarView::Unset => config.addr == (ListenAddr::V4 {
                ip: (127 * 0x100_0000 + 1) as u32,
                port: 8080,
            }),
            EnvVarView::Text(_) => addr == Ok::<ListenAddr, Seq<char>>(config.addr),
            EnvVarView::Unreadable(_) => false,
        },
        match env.reload_secs {
            EnvVarView::Unset => config.reload_secs == 5,
            EnvVarView::Text(s) => text::parsed_u64(s) == Ok::<u64, Seq<char>>(config.reload_secs),
            EnvVarView::Unreadable(_) => false,
        },
        match env.admin_key {
            EnvVarView::Unset => config.admin_key is None,
            EnvVarView::Text(s) => config.admin_key == Some(s) && !text::is_blank(s),
            EnvVarView::Unreadable(_) => false,
        },
{
    if let EnvVarView::Text(s) = env.admin_key {
        text::lemma_trimmed_empty(s);
    }
}

} // verus!
