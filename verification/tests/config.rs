use agentwarden::config::{
    env_parsed, env_str, parse_admin_key, Config, ConfigError, EnvVar, Environment, ListenAddr,
};
use agentwarden::types::AdminKey;

fn env() -> Environment {
    Environment {
        policy: EnvVar::Unset,
        addr: EnvVar::Unset,
        reload_secs: EnvVar::Unset,
        admin_key: EnvVar::Unset,
    }
}

fn text(s: &str) -> EnvVar {
    EnvVar::Text(s.to_owned())
}

fn parse_addr(s: &str) -> Result<ListenAddr, String> {
    match s.parse::<u16>() {
        Ok(port) => Ok(ListenAddr::V4 { ip: 1, port }),
        Err(_) => Err("no address".to_owned()),
    }
}

fn configure(env: Environment) -> Result<Config, String> {
    Config::from_env(env, parse_addr).map_err(|e| e.message())
}

#[test]
fn empty_admin_key_is_rejected() {
    assert!(parse_admin_key(Some(String::new())).is_err());
    assert!(parse_admin_key(Some("   ".to_owned())).is_err());
}

#[test]
fn unset_admin_key_disables_auth() {
    assert!(matches!(parse_admin_key(None), Ok(None)));
}

#[test]
fn a_real_admin_key_is_accepted() {
    assert!(matches!(
        parse_admin_key(Some("s3cret".to_owned())),
        Ok(Some(_))
    ));
}

#[test]
fn an_admin_key_is_kept_as_it_stands() {
    let key = parse_admin_key(Some(" s3cret ".to_owned())).unwrap_or_else(|e| panic!("{}", e.message()));
    assert_eq!(key.map(|k: AdminKey| k.expose().to_owned()), Some(" s3cret ".to_owned()));
}

#[test]
fn what_is_unset_has_a_default() {
    let config = configure(env()).expect("an empty environment is fine");
    assert_eq!(config.policy_path, "policy.toml");
    assert_eq!(config.addr, ListenAddr::V4 { ip: 0x7f00_0001, port: 8080 });
    assert_eq!(config.reload_secs, 5);
    assert!(config.admin_key.is_none());
}

#[test]
fn what_is_set_is_taken() {
    let config = configure(Environment {
        policy: text("/etc/gate.toml"),
        addr: text("9000"),
        reload_secs: text("+0042"),
        admin_key: text("k"),
    })
    .expect("all values are fine");
    assert_eq!(config.policy_path, "/etc/gate.toml");
    assert_eq!(config.addr, ListenAddr::V4 { ip: 1, port: 9000 });
    assert_eq!(config.reload_secs, 42);
    assert_eq!(config.admin_key.expect("a key").expose(), "k");
}

#[test]
fn a_malformed_value_is_an_error_and_no_fallback() {
    for bad in ["", "x", "-1", "5s", " 5", "1_000", "18446744073709551616", "+"] {
        let r = configure(Environment { reload_secs: text(bad), ..env() });
        let message = r.err().expect("no number");
        assert!(message.starts_with("AGENTWARDEN_RELOAD_SECS: invalid value "), "{message}");
    }
    let largest = configure(Environment { reload_secs: text("18446744073709551615"), ..env() });
    assert_eq!(largest.expect("fits").reload_secs, u64::MAX);

    let r = configure(Environment { addr: text("here"), ..env() });
    assert_eq!(
        r.err(),
        Some("AGENTWARDEN_ADDR: invalid value \"here\": no address".to_owned())
    );
}

#[test]
fn an_unreadable_value_is_an_error() {
    let unreadable = || EnvVar::Unreadable("not unicode".to_owned());
    let r = configure(Environment { policy: unreadable(), ..env() });
    assert_eq!(r.err(), Some("AGENTWARDEN_POLICY: not unicode".to_owned()));
    let r = configure(Environment { addr: unreadable(), ..env() });
    assert_eq!(r.err(), Some("AGENTWARDEN_ADDR: not unicode".to_owned()));
    let r = configure(Environment { reload_secs: unreadable(), ..env() });
    assert_eq!(r.err(), Some("AGENTWARDEN_RELOAD_SECS: not unicode".to_owned()));
    let r = configure(Environment { admin_key: unreadable(), ..env() });
    assert_eq!(r.err(), Some("AGENTWARDEN_ADMIN_KEY: not unicode".to_owned()));
}

#[test]
fn the_first_bad_variable_is_reported() {
    let r = configure(Environment {
        policy: text("p"),
        addr: text("8080"),
        reload_secs: text("soon"),
        admin_key: text(""),
    });
    assert!(r.err().expect("bad").starts_with("AGENTWARDEN_RELOAD_SECS"));
    let r = configure(Environment { admin_key: text("\t"), ..env() });
    assert_eq!(
        r.err(),
        Some("AGENTWARDEN_ADMIN_KEY is set but empty; unset it to disable /reload".to_owned())
    );
}

#[test]
fn env_str_tells_unset_from_unreadable() {
    assert!(matches!(env_str("K", EnvVar::Unset), Ok(None)));
    assert!(matches!(env_str("K", text("v")), Ok(Some(v)) if v == "v"));
    match env_str("K", EnvVar::Unreadable("e".to_owned())) {
        Err(ConfigError::Unreadable { key, error }) => {
            assert_eq!((key.as_str(), error.as_str()), ("K", "e"))
        }
        other => panic!("expected an error, got {other:?}"),
    }
}

#[test]
fn env_parsed_hands_the_text_to_the_parser() {
    let r = env_parsed("K", text("  a b "), |s: &str| Ok::<usize, String>(s.len()));
    assert!(matches!(r, Ok(Some(6))));
    let r = env_parsed("K", EnvVar::Unset, |_: &str| Ok::<usize, String>(1));
    assert!(matches!(r, Ok(None)));
    match env_parsed("K", text("v\n"), |_: &str| Err::<usize, String>("why".to_owned())) {
        Err(e) => assert_eq!(e.message(), "K: invalid value \"v\\n\": why"),
        other => panic!("expected an error, got {other:?}"),
    }
}
