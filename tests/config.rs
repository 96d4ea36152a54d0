use tuic_config::config::{evaluate, VERSION};
use tuic_config::token::hash_token;
use tuic_config::{Config, ConfigBuilder, ConfigError, ParseOutcome};

fn args(list: &[&str]) -> Vec<String> {
    list.iter().map(|s| s.to_string()).collect()
}

fn run(list: &[&str]) -> Result<Config, ConfigError> {
    let a = args(list);
    ConfigBuilder::new().parse(&a)
}

fn outcome(free: &[&str], version: bool, help: bool, port: &str, token: &str) -> ParseOutcome {
    ParseOutcome {
        free: args(free),
        version,
        help,
        port: port.to_string(),
        token: token.to_string(),
    }
}

#[test]
fn short_flags_give_config() {
    let c = run(&["tuic-server", "-p", "443", "-t", "mysecret"]).unwrap();
    assert_eq!(c.port, 443);
    assert_eq!(c.token, seahash::hash(b"mysecret"));
}

#[test]
fn long_flags_and_attached_values_give_config() {
    let c = run(&["prog", "--port=8080", "--token", "abc"]).unwrap();
    assert_eq!(c, Config { port: 8080, token: seahash::hash(b"abc") });
    let d = run(&["prog", "--token=abc", "-p8080"]).unwrap();
    assert_eq!(c, d);
}

#[test]
fn port_bounds() {
    assert_eq!(run(&["prog", "-p", "0", "-t", "x"]).unwrap().port, 0);
    assert_eq!(run(&["prog", "-p", "65535", "-t", "x"]).unwrap().port, 65535);
    assert_eq!(run(&["prog", "-p", "+80", "-t", "x"]).unwrap().port, 80);
    assert!(matches!(run(&["prog", "-p", "65536", "-t", "x"]), Err(ConfigError::ParsePort(_, _))));
    assert!(matches!(run(&["prog", "-p", "", "-t", "x"]), Err(ConfigError::ParsePort(_, _))));
    assert!(matches!(run(&["prog", "-p=-1", "-t", "x"]), Err(ConfigError::ParsePort(_, _))));
}

#[test]
fn token_is_repeatable() {
    let a = run(&["prog", "-p", "1", "-t", "same"]).unwrap();
    let b = run(&["other", "-t", "same", "-p", "2"]).unwrap();
    assert_eq!(a.token, b.token);
    let c = run(&["prog", "-p", "1", "-t", "different"]).unwrap();
    assert_ne!(a.token, c.token);
}

#[test]
fn token_hashes_the_secret_bytes() {
    assert_eq!(hash_token("mysecret"), seahash::hash("mysecret".as_bytes()));
    assert_eq!(hash_token(""), seahash::hash(b""));
    assert_ne!(hash_token("a"), hash_token("b"));
}

#[test]
fn missing_required_flag_is_parse_error() {
    match run(&["prog", "-t", "secret"]) {
        Err(ConfigError::Parse(getopts::Fail::OptionMissing(name), usage)) => {
            assert_eq!(name, "port");
            assert!(usage.starts_with("Usage: prog [options]"));
        }
        other => panic!("unexpected {:?}", other),
    }
    assert!(matches!(run(&["prog", "-p", "443"]), Err(ConfigError::Parse(_, _))));
    assert!(matches!(run(&["prog"]), Err(ConfigError::Parse(_, _))));
}

#[test]
fn malformed_flags_are_parse_errors() {
    assert!(matches!(
        run(&["prog", "-p", "443", "-t", "s", "--bogus"]),
        Err(ConfigError::Parse(getopts::Fail::UnrecognizedOption(_), _))
    ));
    assert!(matches!(
        run(&["prog", "-t", "s", "-p"]),
        Err(ConfigError::Parse(getopts::Fail::ArgumentMissing(_), _))
    ));
    assert!(matches!(
        run(&["prog", "-p", "1", "-t", "s", "--help=yes"]),
        Err(ConfigError::Parse(getopts::Fail::UnexpectedArgument(_), _))
    ));
}

#[test]
fn bad_port_is_parse_port_error() {
    for port in ["--port=99999", "--port=abc"] {
        match run(&["prog", port, "-t", "secret"]) {
            Err(ConfigError::ParsePort(_, usage)) => assert!(usage.contains("--port")),
            other => panic!("unexpected {:?}", other),
        }
    }
}

#[test]
fn free_argument_is_rejected() {
    match run(&["prog", "-p", "443", "-t", "secret", "extra"]) {
        Err(ConfigError::UnexpectedArgument(free, usage)) => {
            assert_eq!(free, "extra");
            assert!(usage.starts_with("Usage: prog [options]"));
        }
        other => panic!("unexpected {:?}", other),
    }
    match run(&["prog", "one", "-p", "443", "two", "-t", "secret", "three"]) {
        Err(ConfigError::UnexpectedArgument(free, _)) => assert_eq!(free, "one, two, three"),
        other => panic!("unexpected {:?}", other),
    }
}

#[test]
fn version_request_wins() {
    for flag in ["-v", "--version"] {
        match run(&["prog", "-p", "443", "-t", "secret", flag]) {
            Err(ConfigError::Version(v)) => assert_eq!(v, VERSION),
            other => panic!("unexpected {:?}", other),
        }
    }
    assert!(matches!(run(&["prog", "-p", "abc", "-t", "s", "-v", "-h"]), Err(ConfigError::Version(_))));
}

#[test]
fn help_request_wins_over_bad_port() {
    for flag in ["-h", "--help"] {
        match run(&["prog", "-p", "443", "-t", "secret", flag]) {
            Err(ConfigError::Help(usage)) => assert!(usage.starts_with("Usage: prog [options]")),
            other => panic!("unexpected {:?}", other),
        }
    }
    assert!(matches!(run(&["prog", "-p", "abc", "-t", "s", "-h"]), Err(ConfigError::Help(_))));
}

#[test]
fn help_alone_lacks_required_flags() {
    // The required options are checked before the switches are looked at.
    match run(&["tuic-server", "-h"]) {
        Err(ConfigError::Parse(_, usage)) => assert!(usage.starts_with("Usage: tuic-server [options]")),
        other => panic!("unexpected {:?}", other),
    }
}

#[test]
fn usage_names_every_option() {
    let b = ConfigBuilder::new();
    let u = b.get_usage();
    assert!(u.starts_with("Usage: tuic-server [options]"));
    for s in ["--port", "--token", "--version", "--help", "-p", "-t", "SERVER_PORT", "TOKEN"] {
        assert!(u.contains(s), "{}", s);
    }
}

#[test]
fn usage_follows_the_program_name() {
    let a = args(&["my-proxy", "-h", "-p", "1", "-t", "x"]);
    let mut b = ConfigBuilder::new();
    let r = b.parse(&a);
    assert!(matches!(r, Err(ConfigError::Help(_))));
    assert!(b.get_usage().starts_with("Usage: my-proxy [options]"));
}

#[test]
fn builder_can_be_reused() {
    let a = args(&["prog", "-p", "1", "-t", "x", "junk"]);
    let b = args(&["prog", "-p", "2", "-t", "y"]);
    let mut builder = ConfigBuilder::new();
    assert!(builder.parse(&a).is_err());
    assert_eq!(builder.parse(&b).unwrap(), Config { port: 2, token: seahash::hash(b"y") });
}

#[test]
fn evaluate_follows_the_order_of_checks() {
    let u = || "usage".to_string();
    match evaluate(outcome(&["a", "b"], true, true, "x", "t"), u()) {
        Err(ConfigError::UnexpectedArgument(f, usage)) => {
            assert_eq!(f, "a, b");
            assert_eq!(usage, "usage");
        }
        other => panic!("unexpected {:?}", other),
    }
    assert!(matches!(evaluate(outcome(&[], true, true, "x", "t"), u()), Err(ConfigError::Version(_))));
    match evaluate(outcome(&[], false, true, "x", "t"), u()) {
        Err(ConfigError::Help(usage)) => assert_eq!(usage, "usage"),
        other => panic!("unexpected {:?}", other),
    }
    match evaluate(outcome(&[], false, false, "x", "t"), u()) {
        Err(ConfigError::ParsePort(_, usage)) => assert_eq!(usage, "usage"),
        other => panic!("unexpected {:?}", other),
    }
    let c = evaluate(outcome(&[], false, false, "443", "mysecret"), u()).unwrap();
    assert_eq!(c, Config { port: 443, token: seahash::hash(b"mysecret") });
}

#[test]
fn usage_lists_each_option_with_its_description() {
    let u = ConfigBuilder::new().get_usage();
    for s in [
        "-p, --port SERVER_PORT",
        "-t, --token TOKEN",
        "-v, --version ",
        "-h, --help ",
        "Set the listening port(Required)",
        "Set the TUIC token for the authentication(Required)",
        "Print the version",
        "Print this help menu",
    ] {
        assert!(u.contains(s), "{}", s);
    }
    assert_eq!(u.matches("--").count(), 4);
}

#[test]
fn usage_is_fixed_by_the_program_name() {
    assert_eq!(ConfigBuilder::new().get_usage(), ConfigBuilder::new().get_usage());
    let a = args(&["prog", "-t", "x"]);
    let mut b = ConfigBuilder::new();
    match b.parse(&a) {
        Err(ConfigError::Parse(_, usage)) => assert_eq!(usage, b.get_usage()),
        other => panic!("unexpected {:?}", other),
    }
    let mut c = ConfigBuilder::new();
    let _ = c.parse(&args(&["prog", "-p", "9"]));
    assert_eq!(b.get_usage(), c.get_usage());
}

#[test]
fn carried_usage_matches_get_usage() {
    let cases = [
        args(&["srv", "-p", "1", "-t", "x", "free"]),
        args(&["srv", "-p", "x", "-t", "x"]),
        args(&["srv", "-p", "1", "-t", "x", "-h"]),
    ];
    for a in cases.iter() {
        let mut b = ConfigBuilder::new();
        let usage = match b.parse(a) {
            Err(ConfigError::UnexpectedArgument(_, u)) => u,
            Err(ConfigError::ParsePort(_, u)) => u,
            Err(ConfigError::Help(u)) => u,
            other => panic!("unexpected {:?}", other),
        };
        assert_eq!(usage, b.get_usage());
    }
}

#[test]
fn unknown_flag_is_parse_error_for_fresh_builders() {
    let a = args(&["prog", "-x", "-p", "1", "-t", "s"]);
    let r1 = ConfigBuilder::new().parse(&a);
    let r2 = ConfigBuilder::new().parse(&a);
    assert!(matches!(r1, Err(ConfigError::Parse(getopts::Fail::UnrecognizedOption(_), _))));
    assert_eq!(format!("{:?}", r1), format!("{:?}", r2));
}

#[test]
fn repeated_flag_is_parse_error() {
    assert!(matches!(
        run(&["prog", "-p", "1", "--port", "2", "-t", "s"]),
        Err(ConfigError::Parse(getopts::Fail::OptionDuplicated(_), _))
    ));
}
