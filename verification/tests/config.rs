//! Configuration.

use rswebtwain::config::{
    apply_env_overrides, load_or_default, parse_port, write_template_if_missing, AgentConfig,
    ConfigError, ConfigFile, EnvOverrides, ServerSection, DEFAULT_PORT,
};
use rswebtwain::text::{has_char, split_text};

/// The configuration that a file of this text makes.
fn parse(text: &str) -> AgentConfig {
    let file: toml::Value = toml::from_str(text).expect("valid TOML should parse");
    ServerSection::configure(file.get("server").map(|server| ServerSection {
        port: server.get("port").map(|v| v.as_integer().unwrap() as u16),
        allow_localhost: server.get("allow_localhost").map(|v| v.as_bool().unwrap()),
        extra_origins: server.get("extra_origins").map(|v| {
            v.as_array().unwrap().iter().map(|o| o.as_str().unwrap().to_string()).collect()
        }),
        auth_token: server.get("auth_token").map(|v| v.as_str().unwrap().to_string()),
    }))
}

fn no_env() -> EnvOverrides {
    EnvOverrides { port: None, allowed_origins: None, auth_token: None }
}

#[test]
fn empty_input_yields_defaults() {
    let cfg = parse("");
    assert_eq!(cfg, AgentConfig::default());
    assert_eq!(cfg.server.port, DEFAULT_PORT);
    assert!(cfg.server.allow_localhost);
    assert!(cfg.server.extra_origins.is_empty());
}

#[test]
fn empty_server_section_yields_field_defaults() {
    let cfg = parse("[server]\n");
    assert_eq!(cfg, AgentConfig::default());
}

#[test]
fn explicit_fields_override_defaults() {
    let cfg = parse(
        r#"
            [server]
            port = 9000
            allow_localhost = false
            extra_origins = ["https://app.example.com"]
        "#,
    );
    assert_eq!(cfg.server.port, 9000);
    assert!(!cfg.server.allow_localhost);
    assert_eq!(cfg.server.extra_origins, vec!["https://app.example.com".to_string()]);
}

#[test]
fn partial_server_section_uses_defaults_for_missing_fields() {
    let cfg = parse(
        r#"
            [server]
            port = 9000
        "#,
    );
    assert_eq!(cfg.server.port, 9000);
    assert!(cfg.server.allow_localhost); // default
    assert!(cfg.server.extra_origins.is_empty()); // default
}

#[test]
fn first_run_writes_template_and_loads_defaults() {
    let template = write_template_if_missing(false);
    let template = template.expect("first call should have written the template");

    // Loading it returns the canonical defaults (every line is commented).
    let cfg = load_or_default(ConfigFile::Parsed(parse(&template))).expect("template must parse");
    assert_eq!(cfg, AgentConfig::default());

    // Second call is a no-op.
    assert!(
        write_template_if_missing(true).is_none(),
        "second call should not rewrite the template"
    );
}

#[test]
fn the_template_shows_the_defaults() {
    let template = write_template_if_missing(false).unwrap();
    let uncommented: Vec<String> = template
        .lines()
        .map(|line| match line.strip_prefix("# ") {
            Some(setting) if setting.contains(" = ") => setting.to_string(),
            _ => line.to_string(),
        })
        .collect();
    let cfg = parse(&uncommented.join("\n"));
    assert_eq!(cfg.server.port, DEFAULT_PORT);
    assert!(cfg.server.allow_localhost);
    assert_eq!(cfg.server.extra_origins, vec!["https://app.example.com".to_string()]);
    assert_eq!(cfg.server.auth_token, Some("change-me".to_string()));
}

#[test]
fn a_missing_file_is_no_error() {
    assert_eq!(load_or_default(ConfigFile::Missing).unwrap(), AgentConfig::default());
}

#[test]
fn files_that_cannot_be_used_are_reported() {
    let io = load_or_default(ConfigFile::Unreadable("denied".to_string())).unwrap_err();
    assert_eq!(io.message(), "config I/O error: denied");
    let parse_error = load_or_default(ConfigFile::Malformed("line 1".to_string())).unwrap_err();
    assert_eq!(parse_error.message(), "config parse error: line 1");
}

#[test]
fn origins_have_to_be_web_origins() {
    let mut cfg = AgentConfig::default();
    cfg.server.extra_origins = vec![
        "https://app.example.com".to_string(),
        "app.example.com".to_string(),
        "ftp://files.example.com".to_string(),
    ];
    match load_or_default(ConfigFile::Parsed(cfg)) {
        Err(ConfigError::Invalid(m)) => {
            assert_eq!(m, "extra_origins entry is not an http(s) origin: app.example.com")
        }
        other => panic!("unexpected {other:?}"),
    }
    let mut cfg = AgentConfig::default();
    cfg.server.extra_origins = vec!["ftp://files.example.com".to_string()];
    let e = load_or_default(ConfigFile::Parsed(cfg)).unwrap_err();
    assert_eq!(
        e.message(),
        "config invalid: extra_origins entry is not an http(s) origin: ftp://files.example.com"
    );
    let mut cfg = AgentConfig::default();
    cfg.server.extra_origins = vec!["http://intranet:8080".to_string()];
    assert!(load_or_default(ConfigFile::Parsed(cfg)).is_ok());
}

#[test]
fn origins_have_neither_path_nor_query() {
    let load = |origin: &str| {
        let mut cfg = AgentConfig::default();
        cfg.server.extra_origins = vec![origin.to_string()];
        load_or_default(ConfigFile::Parsed(cfg))
    };
    for origin in ["https://app.example.com", "https://app.example.com/", "http://[::1]:80"] {
        assert!(load(origin).is_ok(), "{origin}");
    }
    for origin in [
        "https://app.example.com/app",
        "https://app.example.com//",
        "https://app.example.com?a=1",
        "https://app.example.com/?",
        "https://app.example.com/#top",
    ] {
        match load(origin) {
            Err(ConfigError::Invalid(m)) => {
                assert_eq!(m, format!("extra_origins entry is not an http(s) origin: {origin}"))
            }
            other => panic!("unexpected {other:?}"),
        }
    }
}

#[test]
fn characters_are_looked_for() {
    assert!(has_char("a?b", '?'));
    assert!(has_char("\u{e9}", '\u{e9}'));
    assert!(!has_char("ab", '?') && !has_char("", '?'));
}

#[test]
fn the_template_sets_nothing() {
    let template = write_template_if_missing(false).unwrap();
    assert!(template.ends_with('\n'));
    for line in template.lines() {
        assert!(line.is_empty() || line.starts_with('#') || line == "[server]", "{line}");
    }
}

#[test]
fn without_environment_nothing_changes() {
    let mut cfg = parse("[server]\nport = 9000\nauth_token = \"t\"\n");
    let warnings = apply_env_overrides(&mut cfg, no_env());
    assert_eq!(cfg, parse("[server]\nport = 9000\nauth_token = \"t\"\n"));
    assert!(!warnings.port && !warnings.auth_token);
}

#[test]
fn the_environment_wins_over_the_file() {
    let mut cfg = parse("[server]\nport = 9000\n");
    let env = EnvOverrides {
        port: Some("9100".to_string()),
        allowed_origins: Some("https://a.example,https://b.example".to_string()),
        auth_token: Some("secret".to_string()),
    };
    let warnings = apply_env_overrides(&mut cfg, env);
    assert!(!warnings.port && !warnings.auth_token);
    assert_eq!(cfg.server.port, 9100);
    assert!(!cfg.server.allow_localhost);
    assert_eq!(
        cfg.server.extra_origins,
        vec!["https://a.example".to_string(), "https://b.example".to_string()]
    );
    assert_eq!(cfg.server.auth_token, Some("secret".to_string()));
}

#[test]
fn useless_overrides_warn_and_change_nothing() {
    let mut cfg = AgentConfig::default();
    let env = EnvOverrides {
        port: Some("eighty".to_string()),
        allowed_origins: None,
        auth_token: Some(String::new()),
    };
    let warnings = apply_env_overrides(&mut cfg, env);
    assert!(warnings.port && warnings.auth_token);
    assert_eq!(cfg, AgentConfig::default());
}

#[test]
fn ports_are_read_as_decimal() {
    assert_eq!(parse_port("47115"), Some(47115));
    assert_eq!(parse_port("+80"), Some(80));
    assert_eq!(parse_port("0"), Some(0));
    assert_eq!(parse_port("65535"), Some(65535));
    assert_eq!(parse_port("000001"), Some(1));
    for bad in ["", "+", "65536", "99999999999999999999", "-1", " 80", "8o", "++1"] {
        assert_eq!(parse_port(bad), None, "{bad}");
    }
    for port in [0u16, 7, 10, 99, 100, 47115, 65535] {
        assert_eq!(parse_port(&port.to_string()), Some(port));
    }
}

#[test]
fn lists_are_split_at_every_comma() {
    let parts = |text: &str| split_text(text, ',');
    assert_eq!(parts(""), vec![String::new()]);
    assert_eq!(parts("a,,b,"), vec!["a", "", "b", ""]);
    assert_eq!(parts("a,,b,").join(","), "a,,b,");
}
