use capsolver::config::{env_bool, parse_unsigned, trim, Config, EnvValues};
use std::time::Duration;

#[test]
fn test_timeouts_are_milliseconds() {
    let config = Config {
        solve_timeout_ms: 29_000,
        ..Config::from_env_values(&EnvValues::unset())
    };

    assert_eq!(config.solve_timeout_duration(), Duration::from_secs(29));
}

#[test]
fn test_capacity_math() {
    let mut env = EnvValues::unset();
    env.browser_pool_size = Some("2".to_string());
    env.tabs_per_process = Some("3".to_string());
    let config = Config::from_env_values(&env);
    assert_eq!(config.browser_pool_size * config.tabs_per_process, 6);
}

#[test]
fn defaults_apply_when_nothing_is_set() {
    let config = Config::from_env_values(&EnvValues::unset());
    assert_eq!(config.server_host, "0.0.0.0");
    assert_eq!(config.server_port, 8080);
    assert_eq!(config.log_level, "info");
    assert_eq!(config.chrome_path, "/usr/bin/google-chrome");
    assert_eq!(config.browser_pool_size, 4);
    assert_eq!(config.tabs_per_process, 5);
    assert!(config.headless);
    assert!(!config.disable_sandbox);
    assert_eq!(config.user_agent, None);
    assert_eq!(config.solve_timeout_ms, 120_000);
    assert_eq!(config.solve_timeout_duration(), Duration::from_secs(120));
    assert_eq!(config.load_timeout_ms, 30_000);
    assert_eq!(config.cdp_timeout_ms, 10_000);
    assert_eq!(config.startup_timeout_ms, 20_000);
    assert_eq!(config.request_timeout_ms, 60_000);
    assert_eq!(config.cdp_port_base, 9222);
    assert_eq!(config.load_timeout_duration(), Duration::from_secs(30));
    assert_eq!(config.cdp_timeout_duration(), Duration::from_secs(10));
    assert_eq!(config.startup_timeout(), Duration::from_secs(20));
    assert_eq!(config.request_timeout(), Duration::from_secs(60));
}

#[test]
fn alternative_variables_and_fallbacks() {
    let mut env = EnvValues::unset();
    env.port = Some("9000".to_string());
    env.chrome_bin = Some("/opt/chrome".to_string());
    let config = Config::from_env_values(&env);
    assert_eq!(config.server_port, 9000);
    assert_eq!(config.chrome_path, "/opt/chrome");

    env.server_port = Some("not a port".to_string());
    env.chrome_path = Some("/usr/local/chrome".to_string());
    let config = Config::from_env_values(&env);
    assert_eq!(config.server_port, 8080);
    assert_eq!(config.chrome_path, "/usr/local/chrome");

    env.server_port = Some("70000".to_string());
    assert_eq!(Config::from_env_values(&env).server_port, 8080);
}

#[test]
fn switches_read_like_the_deployment_expects() {
    assert!(env_bool(&Some(" TRUE ".to_string()), false));
    assert!(env_bool(&Some("yes".to_string()), false));
    assert!(env_bool(&Some("1".to_string()), false));
    assert!(env_bool(&Some("Yes\n".to_string()), false));
    assert!(!env_bool(&Some("0".to_string()), true));
    assert!(!env_bool(&Some("on".to_string()), true));
    assert!(!env_bool(&Some("".to_string()), true));
    assert!(env_bool(&None, true));
    assert!(!env_bool(&None, false));
}

#[test]
fn numbers_parse_like_str_parse() {
    assert_eq!(parse_unsigned("42", u64::MAX), Some(42));
    assert_eq!(parse_unsigned("+42", u64::MAX), Some(42));
    assert_eq!(parse_unsigned("+", u64::MAX), None);
    assert_eq!(parse_unsigned("", u64::MAX), None);
    assert_eq!(parse_unsigned("-1", u64::MAX), None);
    assert_eq!(parse_unsigned(" 1", u64::MAX), None);
    assert_eq!(parse_unsigned("65535", 65535), Some(65535));
    assert_eq!(parse_unsigned("65536", 65535), None);
    assert_eq!(parse_unsigned("18446744073709551615", u64::MAX), Some(u64::MAX));
    assert_eq!(parse_unsigned("18446744073709551616", u64::MAX), None);
    assert_eq!(parse_unsigned("007", u64::MAX), Some(7));
    for text in ["0", "12", "+9", "99999", "1x", "٣"] {
        assert_eq!(parse_unsigned(text, 65535), text.parse::<u16>().ok().map(u64::from));
    }
}

#[test]
fn trimming_removes_unicode_whitespace() {
    assert_eq!(trim("  a b \t\n"), "a b");
    assert_eq!(trim("\u{3000}x\u{a0}"), "x");
    assert_eq!(trim("   "), "");
    for text in [" x ", "\u{2028}y\u{85}", "z", ""] {
        assert_eq!(trim(text), text.trim());
    }
}

#[test]
fn timeouts_are_given_in_seconds() {
    let mut env = EnvValues::unset();
    env.solve_timeout = Some("120".to_string());
    env.load_timeout = Some("45".to_string());
    env.cdp_timeout = Some("x".to_string());
    env.request_timeout = Some("18446744073709552".to_string());
    let config = Config::from_env_values(&env);
    assert_eq!(config.solve_timeout_duration(), Duration::from_secs(120));
    assert_eq!(config.load_timeout_ms, 45_000);
    assert_eq!(config.cdp_timeout_ms, 10_000);
    assert_eq!(config.request_timeout_ms, 60_000);
}
