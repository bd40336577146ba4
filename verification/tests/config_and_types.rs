use webhooks_receiver::config::{
    is_valid_database_name, parse_env_or, Config, ConfigError, Environment,
};
use webhooks_receiver::string_map::StringMap;
use webhooks_receiver::types::{millis_from_reading, now_ms, EndpointInfo};

fn empty_env() -> Environment {
    Environment {
        convex_site_url: None,
        capture_shared_secret: None,
        redis_host: None,
        redis_port: None,
        redis_password: None,
        redis_db: None,
        port: None,
        sentry_dsn: None,
        receiver_debug: None,
        flush_workers: None,
        batch_max_size: None,
        flush_interval_ms: None,
        endpoint_cache_ttl_secs: None,
        quota_cache_ttl_secs: None,
        clickhouse_host: None,
        clickhouse_port: None,
        clickhouse_scheme: None,
        clickhouse_user: None,
        clickhouse_password: None,
        clickhouse_database: None,
    }
}

fn minimal_env() -> Environment {
    let mut env = empty_env();
    env.convex_site_url = Some("https://cp.example".to_string());
    env.capture_shared_secret = Some("s3cret".to_string());
    env
}

fn config(env: &Environment) -> Config {
    match Config::from_env(env) {
        Ok(c) => c,
        Err(e) => panic!("unexpected {:?}", e),
    }
}

fn error(env: &Environment) -> ConfigError {
    match Config::from_env(env) {
        Ok(_) => panic!("a configuration was made"),
        Err(e) => e,
    }
}

#[test]
fn defaults_apply_where_nothing_is_set() {
    let c = config(&minimal_env());
    assert_eq!(c.convex_site_url, "https://cp.example");
    assert_eq!(c.capture_shared_secret, "s3cret");
    assert_eq!(c.redis_host, "127.0.0.1");
    assert_eq!(c.redis_port, 6380);
    assert_eq!(c.redis_password, None);
    assert_eq!(c.redis_db, 0);
    assert_eq!(c.port, 3001);
    assert_eq!(c.sentry_dsn, None);
    assert!(!c.debug);
    assert_eq!(c.flush_workers, 4);
    assert_eq!(c.batch_max_size, 50);
    assert_eq!(c.flush_interval_ms, 100);
    assert_eq!(c.endpoint_cache_ttl_secs, 300);
    assert_eq!(c.quota_cache_ttl_secs, 300);
    assert_eq!(c.clickhouse_url, None);
    assert_eq!(c.clickhouse_user, "default");
    assert_eq!(c.clickhouse_password, "");
    assert_eq!(c.clickhouse_database, "webhooks");
}

#[test]
fn values_are_taken_where_they_are_set() {
    let mut env = minimal_env();
    env.redis_host = Some("kv".to_string());
    env.redis_port = Some("6379".to_string());
    env.redis_password = Some("pw".to_string());
    env.redis_db = Some("3".to_string());
    env.port = Some("+8080".to_string());
    env.sentry_dsn = Some("https://dsn".to_string());
    env.receiver_debug = Some("1".to_string());
    env.flush_workers = Some("8".to_string());
    env.batch_max_size = Some("100".to_string());
    env.flush_interval_ms = Some("250".to_string());
    env.endpoint_cache_ttl_secs = Some("60".to_string());
    env.quota_cache_ttl_secs = Some("30".to_string());
    env.clickhouse_host = Some("ch".to_string());
    env.clickhouse_port = Some("9000".to_string());
    env.clickhouse_scheme = Some("https".to_string());
    env.clickhouse_user = Some("writer".to_string());
    env.clickhouse_password = Some("chpw".to_string());
    env.clickhouse_database = Some("hooks_2".to_string());
    let c = config(&env);
    assert_eq!(c.redis_host, "kv");
    assert_eq!(c.redis_port, 6379);
    assert_eq!(c.redis_password.as_deref(), Some("pw"));
    assert_eq!(c.redis_db, 3);
    assert_eq!(c.port, 8080);
    assert_eq!(c.sentry_dsn.as_deref(), Some("https://dsn"));
    assert!(c.debug);
    assert_eq!(c.flush_workers, 8);
    assert_eq!(c.batch_max_size, 100);
    assert_eq!(c.flush_interval_ms, 250);
    assert_eq!(c.endpoint_cache_ttl_secs, 60);
    assert_eq!(c.quota_cache_ttl_secs, 30);
    assert_eq!(c.clickhouse_url.as_deref(), Some("https://ch:9000"));
    assert_eq!(c.clickhouse_user, "writer");
    assert_eq!(c.clickhouse_password, "chpw");
    assert_eq!(c.clickhouse_database, "hooks_2");
}

#[test]
fn empty_values_count_as_unset_where_the_interface_says_so() {
    let mut env = minimal_env();
    env.redis_password = Some(String::new());
    env.sentry_dsn = Some(String::new());
    env.receiver_debug = Some(String::new());
    env.clickhouse_host = Some(String::new());
    env.redis_host = Some(String::new());
    let c = config(&env);
    assert_eq!(c.redis_password, None);
    assert_eq!(c.sentry_dsn, None);
    assert!(!c.debug);
    assert_eq!(c.clickhouse_url, None);
    assert_eq!(c.redis_host, "");
    env.clickhouse_host = Some("ch".to_string());
    assert_eq!(config(&env).clickhouse_url.as_deref(), Some("http://ch:8123"));
}

#[test]
fn numbers_that_do_not_parse_fall_back_to_the_default() {
    assert_eq!(parse_env_or(&None, 7, 100), 7);
    assert_eq!(parse_env_or(&Some("42".to_string()), 7, 100), 42);
    assert_eq!(parse_env_or(&Some("+42".to_string()), 7, 100), 42);
    assert_eq!(parse_env_or(&Some("0042".to_string()), 7, 100), 42);
    assert_eq!(parse_env_or(&Some("100".to_string()), 7, 100), 100);
    assert_eq!(parse_env_or(&Some("101".to_string()), 7, 100), 7);
    assert_eq!(parse_env_or(&Some("-1".to_string()), 7, 100), 7);
    assert_eq!(parse_env_or(&Some("".to_string()), 7, 100), 7);
    assert_eq!(parse_env_or(&Some("+".to_string()), 7, 100), 7);
    assert_eq!(parse_env_or(&Some(" 1".to_string()), 7, 100), 7);
    assert_eq!(parse_env_or(&Some("1x".to_string()), 7, 100), 7);
    assert_eq!(parse_env_or(&Some("18446744073709551615".to_string()), 7, u64::MAX), u64::MAX);
    assert_eq!(parse_env_or(&Some("18446744073709551616".to_string()), 7, u64::MAX), 7);
    let mut env = minimal_env();
    env.redis_port = Some("65536".to_string());
    env.redis_db = Some("256".to_string());
    let c = config(&env);
    assert_eq!(c.redis_port, 6380);
    assert_eq!(c.redis_db, 0);
}

#[test]
fn each_boot_check_has_its_error() {
    assert_eq!(error(&empty_env()), ConfigError::MissingConvexSiteUrl);
    let mut env = empty_env();
    env.convex_site_url = Some("x".to_string());
    assert_eq!(error(&env), ConfigError::MissingCaptureSharedSecret);
    let mut env = minimal_env();
    env.clickhouse_database = Some("web-hooks".to_string());
    assert_eq!(error(&env), ConfigError::InvalidDatabaseName);
    env.clickhouse_database = Some(String::new());
    assert_eq!(error(&env), ConfigError::InvalidDatabaseName);
    env.clickhouse_database = Some("a`; DROP".to_string());
    assert_eq!(error(&env), ConfigError::InvalidDatabaseName);
    let mut env = minimal_env();
    env.flush_workers = Some("0".to_string());
    assert_eq!(error(&env), ConfigError::NoFlushWorkers);
    let mut env = minimal_env();
    env.batch_max_size = Some("0".to_string());
    assert_eq!(error(&env), ConfigError::NoBatchSize);
}

#[test]
fn database_names_are_letters_digits_and_underscores() {
    assert!(is_valid_database_name("webhooks"));
    assert!(is_valid_database_name("Web_Hooks_2"));
    assert!(is_valid_database_name("_"));
    assert!(!is_valid_database_name(""));
    assert!(!is_valid_database_name("web hooks"));
    assert!(!is_valid_database_name("web`hooks"));
    assert!(!is_valid_database_name("caf\u{e9}"));
}

#[test]
fn store_address_percent_encodes_the_password() {
    let mut env = minimal_env();
    assert_eq!(config(&env).redis_url(), "redis://127.0.0.1:6380/0");
    env.redis_password = Some("p@ss w/ord\u{e9}_Az09".to_string());
    env.redis_host = Some("kv".to_string());
    env.redis_db = Some("2".to_string());
    assert_eq!(
        config(&env).redis_url(),
        "redis://:p%40ss%20w%2Ford%C3%A9%5FAz09@kv:6380/2"
    );
}

#[test]
fn redacted_copy_hides_the_secrets() {
    let mut env = minimal_env();
    env.redis_password = Some("pw".to_string());
    env.clickhouse_password = Some("chpw".to_string());
    env.sentry_dsn = Some("https://dsn".to_string());
    let c = config(&env).redacted();
    assert_eq!(c.capture_shared_secret, "[REDACTED]");
    assert_eq!(c.redis_password.as_deref(), Some("[REDACTED]"));
    assert_eq!(c.clickhouse_password, "[REDACTED]");
    assert_eq!(c.sentry_dsn, None);
    assert_eq!(c.convex_site_url, "https://cp.example");
    assert_eq!(config(&minimal_env()).redacted().redis_password, None);
}

#[test]
fn clock_reading_becomes_milliseconds() {
    assert_eq!(millis_from_reading(0, 0), 0);
    assert_eq!(millis_from_reading(1, 1), 1001);
    assert_eq!(millis_from_reading(1_700_000_000, 999), 1_700_000_000_999);
    assert_eq!(millis_from_reading(i64::MAX as u64 / 1000, 807), i64::MAX);
    assert_eq!(millis_from_reading(i64::MAX as u64 / 1000, 808), i64::MAX);
    assert_eq!(millis_from_reading(i64::MAX as u64, 0), i64::MAX);
    assert_eq!(millis_from_reading(u64::MAX, 5), -995);
    assert_eq!(millis_from_reading(1u64 << 63, 5), i64::MIN + 5);
}

#[test]
fn clock_is_after_2020() {
    let now = now_ms();
    assert!(now > 1_577_836_800_000);
}

#[test]
fn endpoint_expires_strictly_after_its_time() {
    let mut info = EndpointInfo {
        endpoint_id: "e".to_string(),
        user_id: None,
        is_ephemeral: true,
        expires_at: Some(1000),
        mock_response: None,
        error: String::new(),
    };
    assert!(!info.is_expired_at(999));
    assert!(!info.is_expired_at(1000));
    assert!(info.is_expired_at(1001));
    assert!(info.is_expired());
    info.expires_at = Some(i64::MAX);
    assert!(!info.is_expired());
    info.expires_at = None;
    assert!(!info.is_expired_at(i64::MAX));
    assert!(!info.is_expired());
}

#[test]
fn map_keeps_the_place_of_a_key_and_its_last_value() {
    let mut m = StringMap::new();
    assert_eq!(m.len(), 0);
    m.insert("a".to_string(), "1".to_string());
    m.insert("b".to_string(), "2".to_string());
    m.insert("a".to_string(), "3".to_string());
    assert_eq!(m.len(), 2);
    assert_eq!(m.get("a"), Some("3"));
    assert_eq!(m.get("b"), Some("2"));
    assert_eq!(m.get("c"), None);
    assert_eq!(m.key_at(0), "a");
    assert_eq!(m.value_at(1), "2");
    let copy = m.clone();
    assert_eq!(copy.entries(), m.entries());
    let rebuilt = StringMap::from_pairs(&vec![
        ("x".to_string(), "1".to_string()),
        ("y".to_string(), "2".to_string()),
        ("x".to_string(), "3".to_string()),
    ]);
    assert_eq!(
        rebuilt.entries(),
        &vec![("x".to_string(), "3".to_string()), ("y".to_string(), "2".to_string())]
    );
}
