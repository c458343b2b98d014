use room_invites::config::{connect, ConfigError, Endpoints};

#[test]
fn connect_takes_both_addresses() {
    assert_eq!(
        connect(Some("postgres://db".to_string()), Some("redis://cache".to_string())),
        Ok(Endpoints {
            database_url: "postgres://db".to_string(),
            redis_url: "redis://cache".to_string(),
        })
    );
}

#[test]
fn connect_misses_the_store_first() {
    assert_eq!(connect(None, None), Err(ConfigError::MissingDatabaseUrl));
    assert_eq!(connect(None, Some("redis://cache".to_string())), Err(ConfigError::MissingDatabaseUrl));
}

#[test]
fn connect_misses_the_cache() {
    assert_eq!(connect(Some("postgres://db".to_string()), None), Err(ConfigError::MissingRedisUrl));
}

#[test]
fn config_errors_say_what_is_missing() {
    assert_eq!(ConfigError::MissingDatabaseUrl.message(), "Missing DATABASE_URL");
    assert_eq!(ConfigError::MissingRedisUrl.message(), "Missing REDIS_URL");
}
