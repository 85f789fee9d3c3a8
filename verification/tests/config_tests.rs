use wh2pg::config::{
    database_url, max_payload_size, pool_size, server_address, worker_count, ConfigError, DbEnv,
};

fn some(t: &str) -> Option<String> {
    Some(t.to_string())
}

fn full_env() -> DbEnv {
    DbEnv {
        database_url: None,
        host: some("db.local"),
        port: None,
        name: some("webhooks"),
        user: some("wh"),
        password: some("pw"),
        ssl_mode: None,
    }
}

#[test]
fn database_url_variable_takes_precedence() {
    let mut env = full_env();
    env.database_url = some("postgresql://other/db");
    env.host = None;
    assert_eq!(database_url(&env), Ok("postgresql://other/db".to_string()));
}

#[test]
fn database_url_composed_with_defaults() {
    assert_eq!(
        database_url(&full_env()),
        Ok("postgresql://wh:pw@db.local:5432/webhooks?sslmode=prefer".to_string())
    );
}

#[test]
fn database_url_composed_with_port_and_ssl_mode() {
    let mut env = full_env();
    env.port = some("6543");
    env.ssl_mode = some("require");
    assert_eq!(
        database_url(&env),
        Ok("postgresql://wh:pw@db.local:6543/webhooks?sslmode=require".to_string())
    );
}

#[test]
fn database_url_missing_variables_in_order() {
    let mut env = full_env();
    env.password = None;
    assert_eq!(database_url(&env), Err(ConfigError::DbPasswordMissing));
    env.user = None;
    assert_eq!(database_url(&env), Err(ConfigError::DbUserMissing));
    env.name = None;
    assert_eq!(database_url(&env), Err(ConfigError::DbNameMissing));
    env.host = None;
    assert_eq!(database_url(&env), Err(ConfigError::DbHostMissing));
}

#[test]
fn error_messages() {
    assert_eq!(ConfigError::DbHostMissing.message(), "DB_HOST must be set");
    assert_eq!(ConfigError::DbNameMissing.message(), "DB_NAME must be set");
    assert_eq!(ConfigError::DbUserMissing.message(), "DB_USER must be set");
    assert_eq!(ConfigError::DbPasswordMissing.message(), "DB_PASSWORD must be set");
    assert_eq!(ConfigError::PoolSizeInvalid.message(), "DB_POOL_SIZE must be a number");
    assert_eq!(ConfigError::WorkersInvalid.message(), "WORKERS must be a number");
}

#[test]
fn pool_size_default_and_values() {
    assert_eq!(pool_size(&None), Ok(10));
    assert_eq!(pool_size(&some("25")), Ok(25));
    assert_eq!(pool_size(&some("ten")), Err(ConfigError::PoolSizeInvalid));
    assert_eq!(pool_size(&some("4294967296")), Err(ConfigError::PoolSizeInvalid));
}

#[test]
fn server_address_defaults() {
    assert_eq!(server_address(&None, &None), "0.0.0.0:8080");
    assert_eq!(server_address(&some("127.0.0.1"), &some("9000")), "127.0.0.1:9000");
}

#[test]
fn worker_count_default_and_values() {
    assert_eq!(worker_count(&None), Ok(4));
    assert_eq!(worker_count(&some("16")), Ok(16));
    assert_eq!(worker_count(&some("-1")), Err(ConfigError::WorkersInvalid));
}

#[test]
fn max_payload_size_default_and_fallback() {
    assert_eq!(max_payload_size(&None), 20971520);
    assert_eq!(max_payload_size(&some("1024")), 1024);
    assert_eq!(max_payload_size(&some("lots")), 20971520);
}

#[test]
fn log_filter_default() {
    assert_eq!(wh2pg::config::log_filter(&None), "info");
    assert_eq!(wh2pg::config::log_filter(&some("debug,sqlx=warn")), "debug,sqlx=warn");
}
