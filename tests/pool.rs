use tidb_pool::pool::{ConnectSettings, PoolError, PoolPlan, PoolSettings, SslMode, Startup};
use tidb_pool::{PoolOptions, TiDBConfig};

fn options(max: u32, min: u32, lazy: bool) -> PoolOptions {
    PoolOptions {
        max_connections: max,
        min_connections: min,
        acquire_timeout: 30,
        idle_timeout: 300,
        max_lifetime: 1800,
        is_lazy: lazy,
        statement_cache_capacity: 64,
    }
}

fn config(ssl_ca: Option<String>) -> TiDBConfig {
    TiDBConfig {
        host: "db.local".into(),
        port: None,
        username: "admin".into(),
        password: "secret".into(),
        database_name: "mydb".into(),
        pool_options: options(10, 2, false),
        ssl_ca,
    }
}

#[test]
fn settings_clamp_inverted_min() {
    let s = PoolSettings::from_options(&options(3, 8, true));
    assert_eq!(s.max_connections, 3);
    assert_eq!(s.min_connections, 3);
    let s = PoolSettings::from_options(&options(3, 2, true));
    assert_eq!(s.min_connections, 2);
}

#[test]
fn settings_carry_time_bounds_and_startup() {
    let s = PoolSettings::from_options(&options(10, 1, false));
    assert_eq!(s.acquire_timeout, 30);
    assert_eq!(s.idle_timeout, 300);
    assert_eq!(s.max_lifetime, 1800);
    assert_eq!(s.statement_cache_capacity, 64);
    assert_eq!(s.startup, Startup::Eager);
    assert_eq!(PoolSettings::from_options(&options(10, 1, true)).startup, Startup::Lazy);
}

#[test]
fn warm_up_count_is_min_only_when_eager() {
    assert_eq!(PoolSettings::from_options(&options(10, 4, false)).warm_up_count(), 4);
    assert_eq!(PoolSettings::from_options(&options(10, 4, true)).warm_up_count(), 0);
    assert_eq!(PoolSettings::from_options(&options(2, 4, false)).warm_up_count(), 2);
}

#[test]
fn connect_settings_without_ca_use_no_tls() {
    let c = ConnectSettings::from_config(&config(None));
    assert_eq!(c.host, "db.local");
    assert_eq!(c.port, 4000);
    assert_eq!(c.database, "mydb");
    assert_eq!(c.username, "admin");
    assert_eq!(c.password, "secret");
    assert_eq!(c.ssl_mode, SslMode::Disabled);
    assert_eq!(c.ssl_ca, None);
    assert_eq!(c.statement_cache_capacity, 64);
}

#[test]
fn connect_settings_with_ca_verify_it() {
    let c = ConnectSettings::from_config(&config(Some("/etc/ca.pem".into())));
    assert_eq!(c.ssl_mode, SslMode::VerifyCa);
    assert_eq!(c.ssl_ca, Some("/etc/ca.pem".to_string()));
}

#[test]
fn plan_names_endpoint_and_failure() {
    let plan = PoolPlan::from_config(&config(None));
    assert_eq!(plan.endpoint, "db.local:4000");
    assert_eq!(plan.pool.min_connections, 2);
    match plan.connect_failed() {
        PoolError::ConnectFailed { endpoint } => assert_eq!(endpoint, "db.local:4000"),
        other => panic!("unexpected {:?}", other),
    }
}
