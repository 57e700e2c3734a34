//! The effective settings of a pool, computed from its configuration.
//!
//! Building a pool opens network connections, which the caller does with the
//! database driver; what it opens, and how, is decided here.
use vstd::prelude::*;
use crate::config::{host_port, port_or_default, PoolOptions, TiDBConfig};

verus! {

/// How connections are protected.
#[derive(Clone, Copy, Debug, PartialEq, Eq, Structural)]
pub enum SslMode {
    /// No TLS.
    Disabled,
    /// TLS, with the server's certificate checked against a CA.
    VerifyCa,
}

/// Errors of building a pool and of acquiring a connection from it.
#[derive(Clone, Debug)]
pub enum PoolError {
    /// A connection could not be established; carries the server's `host:port`.
    ConnectFailed { endpoint: String },
    /// No connection could be handed out before the deadline.
    AcquireTimeout,
    /// A connection failed its liveness check or was reported broken.
    ConnectionUnhealthy,
}

/// How a pool starts.
#[derive(Clone, Copy, Debug, PartialEq, Eq, Structural)]
pub enum Startup {
    /// Open no connection while building; open them on demand.
    Lazy,
    /// Open the minimum number of connections before the pool is returned.
    Eager,
}

/// Where and how each connection of the pool connects.
#[derive(Clone, Debug)]
pub struct ConnectSettings {
    pub host: String,
    pub port: u16,
    pub database: String,
    pub username: String,
    pub password: String,
    pub ssl_mode: SslMode,
    pub ssl_ca: Option<String>,
    pub statement_cache_capacity: usize,
}

/// The sizing and time bounds the pool runs with.
#[derive(Clone, Copy, Debug, PartialEq, Eq, Structural)]
pub struct PoolSettings {
    pub max_connections: u32,
    /// Never above `max_connections`.
    pub min_connections: u32,
    pub acquire_timeout: u64,
    pub idle_timeout: u64,
    pub max_lifetime: u64,
    pub startup: Startup,
    pub statement_cache_capacity: usize,
}

/// Everything needed to build a pool.
#[derive(Clone, Debug)]
pub struct PoolPlan {
    pub connect: ConnectSettings,
    pub pool: PoolSettings,
    /// The server's `host:port`, reported when a connection fails.
    pub endpoint: String,
}

/// `min_connections` as the pool uses it: clamped to `max_connections`.
pub open spec fn clamped_min(min: u32, max: u32) -> u32 {
    if min <= max { min } else { max }
}

pub open spec fn startup_of(is_lazy: bool) -> Startup {
    if is_lazy { Startup::Lazy } else { Startup::Eager }
}

/// The settings a pool runs with, for the given options.
pub open spec fn settings_of(o: PoolOptions) -> PoolSettings {
    PoolSettings {
        max_connections: o.max_connections,
        min_connections: clamped_min(o.min_connections, o.max_connections),
        acquire_timeout: o.acquire_timeout,
        idle_timeout: o.idle_timeout,
        max_lifetime: o.max_lifetime,
        startup: startup_of(o.is_lazy),
        statement_cache_capacity: o.statement_cache_capacity,
    }
}

fn clone_opt_string(s: &Option<String>) -> (r: Option<String>)
    ensures
        r == *s,
{
    match s {
        Some(v) => Some(v.clone()),
        None => None,
    }
}

impl PoolSettings {
    /// The effective settings for `o`; inverted bounds are clamped, not rejected.
    pub fn from_options(o: &PoolOptions) -> (r: PoolSettings)
        ensures
            r == settings_of(*o),
            r.min_connections <= r.max_connections,
    {
        let min = if o.min_connections <= o.max_connections {
            o.min_connections
        } else {
            o.max_connections
        };
        PoolSettings {
            max_connections: o.max_connections,
            min_connections: min,
            acquire_timeout: o.acquire_timeout,
            idle_timeout: o.idle_timeout,
            max_lifetime: o.max_lifetime,
            startup: if o.is_lazy { Startup::Lazy } else { Startup::Eager },
            statement_cache_capacity: o.statement_cache_capacity,
        }
    }

    /// Number of connections opened while building the pool.
    pub fn warm_up_count(&self) -> (r: u32)
        ensures
            r == (if self.startup == Startup::Eager { self.min_connections } else { 0 }),
    {
        match self.startup {
            Startup::Eager => self.min_connections,
            Startup::Lazy => 0,
        }
    }
}

impl ConnectSettings {
    /// Connection settings for `c`: the default port when none is set, and
    /// CA verification exactly when a CA certificate is configured.
    pub fn from_config(c: &TiDBConfig) -> (r: ConnectSettings)
        ensures
            r.host@ == c.host@,
            r.port == port_or_default(c.port),
            r.database@ == c.database_name@,
            r.username@ == c.username@,
            r.password@ == c.password@,
            r.ssl_mode == (if c.ssl_ca is Some { SslMode::VerifyCa } else { SslMode::Disabled }),
            r.ssl_ca == c.ssl_ca,
            r.statement_cache_capacity == c.pool_options.statement_cache_capacity,
    {
        let ssl_mode = match &c.ssl_ca {
            Some(_) => SslMode::VerifyCa,
            None => SslMode::Disabled,
        };
        ConnectSettings {
            host: c.host.clone(),
            port: c.effective_port(),
            database: c.database_name.clone(),
            username: c.username.clone(),
            password: c.password.clone(),
            ssl_mode,
            ssl_ca: clone_opt_string(&c.ssl_ca),
            statement_cache_capacity: c.pool_options.statement_cache_capacity,
        }
    }
}

impl PoolPlan {
    /// The plan for building a pool to the server of `c`.
    pub fn from_config(c: &TiDBConfig) -> (r: PoolPlan)
        ensures
            r.pool == settings_of(c.pool_options),
            r.connect.host@ == c.host@,
            r.connect.port == port_or_default(c.port),
            r.connect.database@ == c.database_name@,
            r.connect.username@ == c.username@,
            r.connect.password@ == c.password@,
            r.connect.ssl_mode == (if c.ssl_ca is Some { SslMode::VerifyCa } else { SslMode::Disabled }),
            r.connect.ssl_ca == c.ssl_ca,
            r.connect.statement_cache_capacity == c.pool_options.statement_cache_capacity,
            r.endpoint@ == host_port(c.host@, c.port),
    {
        PoolPlan {
            connect: ConnectSettings::from_config(c),
            pool: PoolSettings::from_options(&c.pool_options),
            endpoint: c.get_host(),
        }
    }

    /// The error reported when building the pool could not connect.
    pub fn connect_failed(&self) -> (r: PoolError)
        ensures
            r matches PoolError::ConnectFailed { endpoint } && endpoint@ == self.endpoint@,
    {
        PoolError::ConnectFailed { endpoint: self.endpoint.clone() }
    }
}

} // verus!
