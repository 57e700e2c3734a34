//! Settings for connecting to a TiDB server and for the pool of connections.
use vstd::prelude::*;
use vstd::string::StringExecFns;

verus! {

/// Port used when the configuration names none.
pub const DEFAULT_PORT: u16 = 4000;

/// The decimal digits of `n`, most significant first, without leading zeros.
pub open spec fn decimal(n: nat) -> Seq<char>
    decreases n,
{
    if n < 10 {
        seq![digit_char(n)]
    } else {
        decimal(n / 10).push(digit_char(n % 10))
    }
}

pub open spec fn digit_char(d: nat) -> char {
    if d == 0 { '0' } else if d == 1 { '1' } else if d == 2 { '2' } else if d == 3 { '3' }
    else if d == 4 { '4' } else if d == 5 { '5' } else if d == 6 { '6' } else if d == 7 { '7' }
    else if d == 8 { '8' } else { '9' }
}

/// The one-character string of the decimal digit `d`.
fn digit_str(d: u16) -> (r: &'static str)
    requires
        d < 10,
    ensures
        r@ == seq![digit_char(d as nat)],
{
    proof {
        reveal_strlit("0");
        reveal_strlit("1");
        reveal_strlit("2");
        reveal_strlit("3");
        reveal_strlit("4");
        reveal_strlit("5");
        reveal_strlit("6");
        reveal_strlit("7");
        reveal_strlit("8");
        reveal_strlit("9");
    }
    match d {
        0 => "0",
        1 => "1",
        2 => "2",
        3 => "3",
        4 => "4",
        5 => "5",
        6 => "6",
        7 => "7",
        8 => "8",
        _ => "9",
    }
}

/// Appends the decimal form of `n` to `s`.
fn append_decimal(s: &mut String, n: u16)
    ensures
        final(s)@ == old(s)@ + decimal(n as nat),
    decreases n,
{
    if n >= 10 {
        append_decimal(s, n / 10);
    }
    s.append(digit_str(n % 10));
    proof {
        if n >= 10 {
            assert(decimal(n as nat) == decimal((n / 10) as nat).push(digit_char((n % 10) as nat)));
        }
    }
}

} // verus!

verus! {

/// Default value for `PoolOptions::max_connections`.
pub fn default_max_connections() -> (r: u32)
    ensures
        r == 10,
{
    10
}

/// Default value for `PoolOptions::min_connections`.
pub fn default_min_connections() -> (r: u32)
    ensures
        r == 1,
{
    1
}

/// Default value for `PoolOptions::acquire_timeout`, in seconds.
pub fn default_acquire_timeout() -> (r: u64)
    ensures
        r == 30,
{
    30
}

/// Default value for `PoolOptions::idle_timeout`, in seconds.
pub fn default_idle_timeout() -> (r: u64)
    ensures
        r == 300,
{
    300
}

/// Default value for `PoolOptions::max_lifetime`, in seconds.
pub fn default_max_lifetime() -> (r: u64)
    ensures
        r == 1800,
{
    1800
}

/// Default value for `PoolOptions::is_lazy`.
pub fn default_is_lazy() -> (r: bool)
    ensures
        r,
{
    true
}

/// Default value for `PoolOptions::statement_cache_capacity`.
pub fn default_statement_cache_capacity() -> (r: usize)
    ensures
        r == 100,
{
    100
}

/// Connection pooling options.
///
/// `min_connections` may exceed `max_connections` here: the pool clamps it,
/// it does not reject it.  Durations are whole seconds.
#[derive(Clone, Debug)]
pub struct PoolOptions {
    /// Largest number of live connections.
    pub max_connections: u32,
    /// Number of live connections the pool tries to keep.
    pub min_connections: u32,
    /// Longest wait, in seconds, for `acquire`.
    pub acquire_timeout: u64,
    /// Seconds a connection may stay idle before it is closed.
    pub idle_timeout: u64,
    /// Seconds a connection may live before it is closed.
    pub max_lifetime: u64,
    /// Whether building the pool defers opening connections until first use.
    pub is_lazy: bool,
    /// Number of distinct prepared statements kept per connection.
    pub statement_cache_capacity: usize,
}

impl PoolOptions {
    /// The options every unset field falls back to.
    pub open spec fn spec_default() -> PoolOptions {
        PoolOptions {
            max_connections: 10,
            min_connections: 1,
            acquire_timeout: 30,
            idle_timeout: 300,
            max_lifetime: 1800,
            is_lazy: true,
            statement_cache_capacity: 100,
        }
    }
}

impl Default for PoolOptions {
    fn default() -> (r: PoolOptions)
        ensures
            r == PoolOptions::spec_default(),
    {
        PoolOptions {
            max_connections: default_max_connections(),
            min_connections: default_min_connections(),
            acquire_timeout: default_acquire_timeout(),
            idle_timeout: default_idle_timeout(),
            max_lifetime: default_max_lifetime(),
            is_lazy: default_is_lazy(),
            statement_cache_capacity: default_statement_cache_capacity(),
        }
    }
}

/// Settings for connecting to one TiDB server.
#[derive(Clone, Debug)]
pub struct TiDBConfig {
    /// Host name or IP address of the server.
    pub host: String,
    /// Port of the server; `DEFAULT_PORT` when `None`.
    pub port: Option<u16>,
    /// User name to authenticate as.
    pub username: String,
    /// Password for `username`.
    pub password: String,
    /// Database to connect to.
    pub database_name: String,
    /// Options of the connection pool.
    pub pool_options: PoolOptions,
    /// Path of a CA certificate; when set, connections verify the server
    /// against it, otherwise TLS is not used.
    pub ssl_ca: Option<String>,
}

/// The port a configuration connects to.
pub open spec fn port_or_default(port: Option<u16>) -> u16 {
    match port {
        Some(p) => p,
        None => DEFAULT_PORT,
    }
}

/// `host:port`, the port rendered in decimal.
pub open spec fn host_port(host: Seq<char>, port: Option<u16>) -> Seq<char> {
    host + seq![':'] + decimal(port_or_default(port) as nat)
}

impl TiDBConfig {
    /// The port connected to: the configured one, or `DEFAULT_PORT`.
    pub fn effective_port(&self) -> (r: u16)
        ensures
            r == port_or_default(self.port),
    {
        match self.port {
            Some(p) => p,
            None => DEFAULT_PORT,
        }
    }

    /// The server's address as `host:port`, for logging and diagnostics.
    pub fn get_host(&self) -> (r: String)
        ensures
            r@ == host_port(self.host@, self.port),
    {
        let mut s = self.host.clone();
        s.append(":");
        proof {
            reveal_strlit(":");
        }
        append_decimal(&mut s, self.effective_port());
        s
    }
}

/// The application's configuration.
#[derive(Clone, Debug)]
pub struct Config {
    /// Settings of the TiDB connection.
    pub tidb: TiDBConfig,
}

} // verus!
