//! Configuration and connection-pool lifecycle management for TiDB.
//!
//! `config` holds the declarative settings, `pool` turns them into the
//! effective settings handed to the database driver, and `manager` keeps the
//! pool's bookkeeping: which connections are idle, how many are leased, and
//! which callers wait for one.
pub mod config;
pub mod count;
pub mod id;
pub mod manager;
pub mod pool;

pub use config::{Config, PoolOptions, TiDBConfig};
pub use count::Count;
pub use id::ID;
