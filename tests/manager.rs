use tidb_pool::manager::{remaining, Conn, Grant, Pool, Released};
use tidb_pool::pool::{PoolError, PoolPlan, PoolSettings, Startup};
use tidb_pool::{PoolOptions, TiDBConfig};

fn settings(max: u32, min: u32) -> PoolSettings {
    PoolSettings {
        max_connections: max,
        min_connections: min,
        acquire_timeout: 30,
        idle_timeout: 300,
        max_lifetime: 1800,
        startup: Startup::Lazy,
        statement_cache_capacity: 100,
    }
}

fn conn(id: u64, at: u64) -> Conn {
    Conn { id, created_at: at, last_used_at: at }
}

fn plan(lazy: bool) -> PoolPlan {
    PoolPlan::from_config(&TiDBConfig {
        host: "10.0.0.9".into(),
        port: Some(4001),
        username: "u".into(),
        password: "p".into(),
        database_name: "d".into(),
        pool_options: PoolOptions {
            max_connections: 4,
            min_connections: 2,
            acquire_timeout: 5,
            idle_timeout: 60,
            max_lifetime: 600,
            is_lazy: lazy,
            statement_cache_capacity: 100,
        },
        ssl_ca: None,
    })
}

#[test]
fn new_pool_clamps_min_and_is_empty() {
    let p = Pool::new(settings(2, 5));
    assert_eq!(p.settings().min_connections, 2);
    assert_eq!(p.live(), 0);
    assert_eq!(p.waiting(), 0);
}

#[test]
fn eager_start_failure_reports_endpoint() {
    let plan = plan(false);
    match Pool::start(&plan, vec![conn(1, 0)], true) {
        Err(PoolError::ConnectFailed { endpoint }) => assert_eq!(endpoint, "10.0.0.9:4001"),
        _ => panic!("expected ConnectFailed"),
    }
}

#[test]
fn eager_start_success_keeps_warm_connections_idle() {
    let plan = plan(false);
    let p = Pool::start(&plan, vec![conn(1, 0), conn(2, 0)], false).ok().unwrap();
    assert_eq!(p.live(), 2);
    assert_eq!(p.idle_count(), 2);
}

#[test]
fn lazy_start_has_no_live_connection() {
    let plan = plan(true);
    assert_eq!(plan.pool.warm_up_count(), 0);
    let p = Pool::start(&plan, Vec::new(), false).ok().unwrap();
    assert_eq!(p.live(), 0);
}

#[test]
fn release_then_acquire_reuses_connection() {
    let mut p = Pool::new(settings(2, 0));
    let (g, closed) = p.acquire(1, 0);
    assert_eq!(g, Grant::Open);
    assert!(closed.is_empty());
    let c = conn(7, 0);
    assert_eq!(p.release(c, true, 5), Released::Idle);
    assert_eq!(p.live(), 1);
    let (g, closed) = p.acquire(2, 10);
    assert_eq!(g, Grant::Reuse(Conn { id: 7, created_at: 0, last_used_at: 5 }));
    assert!(closed.is_empty());
    assert_eq!(p.live(), 1);
}

#[test]
fn waiters_are_served_first_come_first_served() {
    let mut p = Pool::new(settings(1, 0));
    assert_eq!(p.acquire(1, 0).0, Grant::Open);
    assert_eq!(p.acquire(2, 0).0, Grant::Wait(2));
    assert_eq!(p.acquire(3, 0).0, Grant::Wait(3));
    assert_eq!(p.waiting(), 2);
    let c = conn(1, 0);
    assert_eq!(p.release(c, true, 4), Released::Given(2, Conn { last_used_at: 4, ..c }));
    assert_eq!(p.release(c, false, 5), Released::ClosedOpenFor(3));
    assert_eq!(p.waiting(), 0);
    assert_eq!(p.live(), 1);
    assert_eq!(p.release(c, true, 6), Released::Idle);
}

#[test]
fn unhealthy_release_closes_connection() {
    let mut p = Pool::new(settings(3, 0));
    assert_eq!(p.acquire(1, 0).0, Grant::Open);
    assert_eq!(p.release(conn(1, 0), false, 1), Released::Closed);
    assert_eq!(p.live(), 0);
    assert_eq!(p.idle_count(), 0);
}

#[test]
fn outlived_connection_is_not_requeued() {
    let mut p = Pool::new(settings(3, 0));
    assert_eq!(p.acquire(1, 0).0, Grant::Open);
    assert_eq!(p.release(conn(1, 0), true, 1801), Released::Closed);
    assert_eq!(p.idle_count(), 0);
}

#[test]
fn acquire_skips_stale_idle_connections() {
    let mut p = Pool::new(settings(3, 0));
    assert_eq!(p.acquire(1, 0).0, Grant::Open);
    assert_eq!(p.acquire(2, 0).0, Grant::Open);
    assert_eq!(p.release(conn(1, 0), true, 0), Released::Idle);
    assert_eq!(p.release(conn(2, 0), true, 400), Released::Idle);
    // at 701 both have been idle longer than 300 s
    let (g, closed) = p.acquire(3, 701);
    assert_eq!(g, Grant::Open);
    assert_eq!(closed.len(), 2);
    assert_eq!(closed[0].id, 1);
    assert_eq!(closed[1].id, 2);
    assert_eq!(p.live(), 1);
}

#[test]
fn maintenance_reaps_idle_and_tops_up() {
    let mut p = Pool::new(settings(4, 2));
    assert_eq!(p.acquire(1, 0).0, Grant::Open);
    assert_eq!(p.acquire(2, 0).0, Grant::Open);
    assert_eq!(p.release(conn(1, 0), true, 0), Released::Idle);
    assert_eq!(p.release(conn(2, 0), true, 200), Released::Idle);
    let m = p.maintain(301);
    assert_eq!(m.closed.len(), 1);
    assert_eq!(m.closed[0].id, 1);
    assert_eq!(m.to_open, 1);
    assert_eq!(p.idle_count(), 1);
    assert_eq!(p.live(), 2);
    assert_eq!(p.offer(conn(3, 301)), None);
    assert_eq!(p.idle_count(), 2);
}

#[test]
fn maintenance_failed_open_frees_slot() {
    let mut p = Pool::new(settings(4, 1));
    let m = p.maintain(0);
    assert_eq!(m.to_open, 1);
    assert_eq!(p.close_slot(), None);
    assert_eq!(p.live(), 0);
}

#[test]
fn abandon_gives_timeout_and_leaves_queue() {
    let mut p = Pool::new(settings(1, 0));
    assert_eq!(p.acquire(1, 0).0, Grant::Open);
    assert_eq!(p.acquire(2, 0).0, Grant::Wait(2));
    assert_eq!(p.acquire(3, 0).0, Grant::Wait(3));
    assert!(matches!(p.abandon(2), PoolError::AcquireTimeout));
    assert_eq!(p.waiting(), 1);
    assert_eq!(p.live(), 1);
    assert_eq!(p.release(conn(1, 0), true, 1), Released::Given(3, Conn { id: 1, created_at: 0, last_used_at: 1 }));
}

#[test]
fn remaining_times_out_at_deadline() {
    assert_eq!(remaining(100, 103, 5).ok(), Some(2));
    assert!(matches!(remaining(100, 105, 5), Err(PoolError::AcquireTimeout)));
    assert!(matches!(remaining(100, 100, 0), Err(PoolError::AcquireTimeout)));
    assert_eq!(remaining(100, 90, 5).ok(), Some(5));
}

#[test]
fn two_slots_then_third_caller_blocks() {
    let mut p = Pool::new(settings(2, 1));
    assert_eq!(p.acquire(1, 0).0, Grant::Open);
    assert_eq!(p.live(), 1);
    assert_eq!(p.acquire(2, 0).0, Grant::Open);
    assert_eq!(p.live(), 2);
    assert_eq!(p.acquire(3, 0).0, Grant::Wait(3));
    let a = conn(1, 0);
    assert_eq!(p.release(a, true, 2), Released::Given(3, Conn { last_used_at: 2, ..a }));
    assert_eq!(p.live(), 2);
}
