//! Bookkeeping of a connection pool: the idle queue, the number of busy
//! slots, and the queue of callers waiting for a connection.
//!
//! Every decision of acquiring, releasing and maintenance is made here; the
//! caller performs what a decision asks for (open a connection, close one,
//! wake a waiter) and reports back.  A slot is busy while its connection is
//! leased to a caller or being opened.
use vstd::prelude::*;
use crate::config::PoolOptions;
use crate::pool::{clamped_min, settings_of, PoolError, PoolPlan, PoolSettings, Startup};

verus! {

/// One connection as the pool tracks it; times are seconds on one clock.
#[derive(Clone, Copy, Debug, PartialEq, Eq, Structural)]
pub struct Conn {
    pub id: u64,
    pub created_at: u64,
    pub last_used_at: u64,
}

/// The answer to an `acquire`.
#[derive(Clone, Copy, Debug, PartialEq, Eq, Structural)]
pub enum Grant {
    /// Lease this idle connection (after a liveness check; if that fails the
    /// caller may open a replacement in the same slot).
    Reuse(Conn),
    /// A slot is reserved for the caller: open a new connection.
    Open,
    /// The pool is exhausted: wait, as the given ticket, for a release.
    Wait(u64),
}

/// What became of a released connection.
#[derive(Clone, Copy, Debug, PartialEq, Eq, Structural)]
pub enum Released {
    /// It went back to the idle queue.
    Idle,
    /// It was handed, as given, to the waiter with this ticket.
    Given(u64, Conn),
    /// It is to be closed.
    Closed,
    /// It is to be closed, and the waiter with this ticket may open a new
    /// connection in its slot.
    ClosedOpenFor(u64),
}

/// What a maintenance pass decided.
#[derive(Debug)]
pub struct Maintenance {
    /// Idle connections to close.
    pub closed: Vec<Conn>,
    /// Slots reserved for new connections, to reach the minimum.
    pub to_open: u32,
}

/// The abstract state of a pool.
pub struct PoolModel {
    pub settings: PoolSettings,
    pub idle: Seq<Conn>,
    pub busy: nat,
    pub waiters: Seq<u64>,
}

impl PoolModel {
    /// Number of live connections: idle ones and busy slots.
    pub open spec fn live(self) -> nat {
        self.idle.len() + self.busy
    }

    pub open spec fn wf(self) -> bool {
        &&& self.settings.min_connections <= self.settings.max_connections
        &&& self.live() <= self.settings.max_connections
        &&& self.waiters.len() > 0 ==> self.idle.len() == 0 && self.live()
            == self.settings.max_connections
    }
}

/// `c` has lived longer than `max_lifetime` at `now`.
pub open spec fn outlived(c: Conn, now: u64, s: PoolSettings) -> bool {
    now - c.created_at > s.max_lifetime
}

/// `c` has been idle longer than `idle_timeout` at `now`.
pub open spec fn idled_out(c: Conn, now: u64, s: PoolSettings) -> bool {
    now - c.last_used_at > s.idle_timeout
}

pub open spec fn stale(c: Conn, now: u64, s: PoolSettings) -> bool {
    outlived(c, now, s) || idled_out(c, now, s)
}

/// Length of `idle` once the stale connections at its end are dropped.
pub open spec fn usable_len(idle: Seq<Conn>, now: u64, s: PoolSettings) -> nat
    decreases idle.len(),
{
    if idle.len() == 0 {
        0
    } else if !stale(idle.last(), now, s) {
        idle.len()
    } else {
        usable_len(idle.drop_last(), now, s)
    }
}

/// State, grant and closed connections after `acquire(ticket, now)`.
pub open spec fn spec_acquire(m: PoolModel, ticket: u64, now: u64) -> (PoolModel, Grant, Seq<Conn>) {
    if m.waiters.len() > 0 {
        (PoolModel { waiters: m.waiters.push(ticket), ..m }, Grant::Wait(ticket), seq![])
    } else {
        let k = usable_len(m.idle, now, m.settings);
        let closed = m.idle.subrange(k as int, m.idle.len() as int);
        if k > 0 {
            (
                PoolModel { idle: m.idle.take(k - 1), busy: m.busy + 1, ..m },
                Grant::Reuse(m.idle[k - 1]),
                closed,
            )
        } else if m.busy < m.settings.max_connections {
            (PoolModel { idle: seq![], busy: m.busy + 1, ..m }, Grant::Open, closed)
        } else {
            (PoolModel { idle: seq![], waiters: seq![ticket], ..m }, Grant::Wait(ticket), closed)
        }
    }
}

/// A new or released connection is offered: the first waiter gets it,
/// otherwise it goes idle and its slot is freed.
pub open spec fn spec_offer(m: PoolModel, c: Conn) -> (PoolModel, Option<u64>) {
    if m.waiters.len() > 0 {
        (PoolModel { waiters: m.waiters.drop_first(), ..m }, Some(m.waiters[0]))
    } else {
        (PoolModel { idle: m.idle.push(c), busy: (m.busy - 1) as nat, ..m }, None)
    }
}

/// A busy slot loses its connection: the first waiter may open one in it,
/// otherwise the slot is freed.
pub open spec fn spec_close_slot(m: PoolModel) -> (PoolModel, Option<u64>) {
    if m.waiters.len() > 0 {
        (PoolModel { waiters: m.waiters.drop_first(), ..m }, Some(m.waiters[0]))
    } else {
        (PoolModel { busy: (m.busy - 1) as nat, ..m }, None)
    }
}

/// State and outcome after `release(c, healthy, now)`.
pub open spec fn spec_release(m: PoolModel, c: Conn, healthy: bool, now: u64) -> (PoolModel, Released) {
    if !healthy || outlived(c, now, m.settings) {
        let (m2, w) = spec_close_slot(m);
        (m2, match w {
            Some(t) => Released::ClosedOpenFor(t),
            None => Released::Closed,
        })
    } else {
        let c2 = Conn { last_used_at: now, ..c };
        let (m2, w) = spec_offer(m, c2);
        (m2, match w {
            Some(t) => Released::Given(t, c2),
            None => Released::Idle,
        })
    }
}

pub open spec fn fresh_at(now: u64, s: PoolSettings) -> spec_fn(Conn) -> bool {
    |c: Conn| !stale(c, now, s)
}

pub open spec fn stale_at(now: u64, s: PoolSettings) -> spec_fn(Conn) -> bool {
    |c: Conn| stale(c, now, s)
}

/// State, closed connections and slots to open after a maintenance pass at
/// `now`: every stale idle connection is closed, and slots are reserved for
/// new connections until the pool holds `min_connections`.
pub open spec fn spec_maintain(m: PoolModel, now: u64) -> (PoolModel, Seq<Conn>, nat) {
    let kept = m.idle.filter(fresh_at(now, m.settings));
    let live = kept.len() + m.busy;
    let to_open: nat = if live < m.settings.min_connections {
        (m.settings.min_connections - live) as nat
    } else {
        0
    };
    (
        PoolModel { idle: kept, busy: m.busy + to_open, ..m },
        m.idle.filter(stale_at(now, m.settings)),
        to_open,
    )
}

proof fn lemma_usable_len(idle: Seq<Conn>, now: u64, s: PoolSettings)
    ensures
        usable_len(idle, now, s) <= idle.len(),
        usable_len(idle, now, s) > 0 ==> !stale(idle[usable_len(idle, now, s) - 1], now, s),
    decreases idle.len(),
{
    if idle.len() > 0 && stale(idle.last(), now, s) {
        lemma_usable_len(idle.drop_last(), now, s);
    }
}

/// Index of the first `t` in `s`, or -1.
pub open spec fn index_of(s: Seq<u64>, t: u64) -> int
    decreases s.len(),
{
    if s.len() == 0 {
        -1
    } else if s[0] == t {
        0
    } else {
        let r = index_of(s.drop_first(), t);
        if r < 0 { -1 } else { r + 1 }
    }
}

proof fn lemma_index_of(s: Seq<u64>, t: u64)
    ensures
        -1 <= index_of(s, t) < s.len(),
        index_of(s, t) >= 0 ==> s[index_of(s, t)] == t,
    decreases s.len(),
{
    if s.len() > 0 && s[0] != t {
        lemma_index_of(s.drop_first(), t);
    }
}

/// `s` without its first `t`.
pub open spec fn without(s: Seq<u64>, t: u64) -> Seq<u64> {
    if index_of(s, t) >= 0 { s.remove(index_of(s, t)) } else { s }
}

/// Time left of an acquire that started at `started` with `timeout`, at
/// `now`; a clock that went back counts as no time elapsed.
pub open spec fn time_left(started: u64, now: u64, timeout: u64) -> int {
    let elapsed: int = if now >= started { now - started } else { 0 };
    timeout - elapsed
}

/// Seconds left before an acquire that started at `started` times out, or
/// `AcquireTimeout` once `timeout` seconds have elapsed.
pub fn remaining(started: u64, now: u64, timeout: u64) -> (r: Result<u64, PoolError>)
    ensures
        time_left(started, now, timeout) > 0 ==> r == Ok::<u64, PoolError>(
            time_left(started, now, timeout) as u64,
        ),
        time_left(started, now, timeout) <= 0 ==> r matches Err(PoolError::AcquireTimeout),
{
    let elapsed: u64 = if now >= started { now - started } else { 0 };
    if elapsed < timeout {
        Ok(timeout - elapsed)
    } else {
        Err(PoolError::AcquireTimeout)
    }
}

/// `s` with `min_connections` clamped to `max_connections`.
pub open spec fn clamp_settings(s: PoolSettings) -> PoolSettings {
    PoolSettings { min_connections: clamped_min(s.min_connections, s.max_connections), ..s }
}

/// The pool right after it is built with the connections `opened`.
pub open spec fn spec_start(s: PoolSettings, opened: Seq<Conn>) -> PoolModel {
    PoolModel { settings: clamp_settings(s), idle: opened, busy: 0, waiters: seq![] }
}

/// The bookkeeping of one pool.
pub struct Pool {
    settings: PoolSettings,
    idle: Vec<Conn>,
    busy: u32,
    waiters: Vec<u64>,
}

impl View for Pool {
    type V = PoolModel;

    closed spec fn view(&self) -> PoolModel {
        PoolModel {
            settings: self.settings,
            idle: self.idle@,
            busy: self.busy as nat,
            waiters: self.waiters@,
        }
    }
}

fn is_stale(c: &Conn, now: u64, s: &PoolSettings) -> (r: bool)
    ensures
        r == stale(*c, now, *s),
{
    (now >= c.created_at && now - c.created_at > s.max_lifetime) || (now >= c.last_used_at && now
        - c.last_used_at > s.idle_timeout)
}

impl Pool {
    pub open spec fn wf(&self) -> bool {
        self@.wf()
    }

    /// An empty pool, as a lazy pool starts: no live connection.
    /// `min_connections` is clamped to `max_connections`.
    pub fn new(settings: PoolSettings) -> (r: Pool)
        ensures
            r.wf(),
            r@ == spec_start(settings, seq![]),
    {
        Pool::warmed(settings, Vec::new())
    }

    /// A pool holding the connections `opened` while it was built, all idle.
    pub fn warmed(settings: PoolSettings, opened: Vec<Conn>) -> (r: Pool)
        requires
            opened@.len() <= settings.max_connections,
        ensures
            r.wf(),
            r@ == spec_start(settings, opened@),
    {
        let min = if settings.min_connections <= settings.max_connections {
            settings.min_connections
        } else {
            settings.max_connections
        };
        let r = Pool {
            settings: PoolSettings { min_connections: min, ..settings },
            idle: opened,
            busy: 0,
            waiters: Vec::new(),
        };
        proof {
            assert(r@.waiters =~= seq![]);
        }
        r
    }

    /// Finishes building a pool for `plan`, once the warm-up connections are
    /// open (`plan.pool.warm_up_count()` of them; none for a lazy pool).
    /// When one of them could not be opened (`failed`), no pool is returned
    /// and the error names the server.
    pub fn start(plan: &PoolPlan, opened: Vec<Conn>, failed: bool) -> (r: Result<Pool, PoolError>)
        requires
            opened@.len() <= plan.pool.max_connections,
        ensures
            failed ==> (r matches Err(PoolError::ConnectFailed { endpoint }) && endpoint@
                == plan.endpoint@),
            !failed ==> (r matches Ok(p) && p.wf() && p@ == spec_start(plan.pool, opened@)),
    {
        if failed {
            Err(plan.connect_failed())
        } else {
            Ok(Pool::warmed(plan.pool, opened))
        }
    }

    /// Number of live connections.
    pub fn live(&self) -> (r: u32)
        requires
            self.wf(),
        ensures
            r == self@.live(),
    {
        self.idle.len() as u32 + self.busy
    }

    /// Asks for a connection on behalf of the caller holding `ticket`.
    ///
    /// When others already wait, the caller queues behind them.  Otherwise
    /// the stale connections at the end of the idle queue are closed and the
    /// most recently used fresh one is leased; with none, a new connection is
    /// opened if the pool is below `max_connections`, and the caller waits if
    /// it is not.
    pub fn acquire(&mut self, ticket: u64, now: u64) -> (r: (Grant, Vec<Conn>))
        requires
            old(self).wf(),
        ensures
            final(self).wf(),
            final(self)@ == spec_acquire(old(self)@, ticket, now).0,
            r.0 == spec_acquire(old(self)@, ticket, now).1,
            r.1@ == spec_acquire(old(self)@, ticket, now).2,
    {
        if self.waiters.len() > 0 {
            self.waiters.push(ticket);
            return (Grant::Wait(ticket), Vec::new());
        }
        let ghost s = self.settings;
        let ghost idle0 = self.idle@;
        let mut k: usize = self.idle.len();
        proof {
            assert(idle0.take(k as int) =~= idle0);
        }
        loop
            invariant
                self.idle@ == idle0,
                self.settings == s,
                k <= idle0.len(),
                usable_len(idle0.take(k as int), now, s) == usable_len(idle0, now, s),
            ensures
                k <= idle0.len(),
                usable_len(idle0.take(k as int), now, s) == usable_len(idle0, now, s),
                k == 0 || !stale(idle0[k - 1], now, s),
            decreases k,
        {
            if k == 0 {
                break;
            }
            if !is_stale(&self.idle[k - 1], now, &self.settings) {
                break;
            }
            proof {
                assert(idle0.take(k as int).drop_last() =~= idle0.take(k - 1));
            }
            k = k - 1;
        }
        proof {
            if k == 0 {
                assert(idle0.take(0).len() == 0);
            } else {
                assert(idle0.take(k as int).last() == idle0[k - 1]);
            }
        }
        let closed = self.idle.split_off(k);
        if k > 0 {
            let c = self.idle.pop().unwrap();
            self.busy = self.busy + 1;
            proof {
                assert(self.idle@ =~= idle0.take(k - 1));
            }
            (Grant::Reuse(c), closed)
        } else if self.busy < self.settings.max_connections {
            self.busy = self.busy + 1;
            proof {
                assert(self.idle@ =~= Seq::<Conn>::empty());
            }
            (Grant::Open, closed)
        } else {
            self.waiters.push(ticket);
            proof {
                assert(self.idle@ =~= Seq::<Conn>::empty());
                assert(self.waiters@ =~= seq![ticket]);
            }
            (Grant::Wait(ticket), closed)
        }
    }

    /// Hands `c`, a connection whose busy slot is done with it, to the first
    /// waiter, or puts it in the idle queue and frees the slot.
    /// Returns the ticket of the waiter served.
    pub fn offer(&mut self, c: Conn) -> (r: Option<u64>)
        requires
            old(self).wf(),
            old(self)@.busy > 0,
        ensures
            final(self).wf(),
            final(self)@ == spec_offer(old(self)@, c).0,
            r == spec_offer(old(self)@, c).1,
    {
        if self.waiters.len() > 0 {
            let t = self.waiters.remove(0);
            Some(t)
        } else {
            self.idle.push(c);
            self.busy = self.busy - 1;
            None
        }
    }

    /// A busy slot lost its connection (it was closed, or opening it failed):
    /// the first waiter may open a new one in the slot, otherwise the slot is
    /// freed.  Returns the ticket of the waiter served.
    pub fn close_slot(&mut self) -> (r: Option<u64>)
        requires
            old(self).wf(),
            old(self)@.busy > 0,
        ensures
            final(self).wf(),
            final(self)@ == spec_close_slot(old(self)@).0,
            r == spec_close_slot(old(self)@).1,
    {
        if self.waiters.len() > 0 {
            let t = self.waiters.remove(0);
            Some(t)
        } else {
            self.busy = self.busy - 1;
            None
        }
    }

    /// Returns a leased connection.  A broken one, or one older than
    /// `max_lifetime`, is closed; a healthy one is stamped as used at `now`
    /// and goes to the first waiter or back to the idle queue.
    pub fn release(&mut self, c: Conn, healthy: bool, now: u64) -> (r: Released)
        requires
            old(self).wf(),
            old(self)@.busy > 0,
        ensures
            final(self).wf(),
            final(self)@ == spec_release(old(self)@, c, healthy, now).0,
            r == spec_release(old(self)@, c, healthy, now).1,
    {
        let outlived = now >= c.created_at && now - c.created_at > self.settings.max_lifetime;
        if !healthy || outlived {
            match self.close_slot() {
                Some(t) => Released::ClosedOpenFor(t),
                None => Released::Closed,
            }
        } else {
            let c2 = Conn { last_used_at: now, ..c };
            match self.offer(c2) {
                Some(t) => Released::Given(t, c2),
                None => Released::Idle,
            }
        }
    }

    /// A maintenance pass at `now`: closes every idle connection that has
    /// been idle longer than `idle_timeout` or lived longer than
    /// `max_lifetime`, then reserves slots for new connections up to
    /// `min_connections`.  Each reserved slot is settled by `offer` once its
    /// connection is open, or by `close_slot` if opening fails.
    pub fn maintain(&mut self, now: u64) -> (r: Maintenance)
        requires
            old(self).wf(),
        ensures
            final(self).wf(),
            final(self)@ == spec_maintain(old(self)@, now).0,
            r.closed@ == spec_maintain(old(self)@, now).1,
            r.to_open == spec_maintain(old(self)@, now).2,
            forall|i: int|
                0 <= i < final(self)@.idle.len() ==> !stale(
                    #[trigger] final(self)@.idle[i],
                    now,
                    final(self)@.settings,
                ),
    {
        let ghost s = self.settings;
        let ghost idle0 = self.idle@;
        let mut kept: Vec<Conn> = Vec::new();
        let mut closed: Vec<Conn> = Vec::new();
        let mut i: usize = 0;
        while i < self.idle.len()
            invariant
                self.idle@ == idle0,
                self.settings == s,
                i <= idle0.len(),
                kept@ == idle0.take(i as int).filter(fresh_at(now, s)),
                closed@ == idle0.take(i as int).filter(stale_at(now, s)),
            decreases idle0.len() - i,
        {
            let c = self.idle[i];
            if is_stale(&c, now, &self.settings) {
                closed.push(c);
            } else {
                kept.push(c);
            }
            proof {
                assert(idle0.take(i + 1).drop_last() =~= idle0.take(i as int));
                assert(idle0.take(i + 1).last() == c);
                reveal(Seq::filter);
            }
            i = i + 1;
        }
        proof {
            assert(idle0.take(i as int) =~= idle0);
            idle0.lemma_filter_len(fresh_at(now, s));
            assert forall|j: int| 0 <= j < kept@.len() implies !stale(#[trigger] kept@[j], now, s) by {
                idle0.lemma_filter_pred(fresh_at(now, s), j);
            }
        }
        self.idle = kept;
        let live = self.idle.len() as u32 + self.busy;
        let to_open = if live < self.settings.min_connections {
            self.settings.min_connections - live
        } else {
            0
        };
        self.busy = self.busy + to_open;
        Maintenance { closed, to_open }
    }

    /// The caller holding `ticket` gave up waiting: it leaves the queue, and
    /// what it gets is `AcquireTimeout`.  No slot changes hands.
    pub fn abandon(&mut self, ticket: u64) -> (r: PoolError)
        requires
            old(self).wf(),
        ensures
            final(self).wf(),
            final(self)@ == (PoolModel { waiters: without(old(self)@.waiters, ticket), ..old(self)@ }),
            r is AcquireTimeout,
    {
        let ghost w0 = self.waiters@;
        let mut i: usize = 0;
        proof {
            assert(w0.skip(0) =~= w0);
        }
        while i < self.waiters.len()
            invariant
                self.waiters@ == w0,
                i <= w0.len(),
                index_of(w0, ticket) == (if index_of(w0.skip(i as int), ticket) < 0 {
                    -1
                } else {
                    index_of(w0.skip(i as int), ticket) + i
                }),
            ensures
                self.waiters@ == w0,
                i <= w0.len(),
                index_of(w0, ticket) == (if index_of(w0.skip(i as int), ticket) < 0 {
                    -1
                } else {
                    index_of(w0.skip(i as int), ticket) + i
                }),
                i < w0.len() ==> w0[i as int] == ticket,
            decreases w0.len() - i,
        {
            proof {
                lemma_index_of(w0.skip(i as int), ticket);
            }
            if self.waiters[i] == ticket {
                break;
            }
            proof {
                assert(w0.skip(i as int).drop_first() =~= w0.skip(i + 1));
            }
            i = i + 1;
        }
        proof {
            lemma_index_of(w0.skip(i as int), ticket);
        }
        if i < self.waiters.len() {
            proof {
                assert(w0.skip(i as int)[0] == w0[i as int]);
                assert(index_of(w0, ticket) == i);
            }
            self.waiters.remove(i);
        } else {
            proof {
                assert(w0.skip(i as int).len() == 0);
            }
        }
        PoolError::AcquireTimeout
    }

    /// Number of idle connections.
    pub fn idle_count(&self) -> (r: usize)
        ensures
            r == self@.idle.len(),
    {
        self.idle.len()
    }

    /// Number of callers waiting for a connection.
    pub fn waiting(&self) -> (r: usize)
        ensures
            r == self@.waiters.len(),
    {
        self.waiters.len()
    }

    /// The settings the pool runs with.
    pub fn settings(&self) -> (r: PoolSettings)
        ensures
            r == self@.settings,
    {
        self.settings
    }
}

// Laws of the pool.

/// The realized pool never wants more connections kept than it may hold,
/// even when the options give the two bounds inverted; inverted bounds are
/// clamped, not rejected.
pub proof fn lemma_min_never_exceeds_max(o: PoolOptions, opened: Seq<Conn>)
    ensures
        spec_start(settings_of(o), opened).settings.min_connections
            <= spec_start(settings_of(o), opened).settings.max_connections,
        o.min_connections > o.max_connections ==> spec_start(
            settings_of(o),
            opened,
        ).settings.min_connections == o.max_connections,
        o.min_connections <= o.max_connections ==> spec_start(
            settings_of(o),
            opened,
        ).settings.min_connections == o.min_connections,
{
}

/// A lazy pool opens nothing while it is built, so it starts with no live
/// connection whether or not the server can be reached.
pub proof fn lemma_lazy_start_is_empty(plan: PoolPlan)
    requires
        plan.pool.startup == Startup::Lazy,
    ensures
        (if plan.pool.startup == Startup::Eager { plan.pool.min_connections } else { 0 }) == 0,
        spec_start(plan.pool, seq![]).live() == 0,
        spec_start(plan.pool, seq![]).wf(),
{
}

/// Releasing a healthy connection that has not outlived `max_lifetime`,
/// when nobody waits, makes it the very next connection `acquire` hands out
/// (if it is still fresh then), and the pool is back where it was: no
/// connection is lost in an acquire/release cycle.
pub proof fn lemma_release_then_acquire(m: PoolModel, c: Conn, now: u64, ticket: u64, later: u64)
    requires
        m.wf(),
        m.busy > 0,
        m.waiters.len() == 0,
        !outlived(c, now, m.settings),
        !stale(Conn { last_used_at: now, ..c }, later, m.settings),
    ensures
        spec_release(m, c, true, now).1 == Released::Idle,
        spec_acquire(spec_release(m, c, true, now).0, ticket, later).1 == Grant::Reuse(
            Conn { last_used_at: now, ..c },
        ),
        spec_acquire(spec_release(m, c, true, now).0, ticket, later).2.len() == 0,
        spec_acquire(spec_release(m, c, true, now).0, ticket, later).0 == m,
{
    let c2 = Conn { last_used_at: now, ..c };
    let m1 = spec_release(m, c, true, now).0;
    assert(m1.idle == m.idle.push(c2));
    assert(m1.idle.drop_last() =~= m.idle);
    assert(usable_len(m1.idle, later, m1.settings) == m1.idle.len());
    assert(m1.idle.take(m.idle.len() as int) =~= m.idle);
    assert(m1.idle.subrange(m1.idle.len() as int, m1.idle.len() as int) =~= seq![]);
}

/// A pool whose slots are all busy makes a new caller wait, behind everyone
/// already waiting; a release serves the longest waiting caller first and
/// keeps the others in their order.
pub proof fn lemma_waiters_first_come_first_served(
    m: PoolModel,
    ticket: u64,
    now: u64,
    c: Conn,
    healthy: bool,
)
    requires
        m.wf(),
        m.busy == m.settings.max_connections,
    ensures
        spec_acquire(m, ticket, now).1 == Grant::Wait(ticket),
        spec_acquire(m, ticket, now).0.waiters == m.waiters.push(ticket),
        spec_acquire(m, ticket, now).0.live() == m.live(),
        m.waiters.len() > 0 && m.busy > 0 ==> ({
            let (m1, r) = spec_release(m, c, healthy, now);
            &&& r == Released::Given(m.waiters[0], Conn { last_used_at: now, ..c })
                || r == Released::ClosedOpenFor(m.waiters[0])
            &&& m1.waiters == m.waiters.drop_first()
            &&& m1.live() == m.live()
        }),
{
    if m.waiters.len() == 0 {
        assert(m.idle.len() == 0);
        assert(m.idle.subrange(0, 0) =~= seq![]);
        assert(seq![ticket] =~= m.waiters.push(ticket));
    }
}

/// A connection older than `max_lifetime` is never handed out by `acquire`
/// nor put back by `release`, and after a maintenance pass no idle
/// connection has been idle longer than `idle_timeout`.
pub proof fn lemma_stale_connections_leave(m: PoolModel, ticket: u64, now: u64, c: Conn, healthy: bool)
    requires
        m.wf(),
    ensures
        spec_acquire(m, ticket, now).1 matches Grant::Reuse(d) ==> !outlived(d, now, m.settings),
        m.busy > 0 && outlived(c, now, m.settings) ==> (spec_release(m, c, healthy, now).1
            is Closed || spec_release(m, c, healthy, now).1 is ClosedOpenFor),
        m.busy > 0 && outlived(c, now, m.settings) ==> spec_release(m, c, healthy, now).0.idle
            == m.idle,
        forall|i: int|
            0 <= i < spec_maintain(m, now).0.idle.len() ==> !idled_out(
                #[trigger] spec_maintain(m, now).0.idle[i],
                now,
                m.settings,
            ) && !outlived(spec_maintain(m, now).0.idle[i], now, m.settings),
{
    lemma_usable_len(m.idle, now, m.settings);
    assert forall|i: int| 0 <= i < spec_maintain(m, now).0.idle.len() implies !idled_out(
        #[trigger] spec_maintain(m, now).0.idle[i],
        now,
        m.settings,
    ) && !outlived(spec_maintain(m, now).0.idle[i], now, m.settings) by {
        m.idle.lemma_filter_pred(fresh_at(now, m.settings), i);
    }
}

} // verus!
