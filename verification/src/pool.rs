//! Pools of idle connections, one for each address.
//!
//! Times are milliseconds on a clock that never runs back. `C` stands for a
//! connection.
use crate::names::NameMap;
use vstd::prelude::*;
use vstd::string::*;

verus! {

/// How a pool treats its connections.
#[derive(Debug, Clone, Copy)]
pub struct PoolConfig {
    /// How many connections a pool has at most, those in use and those idle.
    pub max_size: usize,
    pub connection_timeout_ms: u64,
    /// How long a connection may be idle.
    pub max_idle_time_ms: u64,
    /// How long a connection may live.
    pub max_lifetime_ms: u64,
    /// Whether connections are probed before they change hands.
    pub health_check: bool,
    pub health_check_interval_ms: u64,
}

impl Default for PoolConfig {
    fn default() -> (c: Self)
        ensures
            c.max_size == 10,
            c.connection_timeout_ms == 5_000,
            c.max_idle_time_ms == 300_000,
            c.max_lifetime_ms == 3_600_000,
            c.health_check,
            c.health_check_interval_ms == 30_000,
    {
        PoolConfig {
            max_size: 10,
            connection_timeout_ms: 5_000,
            max_idle_time_ms: 300_000,
            max_lifetime_ms: 3_600_000,
            health_check: true,
            health_check_interval_ms: 30_000,
        }
    }
}

/// The time between two instants; none where the later one comes first.
pub open spec fn elapsed(now: u64, since: u64) -> int {
    if now >= since {
        now - since
    } else {
        0
    }
}

/// A connection of a pool.
pub struct PooledConn<C> {
    pub conn: C,
    pub created_at: u64,
    pub last_used_at: u64,
    pub use_count: u64,
}

impl<C> PooledConn<C> {
    /// Whether a connection is too old, or was idle for too long.
    pub open spec fn expired(self, now: u64, max_idle_ms: u64, max_life_ms: u64) -> bool {
        elapsed(now, self.last_used_at) > max_idle_ms || elapsed(now, self.created_at) > max_life_ms
    }

    /// A connection that was just made.
    pub fn new(conn: C, now: u64) -> (c: Self)
        ensures
            c == (PooledConn { conn, created_at: now, last_used_at: now, use_count: 0 }),
    {
        PooledConn { conn, created_at: now, last_used_at: now, use_count: 0 }
    }

    /// Whether the connection is too old, or was idle for too long.
    pub fn is_expired(&self, now: u64, max_idle_ms: u64, max_life_ms: u64) -> (b: bool)
        ensures
            b == self.expired(now, max_idle_ms, max_life_ms),
    {
        (now >= self.last_used_at && now - self.last_used_at > max_idle_ms) || (now
            >= self.created_at && now - self.created_at > max_life_ms)
    }

    /// Notes that the connection is used.
    pub fn mark_used(&mut self, now: u64)
        requires
            old(self).use_count < u64::MAX,
        ensures
            *final(self) == (PooledConn {
                last_used_at: now,
                use_count: (old(self).use_count + 1) as u64,
                ..*old(self)
            }),
    {
        self.last_used_at = now;
        self.use_count = self.use_count + 1;
    }
}

/// What a pool counts.
#[derive(Debug, Clone, Copy)]
pub struct PoolStats {
    pub total_created: u64,
    /// Wraps around.
    pub total_reused: u64,
    pub total_closed: u64,
    pub total_failed: u64,
    /// The idle connections when one was last handed out by or returned to the pool.
    pub current_idle: usize,
    pub current_in_use: usize,
}

impl Default for PoolStats {
    fn default() -> (s: Self)
        ensures
            s == (PoolStats {
                total_created: 0,
                total_reused: 0,
                total_closed: 0,
                total_failed: 0,
                current_idle: 0,
                current_in_use: 0,
            }),
    {
        PoolStats {
            total_created: 0,
            total_reused: 0,
            total_closed: 0,
            total_failed: 0,
            current_idle: 0,
            current_in_use: 0,
        }
    }
}

/// How a connection is had from a pool.
pub enum GetStep<C> {
    /// This idle connection is to be probed first.
    Probe(PooledConn<C>),
    /// This connection can be used.
    Reuse(PooledConn<C>),
    /// A connection has to be made within this time.
    Connect { timeout_ms: u64 },
    /// As many connections are in use as may be: one has to come back first.
    Wait,
}

/// What a pool holds and counts.
pub struct PoolView<C> {
    pub config: PoolConfig,
    pub idle: Seq<PooledConn<C>>,
    pub stats: PoolStats,
}

impl<C> PoolView<C> {
    /// No more connections are in use or idle than may be, and every connection that
    /// was made is idle, in use or closed.
    pub open spec fn wf(self) -> bool {
        &&& self.idle.len() + self.stats.current_in_use <= self.config.max_size
        &&& self.stats.total_created == self.idle.len() + self.stats.current_in_use
            + self.stats.total_closed
        &&& forall|i: int|
            #![trigger self.idle[i]]
            0 <= i < self.idle.len() ==> self.idle[i].use_count < u64::MAX
    }

    /// Whether an idle connection is past its time.
    pub open spec fn stale(self, c: PooledConn<C>, now: u64) -> bool {
        c.expired(now, self.config.max_idle_time_ms, self.config.max_lifetime_ms)
    }

    /// The pool without its latest connection, which was closed.
    pub open spec fn latest_closed(self) -> PoolView<C> {
        PoolView {
            idle: self.idle.drop_last(),
            stats: PoolStats {
                total_closed: (self.stats.total_closed + 1) as u64,
                ..self.stats
            },
            ..self
        }
    }

    /// The pool without the latest connections as far as they are past their time.
    pub open spec fn without_stale(self, now: u64) -> PoolView<C>
        decreases self.idle.len(),
    {
        if self.idle.len() > 0 && self.stale(self.idle.last(), now) {
            self.latest_closed().without_stale(now)
        } else {
            self
        }
    }

    /// A connection is handed out again.
    pub open spec fn reused(self) -> PoolView<C> {
        PoolView {
            stats: PoolStats {
                total_reused: self.stats.total_reused.wrapping_add(1),
                current_in_use: (self.stats.current_in_use + 1) as usize,
                current_idle: self.idle.len() as usize,
                ..self.stats
            },
            ..self
        }
    }
}

/// What comes of asking a pool for a connection.
pub open spec fn get_outcome<C>(
    before: PoolView<C>,
    now: u64,
    step: GetStep<C>,
    after: PoolView<C>,
) -> bool {
    let p = before.without_stale(now);
    if before.stats.current_in_use >= before.config.max_size {
        step == GetStep::<C>::Wait && after == before
    } else if p.idle.len() == 0 {
        step == (GetStep::<C>::Connect { timeout_ms: before.config.connection_timeout_ms }) && after
            == p
    } else {
        let c = p.idle.last();
        let rest = PoolView { idle: p.idle.drop_last(), ..p };
        if before.config.health_check {
            step == GetStep::Probe(c) && after == rest
        } else {
            step == GetStep::Reuse(
                (PooledConn { last_used_at: now, use_count: (c.use_count + 1) as u64, ..c }),
            ) && after == rest.reused()
        }
    }
}

/// A pool after a connection came back. The connection is closed where it is
/// unhealthy, if the pool looks at that, and where the pool is full.
pub open spec fn returned<C>(p: PoolView<C>, conn: PooledConn<C>, healthy: bool) -> PoolView<C> {
    if (p.config.health_check && !healthy) || p.idle.len() >= p.config.max_size {
        PoolView {
            stats: PoolStats {
                total_closed: (p.stats.total_closed + 1) as u64,
                current_in_use: (p.stats.current_in_use - 1) as usize,
                ..p.stats
            },
            ..p
        }
    } else {
        PoolView {
            idle: p.idle.push(conn),
            stats: PoolStats {
                current_in_use: (p.stats.current_in_use - 1) as usize,
                current_idle: (p.idle.len() + 1) as usize,
                ..p.stats
            },
            ..p
        }
    }
}

/// A pool after a connection that was handed out was closed elsewhere.
pub open spec fn forgotten<C>(p: PoolView<C>) -> PoolView<C> {
    PoolView {
        stats: PoolStats {
            total_closed: (p.stats.total_closed + 1) as u64,
            current_in_use: (p.stats.current_in_use - 1) as usize,
            ..p.stats
        },
        ..p
    }
}

/// A pool of idle connections to one address.
pub struct ConnPool<C> {
    config: PoolConfig,
    connections: Vec<PooledConn<C>>,
    stats: PoolStats,
}

impl<C> View for ConnPool<C> {
    type V = PoolView<C>;

    closed spec fn view(&self) -> PoolView<C> {
        PoolView { config: self.config, idle: self.connections@, stats: self.stats }
    }
}

/// A pool that counts one connection which it does not hold: the one that is being
/// probed.
pub open spec fn lacks_one<C>(p: PoolView<C>, c: PooledConn<C>) -> bool {
    (PoolView { idle: p.idle.push(c), ..p }).wf()
}

impl<C> ConnPool<C> {
    /// An empty pool.
    pub fn new(config: PoolConfig) -> (p: Self)
        ensures
            p@.wf(),
            p@.config == config,
            p@.idle == Seq::<PooledConn<C>>::empty(),
            p@.stats == (PoolStats {
                total_created: 0,
                total_reused: 0,
                total_closed: 0,
                total_failed: 0,
                current_idle: 0,
                current_in_use: 0,
            }),
    {
        ConnPool { config, connections: Vec::new(), stats: PoolStats::default() }
    }

    /// Hands out the latest idle connection that is not past its time. Those that are
    /// are closed. Where as many connections are in use as may be, none is handed out.
    pub fn get(&mut self, now: u64) -> (step: GetStep<C>)
        requires
            old(self)@.wf(),
        ensures
            get_outcome(old(self)@, now, step, final(self)@),
            old(self)@.stats.current_in_use == old(self)@.config.max_size ==> step is Wait
                && final(self)@ == old(self)@,
            final(self)@.stats.current_in_use <= final(self)@.config.max_size,
            match step {
                GetStep::Probe(c) => lacks_one(final(self)@, c),
                _ => final(self)@.wf(),
            },
    {
        if self.stats.current_in_use >= self.config.max_size {
            return GetStep::Wait;
        }
        loop
            invariant
                self@.wf(),
                self@.config == old(self)@.config,
                self@.stats.current_in_use == old(self)@.stats.current_in_use,
                    old(self)@.stats.current_in_use < old(self)@.config.max_size,
                self@.without_stale(now) == old(self)@.without_stale(now),
            decreases self.connections.len(),
        {
            let ghost before = self@;
            match self.connections.pop() {
                None => {
                    return GetStep::Connect { timeout_ms: self.config.connection_timeout_ms };
                },
                Some(mut conn) => {
                    assert(before.idle.last() == conn);
                    assert(self@.idle == before.idle.drop_last());
                    assert(before.idle == self@.idle.push(conn));
                    if conn.is_expired(
                        now,
                        self.config.max_idle_time_ms,
                        self.config.max_lifetime_ms,
                    ) {
                        self.stats.total_closed = self.stats.total_closed + 1;
                        assert(self@ == before.latest_closed());
                        continue ;
                    }
                    assert(before.without_stale(now) == before);
                    if self.config.health_check {
                        return GetStep::Probe(conn);
                    }
                    conn.mark_used(now);
                    self.hand_out();
                    return GetStep::Reuse(conn);
                },
            }
        }
    }

    /// Counts a connection that is handed out again.
    fn hand_out(&mut self)
        requires
            old(self)@.stats.current_in_use < usize::MAX,
        ensures
            final(self)@ == old(self)@.reused(),
    {
        self.stats.total_reused = self.stats.total_reused.wrapping_add(1);
        self.stats.current_in_use = self.stats.current_in_use + 1;
        self.stats.current_idle = self.connections.len();
    }

    /// Goes on after an idle connection was probed: it is handed out where it is
    /// healthy, else it is closed and the next one is tried.
    pub fn probed(&mut self, conn: PooledConn<C>, healthy: bool, now: u64) -> (step: GetStep<C>)
        requires
            lacks_one(old(self)@, conn),
        ensures
            final(self)@.stats.current_in_use <= final(self)@.config.max_size,
            if healthy {
                step == GetStep::Reuse(
                    (PooledConn {
                        last_used_at: now,
                        use_count: (conn.use_count + 1) as u64,
                        ..conn
                    }),
                ) && final(self)@ == old(self)@.reused() && final(self)@.wf()
            } else {
                &&& get_outcome(
                    (PoolView { idle: old(self)@.idle.push(conn), ..old(self)@ }).latest_closed(),
                    now,
                    step,
                    final(self)@,
                )
                &&& match step {
                    GetStep::Probe(c) => lacks_one(final(self)@, c),
                    _ => final(self)@.wf(),
                }
            },
    {
        let ghost held = PoolView { idle: self@.idle.push(conn), ..self@ };
        assert(held.idle.last() == conn);
        assert(forall|i: int|
            #![trigger self@.idle[i]]
            0 <= i < self@.idle.len() ==> self@.idle[i] == held.idle[i]);
        if healthy {
            let mut c = conn;
            c.mark_used(now);
            self.hand_out();
            return GetStep::Reuse(c);
        }
        self.stats.total_closed = self.stats.total_closed + 1;
        assert(held.idle.drop_last() =~= self@.idle);
        assert(self@ == held.latest_closed());
        self.get(now)
    }

    /// Counts a connection that was made for want of an idle one, where there is room
    /// for it.
    pub fn connected(&mut self, conn: C, now: u64) -> (c: PooledConn<C>)
        requires
            old(self)@.wf(),
            old(self)@.stats.total_created < u64::MAX,
            old(self)@.idle.len() + old(self)@.stats.current_in_use < old(self)@.config.max_size,
        ensures
            c == (PooledConn { conn, created_at: now, last_used_at: now, use_count: 0 }),
            final(self)@.wf(),
            final(self)@ == (PoolView {
                stats: PoolStats {
                    total_created: (old(self)@.stats.total_created + 1) as u64,
                    current_in_use: (old(self)@.stats.current_in_use + 1) as usize,
                    ..old(self)@.stats
                },
                ..old(self)@
            }),
    {
        self.stats.total_created = self.stats.total_created + 1;
        self.stats.current_in_use = self.stats.current_in_use + 1;
        PooledConn::new(conn, now)
    }

    /// Takes a connection back. It is closed where it is unhealthy, if the pool looks
    /// at that, and where the pool is full.
    pub fn put(&mut self, conn: PooledConn<C>, healthy: bool)
        requires
            old(self)@.wf(),
            old(self)@.stats.current_in_use > 0,
            conn.use_count < u64::MAX,
        ensures
            final(self)@.wf(),
            final(self)@ == returned(old(self)@, conn, healthy),
    {
        if (self.config.health_check && !healthy) || self.connections.len()
            >= self.config.max_size {
            self.stats.total_closed = self.stats.total_closed + 1;
            self.stats.current_in_use = self.stats.current_in_use - 1;
            return ;
        }
        self.connections.push(conn);
        self.stats.current_in_use = self.stats.current_in_use - 1;
        self.stats.current_idle = self.connections.len();
    }

    /// Counts a connection that was handed out and is closed now.
    pub fn forget(&mut self)
        requires
            old(self)@.wf(),
            old(self)@.stats.current_in_use > 0,
        ensures
            final(self)@.wf(),
            final(self)@ == forgotten(old(self)@),
    {
        self.stats.total_closed = self.stats.total_closed + 1;
        self.stats.current_in_use = self.stats.current_in_use - 1;
    }

    /// What the pool counted.
    pub fn get_stats(&self) -> (s: PoolStats)
        ensures
            s == self@.stats,
    {
        self.stats
    }
}

/// The connections that are not past their time.
pub open spec fn fresh_ones<C>(p: PoolView<C>, now: u64) -> Seq<PooledConn<C>> {
    p.idle.filter(|c: PooledConn<C>| !p.stale(c, now))
}

/// A pool after a clean-up.
pub open spec fn cleaned<C>(p: PoolView<C>, now: u64) -> PoolView<C> {
    let kept = fresh_ones(p, now);
    if kept.len() == p.idle.len() {
        p
    } else {
        PoolView {
            idle: kept,
            stats: PoolStats {
                total_closed: (p.stats.total_closed + p.idle.len() - kept.len()) as u64,
                current_idle: kept.len() as usize,
                ..p.stats
            },
            ..p
        }
    }
}

/// A pool after all idle connections were closed.
pub open spec fn emptied<C>(p: PoolView<C>) -> PoolView<C> {
    PoolView {
        idle: seq![],
        stats: PoolStats {
            total_closed: (p.stats.total_closed + p.idle.len()) as u64,
            current_idle: 0,
            ..p.stats
        },
        ..p
    }
}

proof fn lemma_filter_same<A>(s: Seq<A>, f: spec_fn(A) -> bool)
    ensures
        s.filter(f).len() <= s.len(),
        s.filter(f).len() == s.len() ==> s.filter(f) == s,
        forall|i: int|
            0 <= i < s.filter(f).len() ==> s.contains(#[trigger] s.filter(f)[i]),
    decreases s.len(),
{
    reveal(Seq::filter);
    if s.len() > 0 {
        lemma_filter_same(s.drop_last(), f);
        let t = s.filter(f);
        assert forall|i: int| 0 <= i < t.len() implies s.contains(#[trigger] t[i]) by {
            if i < s.drop_last().filter(f).len() {
                let x = s.drop_last().filter(f)[i];
                assert(t[i] == x);
                assert(s.drop_last().contains(x));
                let k = s.drop_last().index_of(x);
                assert(s[k] == x);
            } else {
                assert(t[i] == s.last());
                assert(s[s.len() - 1] == s.last());
            }
        }
    }
}

impl<C> ConnPool<C> {
    /// Closes the idle connections that are past their time.
    pub fn cleanup(&mut self, now: u64)
        requires
            old(self)@.wf(),
        ensures
            final(self)@.wf(),
            final(self)@ == cleaned(old(self)@, now),
    {
        let ghost before = self@;
        let ghost keep = |c: PooledConn<C>| !before.stale(c, now);
        let mut rest: Vec<PooledConn<C>> = Vec::new();
        core::mem::swap(&mut rest, &mut self.connections);
        let total: usize = rest.len();
        let mut kept: Vec<PooledConn<C>> = Vec::new();
        let mut i: usize = 0;
        proof {
            reveal(Seq::filter);
        }
        while rest.len() > 0
            invariant
                i + rest.len() == total,
                total == before.idle.len(),
                rest@ == before.idle.skip(i as int),
                keep == (|c: PooledConn<C>| !before.stale(c, now)),
                kept@ == before.idle.take(i as int).filter(keep),
                self@.config == before.config,
                self@.stats == before.stats,
            decreases rest.len(),
        {
            let conn: PooledConn<C> = rest.remove(0);
            assert(conn == before.idle[i as int]);
            proof {
                reveal(Seq::filter);
                let upto = before.idle.take(i + 1);
                assert(upto.drop_last() == before.idle.take(i as int));
                assert(upto.last() == conn);
            }
            i = i + 1;
            assert(rest@ == before.idle.skip(i as int));
            if !conn.is_expired(now, self.config.max_idle_time_ms, self.config.max_lifetime_ms) {
                kept.push(conn);
            }
        }
        assert(before.idle.take(i as int) == before.idle);
        assert(kept@ == fresh_ones(before, now));
        proof {
            lemma_filter_same(before.idle, keep);
        }
        let left: usize = kept.len();
        self.connections = kept;
        if left != total {
            self.stats.total_closed = self.stats.total_closed + (total - left) as u64;
            self.stats.current_idle = left;
        }
        assert forall|k: int|
            #![trigger self@.idle[k]]
            0 <= k < self@.idle.len() implies self@.idle[k].use_count < u64::MAX by {
            let x = self@.idle[k];
            assert(before.idle.contains(x));
            let j = before.idle.index_of(x);
            assert(before.idle[j] == x);
        }
    }

    /// Closes all idle connections.
    pub fn close_all(&mut self)
        requires
            old(self)@.wf(),
        ensures
            final(self)@.wf(),
            final(self)@ == emptied(old(self)@),
    {
        let count: usize = self.connections.len();
        self.connections = Vec::new();
        self.stats.total_closed = self.stats.total_closed + count as u64;
        self.stats.current_idle = 0;
        assert(self@.idle =~= seq![]);
    }
}

/// The pools, by address.
pub struct PoolManager<C> {
    pools: NameMap<ConnPool<C>>,
    default_config: PoolConfig,
}

impl<C> View for PoolManager<C> {
    type V = Map<Seq<char>, ConnPool<C>>;

    closed spec fn view(&self) -> Map<Seq<char>, ConnPool<C>> {
        self.pools@
    }
}

impl<C> PoolManager<C> {
    /// How new pools treat their connections.
    pub closed spec fn config(self) -> PoolConfig {
        self.default_config
    }

    /// Every pool is sound.
    pub open spec fn wf(self) -> bool {
        forall|a: Seq<char>| #[trigger] self@.contains_key(a) ==> self@[a]@.wf()
    }

    /// No pools yet.
    pub fn new(default_config: PoolConfig) -> (m: Self)
        ensures
            m.wf(),
            m.config() == default_config,
            m@ == Map::<Seq<char>, ConnPool<C>>::empty(),
    {
        PoolManager { pools: NameMap::new(), default_config }
    }

    /// Makes sure that there is a pool for an address.
    pub fn get_or_create_pool(&mut self, addr: &str)
        requires
            old(self).wf(),
        ensures
            final(self).wf(),
            final(self).config() == old(self).config(),
            final(self)@.contains_key(addr@),
            if old(self)@.contains_key(addr@) {
                final(self)@ == old(self)@
            } else {
                &&& final(self)@.remove(addr@) == old(self)@
                &&& final(self)@[addr@]@.config == old(self).config()
                &&& final(self)@[addr@]@.idle.len() == 0
                &&& final(self)@[addr@]@.stats == (PoolStats {
                    total_created: 0,
                    total_reused: 0,
                    total_closed: 0,
                    total_failed: 0,
                    current_idle: 0,
                    current_in_use: 0,
                })
            },
    {
        if !self.pools.contains(addr) {
            let ghost before = self@;
            self.pools.insert(addr.to_string(), ConnPool::new(self.default_config));
            assert(self@.remove(addr@) =~= before);
        }
    }

    /// The pool of an address.
    pub fn get_pool(&self, addr: &str) -> (p: Option<&ConnPool<C>>)
        ensures
            match p {
                Some(p) => self@.contains_key(addr@) && *p == self@[addr@],
                None => !self@.contains_key(addr@),
            },
    {
        self.pools.get(addr)
    }

    /// Takes the pool of an address out, to work with it.
    pub fn take_pool(&mut self, addr: &str) -> (p: Option<ConnPool<C>>)
        requires
            old(self).wf(),
        ensures
            final(self).wf(),
            final(self).config() == old(self).config(),
            final(self)@ == old(self)@.remove(addr@),
            match p {
                Some(p) => old(self)@.contains_key(addr@) && p == old(self)@[addr@] && p@.wf(),
                None => !old(self)@.contains_key(addr@),
            },
    {
        let ghost before = self@;
        let p = self.pools.remove(addr);
        assert(forall|a: Seq<char>| #[trigger] self@.contains_key(a) ==> before.contains_key(a));
        p
    }

    /// Puts the pool of an address in.
    pub fn put_pool(&mut self, addr: &str, pool: ConnPool<C>)
        requires
            old(self).wf(),
            pool@.wf(),
        ensures
            final(self).wf(),
            final(self).config() == old(self).config(),
            final(self)@ == old(self)@.insert(addr@, pool),
    {
        let ghost before = self@;
        self.pools.insert(addr.to_string(), pool);
        assert(forall|a: Seq<char>| #[trigger]
            self@.contains_key(a) ==> a == addr@ || before.contains_key(a));
    }

    /// Closes a connection's pool and all its idle connections.
    pub fn remove_pool(&mut self, addr: &str)
        requires
            old(self).wf(),
        ensures
            final(self).wf(),
            final(self).config() == old(self).config(),
            final(self)@ == old(self)@.remove(addr@),
    {
        let ghost before = self@;
        if let Some(mut pool) = self.pools.remove(addr) {
            pool.close_all();
        }
        assert(forall|a: Seq<char>| #[trigger] self@.contains_key(a) ==> before.contains_key(a));
    }

    /// Takes a connection back to the pool of its address; without one it is closed.
    pub fn put_back(&mut self, addr: &str, conn: PooledConn<C>, healthy: bool)
        requires
            old(self).wf(),
            conn.use_count < u64::MAX,
            old(self)@.contains_key(addr@) ==> old(self)@[addr@]@.stats.current_in_use > 0,
        ensures
            final(self).wf(),
            final(self).config() == old(self).config(),
            final(self)@.dom() == old(self)@.dom(),
            final(self)@.remove(addr@) == old(self)@.remove(addr@),
            old(self)@.contains_key(addr@) ==> {
                let p = old(self)@[addr@]@;
                final(self)@[addr@]@ == returned(p, conn, healthy)
            },
    {
        let ghost before = self@;
        if let Some(mut pool) = self.pools.remove(addr) {
            pool.put(conn, healthy);
            self.pools.insert(addr.to_string(), pool);
            assert(self@.dom() =~= before.dom());
            assert(self@.remove(addr@) =~= before.remove(addr@));
        }
    }

    /// Counts a connection of an address that was handed out and is closed now.
    pub fn forget(&mut self, addr: &str)
        requires
            old(self).wf(),
            old(self)@.contains_key(addr@) ==> old(self)@[addr@]@.stats.current_in_use > 0,
        ensures
            final(self).wf(),
            final(self).config() == old(self).config(),
            final(self)@.dom() == old(self)@.dom(),
            final(self)@.remove(addr@) == old(self)@.remove(addr@),
            old(self)@.contains_key(addr@) ==> final(self)@[addr@]@ == forgotten(
                old(self)@[addr@]@,
            ),
    {
        let ghost before = self@;
        if let Some(mut pool) = self.pools.remove(addr) {
            pool.forget();
            self.pools.insert(addr.to_string(), pool);
            assert(self@.dom() =~= before.dom());
            assert(self@.remove(addr@) =~= before.remove(addr@));
        }
    }

    /// Closes the idle connections that are past their time, in all pools.
    pub fn cleanup_all(&mut self, now: u64)
        requires
            old(self).wf(),
        ensures
            final(self).wf(),
            final(self).config() == old(self).config(),
            final(self)@.dom() == old(self)@.dom(),
            forall|a: Seq<char>| #[trigger]
                final(self)@.contains_key(a) ==> final(self)@[a]@ == cleaned(old(self)@[a]@, now),
    {
        let ghost before = self@;
        let mut rest: NameMap<ConnPool<C>> = NameMap::new();
        core::mem::swap(&mut rest, &mut self.pools);
        while rest.len() > 0
            invariant
                self.config() == old(self).config(),
                before == old(self)@,
                old(self).wf(),
                forall|a: Seq<char>|
                    #![trigger before.contains_key(a)]
                    before.contains_key(a) == (self@.contains_key(a) || rest@.contains_key(a)),
                forall|a: Seq<char>| #[trigger]
                    rest@.contains_key(a) ==> !self@.contains_key(a) && rest@[a] == before[a],
                forall|a: Seq<char>| #[trigger]
                    self@.contains_key(a) ==> self@[a]@ == cleaned(before[a]@, now)
                        && self@[a]@.wf(),
            decreases rest.names().len(),
        {
            proof {
                rest.lemma_names();
            }
            let ghost was = rest@;
            let ghost had = self@;
            let (addr, mut pool) = rest.remove_at(0);
            assert(was.contains_key(addr@));
            assert(before.contains_key(addr@));
            pool.cleanup(now);
            self.pools.insert(addr, pool);
            assert(self@ == had.insert(addr@, pool));
            assert forall|a: Seq<char>| #[trigger] rest@.contains_key(a) implies
                !self@.contains_key(a) && rest@[a] == before[a] by {
                assert(was.contains_key(a));
            }
        }
        proof {
            rest.lemma_names();
            assert(forall|a: Seq<char>| !rest.names().contains(a));
            assert forall|a: Seq<char>| before.contains_key(a) == self@.contains_key(a) by {
                assert(!rest@.contains_key(a));
            }
        }
        assert(self@.dom() =~= before.dom());
    }

    /// What all pools counted, by address.
    pub fn get_all_stats(&self) -> (stats: NameMap<PoolStats>)
        ensures
            stats@.dom() == self@.dom(),
            forall|a: Seq<char>| #[trigger]
                stats@.contains_key(a) ==> stats@[a] == self@[a]@.stats,
    {
        let mut stats: NameMap<PoolStats> = NameMap::new();
        let mut i: usize = 0;
        let n: usize = self.pools.len();
        while i < n
            invariant
                n == self.pools.names().len(),
                i <= n,
                forall|a: Seq<char>|
                    #![trigger stats@.contains_key(a)]
                    stats@.contains_key(a) == self.pools.names().take(i as int).contains(a),
                forall|a: Seq<char>| #[trigger]
                    stats@.contains_key(a) ==> stats@[a] == self@[a]@.stats,
            decreases n - i,
        {
            let name: &String = self.pools.name_at(i);
            let ghost upto = self.pools.names().take(i + 1);
            let ghost had = stats@;
            stats.insert(name.clone(), self.pools.value_at(i).get_stats());
            proof {
                assert(upto == self.pools.names().take(i as int).push(name@));
                assert forall|a: Seq<char>| #[trigger] stats@.contains_key(a) == upto.contains(
                    a,
                ) by {
                    if upto.contains(a) && a != name@ {
                        let k = upto.index_of(a);
                        assert(self.pools.names().take(i as int)[k] == a);
                    }
                    if a == name@ {
                        assert(upto[i as int] == a);
                    }
                    if had.contains_key(a) {
                        let k = self.pools.names().take(i as int).index_of(a);
                        assert(upto[k] == a);
                    }
                }
            }
            i = i + 1;
        }
        proof {
            self.pools.lemma_names();
            assert(self.pools.names().take(n as int) == self.pools.names());
        }
        assert(stats@.dom() =~= self@.dom());
        stats
    }
}

/// However connections are asked for, no more of them are handed out than a pool may
/// have: the last one that is out has to come back first.
pub proof fn law_pool_limits_connections<C>(
    before: PoolView<C>,
    now: u64,
    step: GetStep<C>,
    after: PoolView<C>,
)
    requires
        before.wf(),
        get_outcome(before, now, step, after),
    ensures
        before.stats.current_in_use <= before.config.max_size,
        before.stats.current_in_use == before.config.max_size ==> step is Wait && after == before,
        before.stats.current_in_use < before.config.max_size ==> !(step is Wait),
        step is Reuse ==> after.stats.current_in_use <= after.config.max_size,
        step is Connect ==> after.idle.len() + after.stats.current_in_use < after.config.max_size,
{
    lemma_without_stale(before, now);
}

proof fn lemma_without_stale<C>(p: PoolView<C>, now: u64)
    ensures
        p.without_stale(now).config == p.config,
        p.without_stale(now).stats.current_in_use == p.stats.current_in_use,
    decreases p.idle.len(),
{
    if p.idle.len() > 0 && p.stale(p.idle.last(), now) {
        lemma_without_stale(p.latest_closed(), now);
    }
}

/// Every connection that a pool made is idle, in use or closed, and no more are in use
/// or idle than may be, whatever is taken out and put back.
pub proof fn law_no_connection_is_lost<C>(
    before: PoolView<C>,
    conn: PooledConn<C>,
    healthy: bool,
    now: u64,
)
    requires
        before.wf(),
        before.stats.current_in_use > 0,
        conn.use_count < u64::MAX,
    ensures
        returned(before, conn, healthy).wf(),
        forgotten(before).wf(),
        before.without_stale(now).wf(),
        cleaned(before, now).wf(),
        emptied(before).wf(),
    decreases before.idle.len(),
{
    lemma_filter_same(before.idle, |c: PooledConn<C>| !before.stale(c, now));
    assert forall|k: int|
        #![trigger cleaned(before, now).idle[k]]
        0 <= k < cleaned(before, now).idle.len() implies cleaned(before, now).idle[k].use_count
        < u64::MAX by {
        let x = cleaned(before, now).idle[k];
        assert(before.idle.contains(x));
        let j = before.idle.index_of(x);
        assert(before.idle[j] == x);
    }
    if before.idle.len() > 0 && before.stale(before.idle.last(), now) {
        let next = before.latest_closed();
        assert(forall|i: int|
            #![trigger next.idle[i]]
            0 <= i < next.idle.len() ==> next.idle[i] == before.idle[i]);
        law_no_connection_is_lost(next, conn, healthy, now);
    }
}

} // verus!
