//! Pools of idle connections.
use crate::names::NameMap;
use crate::pool::{ConnPool, GetStep, PoolConfig, PoolManager, PoolStats, PooledConn};
use vstd::prelude::*;
use vstd::string::*;

verus! {

/// A connection that was made and came back is the next one that is handed out, as long as
/// it is within its times; the pool then counts one that was made and one that was used
/// again.
pub proof fn law_returned_connection_is_used_again<C>(
    config: PoolConfig,
    fresh: ConnPool<C>,
    p0: &mut ConnPool<C>,
    p1: &mut ConnPool<C>,
    p2: &mut ConnPool<C>,
    p3: &mut ConnPool<C>,
    conn: C,
    made: PooledConn<C>,
    now: u64,
    later: u64,
    first: GetStep<C>,
    second: GetStep<C>,
    stats: PoolStats,
)
    requires
        config.max_size > 0,
        !config.health_check,
        call_ensures(ConnPool::<C>::new, (config,), fresh),
        *old(p0) == fresh,
        call_ensures(ConnPool::<C>::get, (p0, now), first),
        *old(p1) == *final(p0),
        call_ensures(ConnPool::<C>::connected, (p1, conn, now), made),
        *old(p2) == *final(p1),
        call_ensures(ConnPool::<C>::put, (p2, made, true), ()),
        *old(p3) == *final(p2),
        now <= later,
        later - now <= config.max_idle_time_ms,
        later - now <= config.max_lifetime_ms,
        call_ensures(ConnPool::<C>::get, (p3, later), second),
        call_ensures(ConnPool::<C>::get_stats, (&*final(p3),), stats),
    ensures
        first == (GetStep::<C>::Connect { timeout_ms: config.connection_timeout_ms }),
        made.conn == conn && made.created_at == now && made.last_used_at == now && made.use_count
            == 0,
        second matches GetStep::Reuse(c) && c.conn == conn && c.created_at == now && c.last_used_at
            == later && c.use_count == 1,
        stats.total_created == 1 && stats.total_reused == 1 && stats.total_closed == 0
            && stats.current_in_use == 1 && stats.current_idle == 0,
{
    assert(old(p0)@.without_stale(now) == old(p0)@);
    let held = old(p3)@;
    assert(held.idle =~= seq![made]);
    assert(held.idle.last() == made);
    assert(!held.stale(made, later));
    assert(held.without_stale(later) == held);
}

/// A connection that was idle or alive for too long is closed, not handed out.
pub proof fn law_old_connection_is_closed<C>(
    config: PoolConfig,
    fresh: ConnPool<C>,
    p1: &mut ConnPool<C>,
    p2: &mut ConnPool<C>,
    p3: &mut ConnPool<C>,
    p4: &mut ConnPool<C>,
    conn: C,
    made: PooledConn<C>,
    now: u64,
    later: u64,
    step: GetStep<C>,
    stats: PoolStats,
    cleaned: PoolStats,
)
    requires
        config.max_size > 0,
        call_ensures(ConnPool::<C>::new, (config,), fresh),
        *old(p1) == fresh,
        call_ensures(ConnPool::<C>::connected, (p1, conn, now), made),
        *old(p2) == *final(p1),
        call_ensures(ConnPool::<C>::put, (p2, made, true), ()),
        now <= later,
        later - now > config.max_idle_time_ms || later - now > config.max_lifetime_ms,
        *old(p3) == *final(p2),
        call_ensures(ConnPool::<C>::get, (p3, later), step),
        call_ensures(ConnPool::<C>::get_stats, (&*final(p3),), stats),
        *old(p4) == *final(p2),
        call_ensures(ConnPool::<C>::cleanup, (p4, later), ()),
        call_ensures(ConnPool::<C>::get_stats, (&*final(p4),), cleaned),
    ensures
        step == (GetStep::<C>::Connect { timeout_ms: config.connection_timeout_ms }),
        stats.total_closed == 1 && stats.current_in_use == 0,
        cleaned.total_closed == 1 && cleaned.current_idle == 0,
{
    let held = old(p3)@;
    assert(held.idle =~= seq![made]);
    assert(held.idle.last() == made);
    assert(held.stale(made, later));
    assert(held.latest_closed().idle =~= Seq::<PooledConn<C>>::empty());
    assert(held.latest_closed().without_stale(later) == held.latest_closed());
    reveal(Seq::filter);
    let keep = |c: PooledConn<C>| !held.stale(c, later);
    assert(held.idle.drop_last() =~= Seq::<PooledConn<C>>::empty());
    assert(held.idle.drop_last().filter(keep) =~= Seq::<PooledConn<C>>::empty());
    assert(held.idle.filter(keep) =~= Seq::<PooledConn<C>>::empty());
}

/// A connection that is still within its times stays when the pool is cleaned up.
pub proof fn law_cleaning_keeps_young_connections<C>(
    config: PoolConfig,
    fresh: ConnPool<C>,
    p1: &mut ConnPool<C>,
    p2: &mut ConnPool<C>,
    p3: &mut ConnPool<C>,
    conn: C,
    made: PooledConn<C>,
    now: u64,
    later: u64,
    before: PoolStats,
    after: PoolStats,
)
    requires
        config.max_size > 0,
        call_ensures(ConnPool::<C>::new, (config,), fresh),
        *old(p1) == fresh,
        call_ensures(ConnPool::<C>::connected, (p1, conn, now), made),
        *old(p2) == *final(p1),
        call_ensures(ConnPool::<C>::put, (p2, made, true), ()),
        now <= later,
        later - now <= config.max_idle_time_ms && later - now <= config.max_lifetime_ms,
        *old(p3) == *final(p2),
        call_ensures(ConnPool::<C>::get_stats, (&*old(p3),), before),
        call_ensures(ConnPool::<C>::cleanup, (p3, later), ()),
        call_ensures(ConnPool::<C>::get_stats, (&*final(p3),), after),
    ensures
        before == after,
        after.total_closed == 0,
        after.current_idle == 1,
        final(p3)@.idle == seq![made],
{
    let held = old(p3)@;
    assert(held.idle =~= seq![made]);
    assert(!held.stale(made, later));
    reveal(Seq::filter);
    let keep = |c: PooledConn<C>| !held.stale(c, later);
    assert(held.idle.drop_last() =~= Seq::<PooledConn<C>>::empty());
    assert(held.idle.last() == made);
    assert(held.idle.drop_last().filter(keep) =~= Seq::<PooledConn<C>>::empty());
    assert(held.idle.filter(keep) =~= seq![made]);
}

/// A pool that looks at the health of connections probes one before it hands it out: it
/// hands out the one that is healthy, and closes the one that is not. It closes one that
/// comes back unhealthy; a pool that does not look keeps it.
pub proof fn law_unhealthy_connections_are_closed<C>(
    config: PoolConfig,
    fresh: ConnPool<C>,
    p1: &mut ConnPool<C>,
    p2: &mut ConnPool<C>,
    p3: &mut ConnPool<C>,
    p4: &mut ConnPool<C>,
    p5: &mut ConnPool<C>,
    conn: C,
    made: PooledConn<C>,
    now: u64,
    probe: GetStep<C>,
    healthy: bool,
    step: GetStep<C>,
    stats: PoolStats,
    returned: PoolStats,
)
    requires
        config.max_size > 0,
        call_ensures(ConnPool::<C>::new, (config,), fresh),
        *old(p1) == fresh,
        call_ensures(ConnPool::<C>::connected, (p1, conn, now), made),
        *old(p2) == *final(p1),
        call_ensures(ConnPool::<C>::put, (p2, made, true), ()),
        *old(p3) == *final(p2),
        call_ensures(ConnPool::<C>::get, (p3, now), probe),
        *old(p4) == *final(p3),
        probe matches GetStep::Probe(c) ==> call_ensures(
            ConnPool::<C>::probed,
            (p4, c, healthy, now),
            step,
        ),
        call_ensures(ConnPool::<C>::get_stats, (&*final(p4),), stats),
        *old(p5) == *final(p1),
        call_ensures(ConnPool::<C>::put, (p5, made, false), ()),
        call_ensures(ConnPool::<C>::get_stats, (&*final(p5),), returned),
    ensures
        probe is Probe == config.health_check,
        config.health_check && healthy ==> (step matches GetStep::Reuse(c) && c.conn == conn)
            && stats.total_reused == 1 && stats.current_in_use == 1 && stats.total_closed == 0,
        config.health_check && !healthy ==> step is Connect && stats.total_closed == 1
            && stats.current_in_use == 0 && stats.total_reused == 0,
        config.health_check ==> returned.total_closed == 1 && returned.current_idle == 0,
        !config.health_check ==> returned.total_closed == 0 && returned.current_idle == 1,
        returned.current_in_use == 0,
{
    let held = old(p3)@;
    assert(held.idle =~= seq![made]);
    assert(held.idle.last() == made);
    assert(!held.stale(made, now));
    assert(held.without_stale(now) == held);
    assert(held.idle.drop_last() =~= Seq::<PooledConn<C>>::empty());
    if config.health_check && !healthy {
        let back = crate::pool::PoolView { idle: old(p4)@.idle.push(made), ..old(p4)@ };
        assert(back.idle =~= seq![made]);
        assert(back.latest_closed().idle =~= Seq::<PooledConn<C>>::empty());
        assert(back.latest_closed().without_stale(now) == back.latest_closed());
    }
}

/// No more connections are out than the settings allow: with all of them out the next one
/// has to wait, and one that is given back or given up makes room.
pub proof fn law_connections_are_limited<C>(
    p: &mut ConnPool<C>,
    q: &mut ConnPool<C>,
    r: &mut ConnPool<C>,
    now: u64,
    stats: PoolStats,
    step: GetStep<C>,
    then: GetStep<C>,
)
    requires
        old(p)@.wf(),
        call_ensures(ConnPool::<C>::get_stats, (&*old(p),), stats),
        call_ensures(ConnPool::<C>::get, (p, now), step),
        stats.current_in_use > 0,
        *old(q) == *old(p),
        call_ensures(ConnPool::<C>::forget, (q,), ()),
        *old(r) == *final(q),
        call_ensures(ConnPool::<C>::get, (r, now), then),
    ensures
        stats.current_in_use <= old(p)@.config.max_size,
        step is Wait == (stats.current_in_use == old(p)@.config.max_size),
        !(then is Wait),
{
}

/// Of two connections that came back the later one is handed out first.
pub proof fn law_latest_connection_goes_first<C>(
    p0: &mut ConnPool<C>,
    p1: &mut ConnPool<C>,
    p2: &mut ConnPool<C>,
    a: PooledConn<C>,
    b: PooledConn<C>,
    now: u64,
    step: GetStep<C>,
)
    requires
        old(p0)@.wf(),
        old(p0)@.stats.current_in_use >= 2,
        !old(p0)@.config.health_check,
        a.use_count < u64::MAX,
        b.use_count < u64::MAX,
        call_ensures(ConnPool::<C>::put, (p0, a, true), ()),
        *old(p1) == *final(p0),
        call_ensures(ConnPool::<C>::put, (p1, b, true), ()),
        *old(p2) == *final(p1),
        now >= b.last_used_at && now - b.last_used_at <= old(p0)@.config.max_idle_time_ms,
        now >= b.created_at && now - b.created_at <= old(p0)@.config.max_lifetime_ms,
        call_ensures(ConnPool::<C>::get, (p2, now), step),
    ensures
        step matches GetStep::Reuse(c) && c.conn == b.conn,
{
    let held = old(p2)@;
    assert(held.idle.last() == b);
    assert(!held.stale(b, now));
    assert(held.without_stale(now) == held);
}

/// A connection is past its time exactly where it was idle or alive for longer than it
/// may be.
pub proof fn law_time_of_a_connection<C>(
    conn: PooledConn<C>,
    now: u64,
    idle: u64,
    life: u64,
    b: bool,
)
    requires
        call_ensures(PooledConn::<C>::is_expired, (&conn, now, idle, life), b),
    ensures
        b == (now - conn.last_used_at > idle || now - conn.created_at > life),
{
}

/// Each address has a pool of its own: one that is asked for is there from then on, empty
/// at first, until it is removed, and others are not touched.
pub proof fn law_each_address_has_its_pool<C>(
    config: PoolConfig,
    fresh: PoolManager<C>,
    m0: &mut PoolManager<C>,
    m1: &mut PoolManager<C>,
    m2: &mut PoolManager<C>,
    addr: &str,
    other: &str,
    before: Option<&ConnPool<C>>,
    made: Option<&ConnPool<C>>,
    untouched: Option<&ConnPool<C>>,
    again: Option<&ConnPool<C>>,
    gone: Option<&ConnPool<C>>,
)
    requires
        addr@ != other@,
        call_ensures(PoolManager::<C>::new, (config,), fresh),
        *old(m0) == fresh,
        call_ensures(PoolManager::<C>::get_pool, (&*old(m0), addr), before),
        call_ensures(PoolManager::<C>::get_or_create_pool, (m0, addr), ()),
        call_ensures(PoolManager::<C>::get_pool, (&*final(m0), addr), made),
        call_ensures(PoolManager::<C>::get_pool, (&*final(m0), other), untouched),
        *old(m1) == *final(m0),
        call_ensures(PoolManager::<C>::get_or_create_pool, (m1, addr), ()),
        call_ensures(PoolManager::<C>::get_pool, (&*final(m1), addr), again),
        *old(m2) == *final(m1),
        call_ensures(PoolManager::<C>::remove_pool, (m2, addr), ()),
        call_ensures(PoolManager::<C>::get_pool, (&*final(m2), addr), gone),
    ensures
        before is None,
        made is Some && made->0@.config == config && made->0@.idle.len() == 0,
        untouched is None,
        again == made,
        gone is None,
{
    if untouched is Some {
        assert(final(m0)@.remove(addr@).contains_key(other@));
    }
}

/// A connection that comes back to its address is put into the pool of that address, as
/// into any pool, and no other pool changes.
pub proof fn law_connections_return_to_their_address<C>(
    manager: &mut PoolManager<C>,
    pool: &mut ConnPool<C>,
    addr: &str,
    other: &str,
    conn: PooledConn<C>,
    healthy: bool,
    held: Option<&ConnPool<C>>,
    after: Option<&ConnPool<C>>,
    before_other: Option<&ConnPool<C>>,
    after_other: Option<&ConnPool<C>>,
)
    requires
        old(manager).wf(),
        addr@ != other@,
        call_ensures(PoolManager::<C>::get_pool, (&*old(manager), addr), held),
        held is Some && *held->0 == *old(pool),
        old(pool)@.stats.current_in_use > 0,
        conn.use_count < u64::MAX,
        call_ensures(PoolManager::<C>::get_pool, (&*old(manager), other), before_other),
        call_ensures(PoolManager::<C>::put_back, (manager, addr, conn, healthy), ()),
        call_ensures(ConnPool::<C>::put, (pool, conn, healthy), ()),
        call_ensures(PoolManager::<C>::get_pool, (&*final(manager), addr), after),
        call_ensures(PoolManager::<C>::get_pool, (&*final(manager), other), after_other),
    ensures
        after is Some && after->0@ == final(pool)@,
        before_other == after_other,
{
    assert(old(manager)@.remove(addr@).contains_key(other@) == final(manager)@.remove(
        addr@,
    ).contains_key(other@));
    assert(old(manager)@.contains_key(other@) ==> old(manager)@.remove(addr@)[other@] == final(
        manager)@.remove(addr@)[other@]);
}

/// Closing a pool closes all its idle connections, and counts them.
pub proof fn law_closing_empties_a_pool<C>(
    p: &mut ConnPool<C>,
    before: PoolStats,
    after: PoolStats,
)
    requires
        old(p)@.wf(),
        call_ensures(ConnPool::<C>::get_stats, (&*old(p),), before),
        call_ensures(ConnPool::<C>::close_all, (p,), ()),
        call_ensures(ConnPool::<C>::get_stats, (&*final(p),), after),
    ensures
        final(p)@.idle.len() == 0,
        after.current_idle == 0,
        after.total_closed == before.total_closed + old(p)@.idle.len(),
        after.current_in_use == before.current_in_use,
        after.total_created == before.total_created,
{
}

/// A pool that was taken out is not there until it is put back, and is then as it was put
/// back.
pub proof fn law_pools_are_taken_and_put_back<C>(
    m0: &mut PoolManager<C>,
    m1: &mut PoolManager<C>,
    addr: &str,
    pool: ConnPool<C>,
    held: Option<&ConnPool<C>>,
    taken: Option<ConnPool<C>>,
    between: Option<&ConnPool<C>>,
    back: Option<&ConnPool<C>>,
)
    requires
        old(m0).wf(),
        pool@.wf(),
        call_ensures(PoolManager::<C>::get_pool, (&*old(m0), addr), held),
        call_ensures(PoolManager::<C>::take_pool, (m0, addr), taken),
        call_ensures(PoolManager::<C>::get_pool, (&*final(m0), addr), between),
        *old(m1) == *final(m0),
        call_ensures(PoolManager::<C>::put_pool, (m1, addr, pool), ()),
        call_ensures(PoolManager::<C>::get_pool, (&*final(m1), addr), back),
    ensures
        held is Some == taken is Some,
        held is Some ==> *held->0 == taken->0,
        between is None,
        back == Some(&pool),
{
}

/// Cleaning up all pools cleans up each of them, and gives up none.
pub proof fn law_all_pools_are_cleaned<C>(
    manager: &mut PoolManager<C>,
    pool: &mut ConnPool<C>,
    addr: &str,
    now: u64,
    before: Option<&ConnPool<C>>,
    after: Option<&ConnPool<C>>,
    stats: NameMap<PoolStats>,
    one: PoolStats,
)
    requires
        old(manager).wf(),
        call_ensures(PoolManager::<C>::get_pool, (&*old(manager), addr), before),
        before is Some ==> *before->0 == *old(pool),
        call_ensures(ConnPool::<C>::cleanup, (pool, now), ()),
        call_ensures(ConnPool::<C>::get_stats, (&*final(pool),), one),
        call_ensures(PoolManager::<C>::cleanup_all, (manager, now), ()),
        call_ensures(PoolManager::<C>::get_pool, (&*final(manager), addr), after),
        call_ensures(PoolManager::<C>::get_all_stats, (&*final(manager),), stats),
    ensures
        before is Some == after is Some,
        before is Some ==> after->0@ == final(pool)@,
        stats@.contains_key(addr@) == before is Some,
        before is Some ==> stats@[addr@] == one,
{
    assert(final(manager)@.dom().contains(addr@) == old(manager)@.dom().contains(addr@));
    assert(stats@.dom().contains(addr@) == final(manager)@.dom().contains(addr@));
}

/// A connection that was used is so often used, and idle from then on.
pub proof fn law_use_is_noted<C>(conn: &mut PooledConn<C>, now: u64)
    requires
        old(conn).use_count < u64::MAX,
        call_ensures(PooledConn::<C>::mark_used, (conn, now), ()),
    ensures
        final(conn).use_count == old(conn).use_count + 1,
        final(conn).last_used_at == now,
        final(conn).created_at == old(conn).created_at,
        final(conn).conn == old(conn).conn,
{
}

} // verus!
