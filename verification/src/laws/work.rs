//! Work connections: from a client to the visitor that they serve.
use crate::auth::{work_conn_text, AuthManager};
use crate::client::ClientError;
use crate::codec::hashable;
use crate::config::ProxyConfig;
use crate::control::ControlManager;
use crate::link::{check_start_answer, proxy_header, Visitor};
use crate::message::{Message, NewWorkConnMsg};
use crate::metrics::MonitorMetrics;
use crate::text::decimal;
use crate::work::{
    admit_work_conn, bridge_start, classify_work_conn, process_work_conn, Awaited, FetchStep,
    Registered, ServerWorkConnManager, StcpBridgeManager, WorkConnClass, WorkConnFetch,
    WorkConnManager, WorkConnRefusal, WorkConnVerdict,
};
use vstd::prelude::*;
use vstd::string::*;

verus! {

/// A connection that a client put into an empty pool serves the next visitor of its
/// proxy; the client is told who that is, and takes it so.
pub proof fn law_pooled_connection_serves_a_visitor<C>(
    opened: &mut ServerWorkConnManager<C>,
    filled: &mut ServerWorkConnManager<C>,
    used: &mut ServerWorkConnManager<C>,
    name: &str,
    conn: C,
    registered: Registered<C>,
    fetch: Result<WorkConnFetch, String>,
    ip: &str,
    port: u16,
    step: FetchStep<C>,
    understood: Result<Visitor, ClientError>,
)
    requires
        old(opened).wf(),
        0 < old(opened).size() < usize::MAX,
        call_ensures(ServerWorkConnManager::<C>::init_pool, (opened, name), ()),
        *old(filled) == *final(opened),
        call_ensures(
            ServerWorkConnManager::<C>::register_work_conn,
            (filled, name, conn),
            registered,
        ),
        call_ensures(
            ServerWorkConnManager::<C>::get_work_conn,
            (&*final(filled), name),
            fetch,
        ),
        *old(used) == *final(filled),
        fetch is Ok ==> call_ensures(
            WorkConnFetch::next::<C>,
            (&fetch->Ok_0, used, ip, port),
            step,
        ),
        step matches FetchStep::Start { message, .. } ==> call_ensures(
            check_start_answer,
            (message,),
            understood,
        ),
    ensures
        registered is Pooled,
        fetch is Ok,
        step matches FetchStep::Start { conn: c, .. } && c == conn,
        understood matches Ok(v) && v.addr@ == ip@ && v.port == port,
{
    assert(final(opened).pools()[name@].len() == 0);
    assert(final(filled).pools()[name@] =~= seq![conn]);
}

/// Connections of a proxy are handed out in the order in which they came, each once.
pub proof fn law_connections_are_handed_out_in_order<C>(
    m0: &mut ServerWorkConnManager<C>,
    m1: &mut ServerWorkConnManager<C>,
    m2: &mut ServerWorkConnManager<C>,
    m3: &mut ServerWorkConnManager<C>,
    m4: &mut ServerWorkConnManager<C>,
    m5: &mut ServerWorkConnManager<C>,
    name: &str,
    first: C,
    second: C,
    a: Option<C>,
    b: Option<C>,
    c: Option<C>,
)
    requires
        old(m0).wf(),
        old(m0).size() > 0,
        call_ensures(ServerWorkConnManager::<C>::init_pool, (m0, name), ()),
        *old(m1) == *final(m0),
        call_ensures(
            ServerWorkConnManager::<C>::register_work_conn,
            (m1, name, first),
            Registered::Pooled,
        ),
        *old(m2) == *final(m1),
        call_ensures(
            ServerWorkConnManager::<C>::register_work_conn,
            (m2, name, second),
            Registered::Pooled,
        ),
        *old(m3) == *final(m2),
        call_ensures(ServerWorkConnManager::<C>::take, (m3, name), a),
        *old(m4) == *final(m3),
        call_ensures(ServerWorkConnManager::<C>::take, (m4, name), b),
        *old(m5) == *final(m4),
        call_ensures(ServerWorkConnManager::<C>::take, (m5, name), c),
    ensures
        a == Some(first),
        b == Some(second),
        c is None,
{
    assert(final(m2).pools()[name@] =~= seq![first, second]);
    assert(final(m3).pools()[name@] =~= seq![second]);
    assert(final(m4).pools()[name@] =~= Seq::<C>::empty());
}

/// A connection of one proxy is never handed out for another, and a pool that does not
/// exist takes none in.
pub proof fn law_pools_are_apart<C>(
    m0: &mut ServerWorkConnManager<C>,
    m1: &mut ServerWorkConnManager<C>,
    m2: &mut ServerWorkConnManager<C>,
    name: &str,
    other: &str,
    conn: C,
    registered: Registered<C>,
    without: Option<C>,
    with: Option<C>,
    fetch: Result<WorkConnFetch, String>,
)
    requires
        old(m0).wf(),
        name@ != other@,
        call_ensures(
            ServerWorkConnManager::<C>::register_work_conn,
            (m0, name, conn),
            registered,
        ),
        *old(m1) == *final(m0),
        call_ensures(ServerWorkConnManager::<C>::take, (m1, other), with),
        *old(m2) == *old(m0),
        call_ensures(ServerWorkConnManager::<C>::take, (m2, other), without),
        old(m0).size() < usize::MAX,
        call_ensures(ServerWorkConnManager::<C>::get_work_conn, (&*old(m0), name), fetch),
    ensures
        with == without,
        fetch is Err ==> (registered matches Registered::Discarded(c) && c == conn),
{
}

/// A pool takes as many connections in as its size allows and closes those that come
/// after: with room for one, the second is handed back.
pub proof fn law_full_pool_closes<C>(
    fresh: ServerWorkConnManager<C>,
    m0: &mut ServerWorkConnManager<C>,
    m1: &mut ServerWorkConnManager<C>,
    m2: &mut ServerWorkConnManager<C>,
    name: &str,
    first: C,
    second: C,
    a: Registered<C>,
    b: Registered<C>,
    size: usize,
)
    requires
        size > 0,
        call_ensures(ServerWorkConnManager::<C>::new, (size,), fresh),
        *old(m0) == fresh,
        call_ensures(ServerWorkConnManager::<C>::init_pool, (m0, name), ()),
        *old(m1) == *final(m0),
        call_ensures(ServerWorkConnManager::<C>::register_work_conn, (m1, name, first), a),
        *old(m2) == *final(m1),
        call_ensures(ServerWorkConnManager::<C>::register_work_conn, (m2, name, second), b),
    ensures
        a is Pooled,
        size == 1 ==> (b matches Registered::Discarded(c) && c == second),
        size > 1 ==> b is Pooled,
{
    assert(final(m0).pools()[name@].len() == 0);
    assert(final(m1).pools()[name@] =~= seq![first]);
}

/// The two connections of a secret bridge are joined: the first waits, the second
/// completes the bridge, and a third finds none.
pub proof fn law_bridge_joins_two<C>(
    m0: &mut StcpBridgeManager<C>,
    m1: &mut StcpBridgeManager<C>,
    m2: &mut StcpBridgeManager<C>,
    m3: &mut StcpBridgeManager<C>,
    id: String,
    name: &str,
    first: C,
    second: C,
    third: C,
    a: Result<Option<(C, C)>, C>,
    b: Result<Option<(C, C)>, C>,
    c: Result<Option<(C, C)>, C>,
)
    requires
        id@ == name@,
        call_ensures(StcpBridgeManager::<C>::create_bridge, (m0, id), ()),
        *old(m1) == *final(m0),
        call_ensures(StcpBridgeManager::<C>::add_conn_and_try_bridge, (m1, name, first), a),
        *old(m2) == *final(m1),
        call_ensures(StcpBridgeManager::<C>::add_conn_and_try_bridge, (m2, name, second), b),
        *old(m3) == *final(m2),
        call_ensures(StcpBridgeManager::<C>::add_conn_and_try_bridge, (m3, name, third), c),
    ensures
        a == Ok::<Option<(C, C)>, C>(None),
        b == Ok::<Option<(C, C)>, C>(Some((first, second))),
        c == Err::<Option<(C, C)>, C>(third),
{
}

/// A bridge that was dropped joins nothing.
pub proof fn law_dropped_bridge_joins_nothing<C>(
    m0: &mut StcpBridgeManager<C>,
    m1: &mut StcpBridgeManager<C>,
    name: &str,
    conn: C,
    r: Result<Option<(C, C)>, C>,
)
    requires
        call_ensures(StcpBridgeManager::<C>::cleanup, (m0, name), ()),
        *old(m1) == *final(m0),
        call_ensures(StcpBridgeManager::<C>::add_conn_and_try_bridge, (m1, name, conn), r),
    ensures
        r == Err::<Option<(C, C)>, C>(conn),
{
}

/// A connection to the work port is turned away where its announcement is not accepted;
/// where it is, the bridge of its proxy comes before the pool, and what they do with it is
/// done.
pub proof fn law_work_port<C, T>(
    announced: NewWorkConnMsg,
    conn: C,
    controls: ControlManager<T>,
    auth: AuthManager,
    admitted: Result<(), WorkConnRefusal>,
    bridges: &mut StcpBridgeManager<C>,
    pools: &mut ServerWorkConnManager<C>,
    metrics: &mut MonitorMetrics,
    verdict: WorkConnVerdict<C>,
    alone: &mut StcpBridgeManager<C>,
    name: &str,
    bridged: Result<Option<(C, C)>, C>,
    pool: &mut ServerWorkConnManager<C>,
    pooled: Registered<C>,
)
    requires
        auth.wf(),
        old(pools).wf(),
        hashable(work_conn_text(announced.run_id@)),
        call_ensures(admit_work_conn::<T>, (&announced, &controls, &auth), admitted),
        call_ensures(
            process_work_conn::<C, T>,
            (
                Message::NewWorkConn(announced),
                conn,
                &controls,
                &auth,
                bridges,
                pools,
                metrics,
            ),
            verdict,
        ),
        *old(alone) == *old(bridges),
        name@ == announced.proxy_name@,
        call_ensures(StcpBridgeManager::<C>::add_conn_and_try_bridge, (alone, name, conn), bridged),
        *old(pool) == *old(pools),
        call_ensures(ServerWorkConnManager::<C>::register_work_conn, (pool, name, conn), pooled),
    ensures
        admitted matches Err(refusal) ==> verdict == (WorkConnVerdict::Refused { conn, refusal }),
        admitted is Err ==> final(pools).pools() == old(pools).pools() && final(bridges).bridges()
            == old(bridges).bridges(),
        admitted is Ok ==> match bridged {
            Ok(Some(pair)) => verdict == (WorkConnVerdict::Bridge { first: pair.0, second: pair.1 }),
            Ok(None) => verdict is Waiting,
            Err(_) => match pooled {
                Registered::Pooled => verdict is Pooled && final(pools).pools() == final(pool).pools(),
                Registered::Discarded(c) => verdict == (WorkConnVerdict::Discarded { conn: c }),
            },
        },
        admitted is Ok ==> final(bridges).bridges() == final(alone).bridges(),
        admitted is Ok && bridged is Err ==> final(metrics).counters().work_conn_total == old(metrics).counters().work_conn_total.wrapping_add(1),
{
}

/// A client whose work connection is refused does not take the answer for a visitor.
pub proof fn law_refusal_is_understood(
    refusal: WorkConnRefusal,
    reply: Option<Message>,
    understood: Result<Visitor, ClientError>,
)
    requires
        call_ensures(WorkConnRefusal::reply, (&refusal,), reply),
        reply is Some ==> call_ensures(check_start_answer, (reply->0,), understood),
        !(refusal is UnexpectedMessage),
    ensures
        reply is Some,
        understood is Err,
{
    reveal_strlit("Unknown run_id");
    reveal_strlit("Sign key verification failed");
}

/// Both ends of a secret connection take the word to start for what it is.
pub proof fn law_bridge_start_is_understood(
    start: Message,
    understood: Result<Visitor, ClientError>,
)
    requires
        call_ensures(bridge_start, (), start),
        call_ensures(check_start_answer, (start,), understood),
    ensures
        understood matches Ok(v) && v.addr@.len() == 0 && v.port == 0,
{
}

/// A visitor waits for a connection of its proxy: one is asked for where none is there,
/// one that comes is used for this visitor, and each that could not be started is followed
/// by another, up to the number that the pool gives.
pub proof fn law_visitor_is_fetched_for<C>(
    pools: &mut ServerWorkConnManager<C>,
    fetch: &mut WorkConnFetch,
    error: &str,
    ip: &str,
    port: u16,
    step: FetchStep<C>,
    outcome: Awaited<C>,
    then: FetchStep<C>,
    again: Message,
)
    requires
        old(pools).wf(),
        call_ensures(WorkConnFetch::next::<C>, (&*old(fetch), pools, ip, port), step),
        call_ensures(WorkConnFetch::awaited::<C>, (&*old(fetch), outcome, ip, port), then),
        call_ensures(WorkConnFetch::started, (&*old(fetch),), again),
        old(fetch).attempt < old(fetch).max_retries ==> call_ensures(
            WorkConnFetch::start_failed,
            (fetch, error),
            (),
        ),
    ensures
        step is GiveUp == (old(fetch).attempt >= old(fetch).max_retries),
        step matches FetchStep::Request { message } ==> (message matches Message::ReqWorkConn(m)
            && m.proxy_name@ == old(fetch).proxy_name@),
        again matches Message::ReqWorkConn(m) && m.proxy_name@ == old(fetch).proxy_name@,
        outcome matches Awaited::Arrived(c) ==> (then matches FetchStep::Start { conn, message }
            && conn == c && (message matches Message::StartWorkConn(m) && m.error@.len() == 0
            && m.src_addr@ == ip@ && m.src_port == port)),
        !(outcome is Arrived) ==> then is GiveUp,
        old(fetch).attempt < old(fetch).max_retries ==> final(fetch).attempt == old(fetch).attempt
            + 1 && final(fetch).proxy_name@ == old(fetch).proxy_name@,
{
}

/// A visitor gets one attempt more than the pool has room for connections.
pub proof fn law_attempts<C>(
    size: usize,
    fresh: ServerWorkConnManager<C>,
    pools: &mut ServerWorkConnManager<C>,
    name: &str,
    fetch: Result<WorkConnFetch, String>,
)
    requires
        0 < size < usize::MAX,
        call_ensures(ServerWorkConnManager::<C>::new, (size,), fresh),
        *old(pools) == fresh,
        call_ensures(ServerWorkConnManager::<C>::init_pool, (pools, name), ()),
        call_ensures(ServerWorkConnManager::<C>::get_work_conn, (&*final(pools), name), fetch),
    ensures
        fetch matches Ok(f) && f.attempt == 0 && f.max_retries == size + 1 && f.proxy_name@ == name@,
{
}

/// A connection whose first byte begins a TLS handshake is answered in TLS where the
/// server can and turned away where it cannot; any other is in the clear, which a server
/// that insists on encryption turns away.
pub proof fn law_first_byte(first: u8, available: bool, only: bool, class: WorkConnClass)
    requires
        call_ensures(classify_work_conn, (first, available, only), class),
    ensures
        first == 0x16 && available ==> class is Tls,
        first == 0x16 && !available ==> class is Reject,
        first != 0x16 && only ==> class is Reject,
        first != 0x16 && !only ==> class is Plain,
{
}

/// A local service that asks for it is told whom it serves: the visitor's address and
/// port, and its own.
pub proof fn law_service_is_told_its_visitor(
    proxy: ProxyConfig,
    visitor: Visitor,
    header: Option<String>,
)
    requires
        call_ensures(proxy_header, (&proxy, &visitor), header),
    ensures
        header is Some == (proxy.proxy_protocol == Some(true) && visitor.port > 0),
        header is Some ==> header->0@ == "PROXY TCP4 "@ + visitor.addr@ + " "@ + proxy.local_ip@
            + " "@ + decimal(visitor.port as nat) + " "@ + decimal(proxy.local_port as nat)
            + "\r\n"@,
{
}

/// What was asked for is put where the latest request for it waits.
pub proof fn law_latest_request_is_answered<S>(
    m0: &mut WorkConnManager<S>,
    name: String,
    key: &str,
    other: &str,
    sender: S,
    r: Result<&S, String>,
    before: Result<&S, String>,
    after: Result<&S, String>,
)
    requires
        key@ == name@,
        other@ != name@,
        call_ensures(WorkConnManager::<S>::register_pending, (m0, name, sender), ()),
        call_ensures(WorkConnManager::<S>::complete_work_conn, (&*final(m0), key), r),
        call_ensures(WorkConnManager::<S>::complete_work_conn, (&*old(m0), other), before),
        call_ensures(WorkConnManager::<S>::complete_work_conn, (&*final(m0), other), after),
    ensures
        r == Ok::<&S, String>(&sender),
        before is Ok == after is Ok,
        before is Ok ==> after == before,
{
}

/// A visitor that is given up on is told why: all attempts failed, the last one with its
/// error, or nothing came in time.
pub proof fn law_visitors_are_told_why<C>(
    pools: &mut ServerWorkConnManager<C>,
    fetch: WorkConnFetch,
    ip: &str,
    port: u16,
    step: FetchStep<C>,
    late: FetchStep<C>,
    failing: &mut WorkConnFetch,
    error: &str,
)
    requires
        old(pools).wf(),
        call_ensures(WorkConnFetch::next::<C>, (&fetch, pools, ip, port), step),
        call_ensures(WorkConnFetch::awaited::<C>, (&fetch, Awaited::TimedOut, ip, port), late),
        call_ensures(WorkConnFetch::start_failed, (failing, error), ()),
    ensures
        step matches FetchStep::GiveUp { error: e } ==> e@ == "All "@ + decimal(
            fetch.max_retries as nat,
        ) + " retries exhausted for "@ + fetch.proxy_name@ + ": "@ + fetch.last_err@,
        late matches FetchStep::GiveUp { error: e } && e@ == "Timeout waiting for work conn for "@
            + fetch.proxy_name@,
        final(failing).last_err@ == "Failed to send StartWorkConn: "@ + error@,
{
}

/// A pool that was dropped has no connections, and visitors of its proxy find none.
pub proof fn law_dropped_pools_have_no_connections<C>(
    m0: &mut ServerWorkConnManager<C>,
    m1: &mut ServerWorkConnManager<C>,
    name: &str,
    conn: Option<C>,
    fetch: Result<WorkConnFetch, String>,
)
    requires
        old(m0).wf(),
        old(m0).size() < usize::MAX,
        call_ensures(ServerWorkConnManager::<C>::remove_pool, (m0, name), ()),
        call_ensures(ServerWorkConnManager::<C>::get_work_conn, (&*final(m0), name), fetch),
        *old(m1) == *final(m0),
        call_ensures(ServerWorkConnManager::<C>::take, (m1, name), conn),
    ensures
        conn is None,
        fetch matches Err(e) && e@ == "Pool not found for proxy: "@ + name@,
{
}

} // verus!
