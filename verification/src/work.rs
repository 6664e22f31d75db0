//! Work connections, which carry visitors' data from the server to clients: the
//! pool of each proxy, how a visitor gets a connection, and what is done with a
//! connection that a client opened.
use crate::auth::{work_conn_sign, work_conn_text, AuthManager};
use crate::codec::hashable;
use crate::control::ControlManager;
use crate::message::{
    is_req_work_conn, is_start_work_conn, Message, NewWorkConnMsg, ReqWorkConnMsg, StartWorkConnMsg,
};
use crate::metrics::{Counters, MonitorMetrics};
use crate::names::NameMap;
use crate::text::{decimal, push_decimal, same};
use vstd::prelude::*;
use vstd::string::*;

verus! {

/// Requests for work connections that wait to be answered, each with the place to
/// put the connection.
pub struct WorkConnManager<S> {
    pending_conns: NameMap<S>,
}

impl<S> WorkConnManager<S> {
    /// The waiting requests, by proxy.
    pub closed spec fn pending(self) -> Map<Seq<char>, S> {
        self.pending_conns@
    }

    pub fn new() -> (m: Self)
        ensures
            m.pending() == Map::<Seq<char>, S>::empty(),
    {
        WorkConnManager { pending_conns: NameMap::new() }
    }

    /// Waits for a work connection of a proxy, in place of an earlier request.
    pub fn register_pending(&mut self, proxy_name: String, sender: S)
        ensures
            final(self).pending() == old(self).pending().insert(proxy_name@, sender),
    {
        self.pending_conns.insert(proxy_name, sender);
    }

    /// Where a work connection of a proxy is to be put.
    pub fn complete_work_conn(&self, proxy_name: &str) -> (r: Result<&S, String>)
        ensures
            match r {
                Ok(s) => self.pending().contains_key(proxy_name@) && *s
                    == self.pending()[proxy_name@],
                Err(e) => !self.pending().contains_key(proxy_name@) && e@
                    == "No pending work conn request for proxy: "@ + proxy_name@,
            },
    {
        match self.pending_conns.get(proxy_name) {
            Some(s) => Ok(s),
            None => Err(
                "No pending work conn request for proxy: ".to_string().concat(proxy_name),
            ),
        }
    }
}

/// The work connections that wait for visitors, a queue of bounded length for each
/// proxy.
pub struct ServerWorkConnManager<C> {
    pools: NameMap<Vec<C>>,
    pool_size: usize,
}

/// What became of a connection that was put into a pool.
pub enum Registered<C> {
    Pooled,
    /// The pool is full or does not exist: the connection is to be closed.
    Discarded(C),
}

/// The contents of each pool.
pub open spec fn pool_contents<C>(m: Map<Seq<char>, Vec<C>>) -> Map<Seq<char>, Seq<C>> {
    m.map_values(|v: Vec<C>| v@)
}

impl<C> ServerWorkConnManager<C> {
    /// The waiting connections of each proxy, the longest waiting first.
    pub closed spec fn pools(self) -> Map<Seq<char>, Seq<C>> {
        pool_contents(self.pools@)
    }

    /// How many connections a pool holds at most.
    pub closed spec fn size(self) -> usize {
        self.pool_size
    }

    /// No pool holds more connections than it may.
    pub closed spec fn wf(self) -> bool {
        forall|p: Seq<char>|
            #![trigger self.pools@[p]]
            self.pools@.contains_key(p) ==> self.pools@[p]@.len() <= self.pool_size
    }

    /// No pool ever holds more connections than the size that was asked for.
    pub proof fn law_pools_are_bounded(self, proxy: Seq<char>)
        requires
            self.wf(),
            self.pools().contains_key(proxy),
        ensures
            self.pools()[proxy].len() <= self.size(),
    {
        assert(self.pools@[proxy]@.len() <= self.pool_size);
    }

    pub fn new(pool_size: usize) -> (m: Self)
        ensures
            m.wf(),
            m.size() == pool_size,
            m.pools() == Map::<Seq<char>, Seq<C>>::empty(),
    {
        let m = ServerWorkConnManager { pools: NameMap::<Vec<C>>::new(), pool_size };
        assert(m.pools() =~= Map::<Seq<char>, Seq<C>>::empty());
        m
    }

    /// Gives a proxy an empty pool. A pool needs room for a connection.
    pub fn init_pool(&mut self, proxy_name: &str)
        requires
            old(self).wf(),
            old(self).size() > 0,
        ensures
            final(self).wf(),
            final(self).size() == old(self).size(),
            final(self).pools() == old(self).pools().insert(proxy_name@, Seq::<C>::empty()),
    {
        let empty: Vec<C> = Vec::new();
        self.pools.insert(proxy_name.to_string(), empty);
        assert(self.pools() =~= old(self).pools().insert(proxy_name@, Seq::<C>::empty()));
    }

    /// Puts a connection at the end of the pool of its proxy, where there is room.
    pub fn register_work_conn(&mut self, proxy_name: &str, conn: C) -> (r: Registered<C>)
        requires
            old(self).wf(),
        ensures
            final(self).wf(),
            final(self).size() == old(self).size(),
            match r {
                Registered::Pooled => {
                    &&& old(self).pools().contains_key(proxy_name@)
                    &&& old(self).pools()[proxy_name@].len() < old(self).size()
                    &&& final(self).pools() == old(self).pools().insert(
                        proxy_name@,
                        old(self).pools()[proxy_name@].push(conn),
                    )
                },
                Registered::Discarded(c) => {
                    &&& c == conn
                    &&& old(self).pools().contains_key(proxy_name@)
                        ==> old(self).pools()[proxy_name@].len() >= old(self).size()
                    &&& final(self).pools() == old(self).pools()
                },
            },
    {
        let has_room: bool = match self.pools.get(proxy_name) {
            Some(pool) => pool.len() < self.pool_size,
            None => false,
        };
        if !has_room {
            return Registered::Discarded(conn);
        }
        if let Some(pool) = self.pools.remove(proxy_name) {
            let mut pool = pool;
            let ghost before = pool@;
            pool.push(conn);
            self.pools.insert(proxy_name.to_string(), pool);
            assert(self.pools() =~= old(self).pools().insert(proxy_name@, before.push(conn)));
            assert forall|p: Seq<char>|
                #![trigger self.pools@[p]]
                self.pools@.contains_key(p) implies self.pools@[p]@.len() <= self.pool_size by {
                if p != proxy_name@ {
                    assert(old(self).pools@[p]@.len() <= self.pool_size);
                }
            }
        }
        Registered::Pooled
    }

    /// Takes the connection that has waited longest out of a pool.
    pub fn take(&mut self, proxy_name: &str) -> (conn: Option<C>)
        requires
            old(self).wf(),
        ensures
            final(self).wf(),
            final(self).size() == old(self).size(),
            match conn {
                Some(c) => {
                    &&& old(self).pools().contains_key(proxy_name@)
                    &&& old(self).pools()[proxy_name@].len() > 0
                    &&& c == old(self).pools()[proxy_name@][0]
                    &&& final(self).pools() == old(self).pools().insert(
                        proxy_name@,
                        old(self).pools()[proxy_name@].drop_first(),
                    )
                },
                None => {
                    &&& old(self).pools().contains_key(proxy_name@)
                        ==> old(self).pools()[proxy_name@].len() == 0
                    &&& final(self).pools() == old(self).pools()
                },
            },
    {
        let available: bool = match self.pools.get(proxy_name) {
            Some(pool) => pool.len() > 0,
            None => false,
        };
        if !available {
            return None;
        }
        match self.pools.remove(proxy_name) {
            None => None,
            Some(pool) => {
                let mut pool = pool;
                let ghost before = pool@;
                assert(old(self).pools@[proxy_name@]@.len() <= self.pool_size);
                let conn: C = pool.remove(0);
                assert(pool@ =~= before.drop_first());
                self.pools.insert(proxy_name.to_string(), pool);
                assert(self.pools() =~= old(self).pools().insert(proxy_name@, before.drop_first()));
                assert forall|p: Seq<char>|
                    #![trigger self.pools@[p]]
                    self.pools@.contains_key(p) implies self.pools@[p]@.len() <= self.pool_size by {
                    if p != proxy_name@ {
                        assert(old(self).pools@[p]@.len() <= self.pool_size);
                    }
                }
                Some(conn)
            },
        }
    }

    /// Drops the pool of a proxy.
    pub fn remove_pool(&mut self, proxy_name: &str)
        requires
            old(self).wf(),
        ensures
            final(self).wf(),
            final(self).size() == old(self).size(),
            final(self).pools() == old(self).pools().remove(proxy_name@),
    {
        let _ = self.pools.remove(proxy_name);
        assert(self.pools() =~= old(self).pools().remove(proxy_name@));
        assert forall|p: Seq<char>|
            #![trigger self.pools@[p]]
            self.pools@.contains_key(p) implies self.pools@[p]@.len() <= self.pool_size by {
            assert(old(self).pools@[p]@.len() <= self.pool_size);
        }
    }

    /// Begins to fetch a work connection for a visitor.
    pub fn get_work_conn(&self, proxy_name: &str) -> (r: Result<WorkConnFetch, String>)
        requires
            self.size() < usize::MAX,
        ensures
            match r {
                Ok(f) => {
                    &&& self.pools().contains_key(proxy_name@)
                    &&& f.proxy_name@ == proxy_name@
                    &&& f.attempt == 0
                    &&& f.max_retries == self.size() + 1
                    &&& f.last_err@ == Seq::<char>::empty()
                },
                Err(e) => !self.pools().contains_key(proxy_name@) && e@
                    == "Pool not found for proxy: "@ + proxy_name@,
            },
    {
        if !self.pools.contains(proxy_name) {
            return Err("Pool not found for proxy: ".to_string().concat(proxy_name));
        }
        Ok(
            WorkConnFetch {
                proxy_name: proxy_name.to_string(),
                attempt: 0,
                max_retries: self.pool_size + 1,
                last_err: String::new(),
            },
        )
    }
}

/// A visitor that waits for a work connection: connections are tried until one can
/// be started, at most `max_retries` of them.
pub struct WorkConnFetch {
    pub proxy_name: String,
    pub attempt: usize,
    pub max_retries: usize,
    /// Why the last connection could not be started.
    pub last_err: String,
}

/// What has to be done next for a visitor.
pub enum FetchStep<C> {
    /// This message is sent on the connection.
    Start { conn: C, message: Message },
    /// This message is sent to the client, and a connection is waited for.
    Request { message: Message },
    /// The visitor goes away.
    GiveUp { error: String },
}

/// What came of waiting for a connection.
pub enum Awaited<C> {
    Arrived(C),
    Closed,
    TimedOut,
}

impl WorkConnFetch {
    /// The text of giving up after all attempts.
    pub open spec fn exhausted(self) -> Seq<char> {
        "All "@ + decimal(self.max_retries as nat) + " retries exhausted for "@ + self.proxy_name@
            + ": "@ + self.last_err@
    }

    /// What is done with a connection: the client is told whom it serves.
    fn start<C>(conn: C, visitor_ip: &str, visitor_port: u16) -> (step: FetchStep<C>)
        ensures
            step matches FetchStep::Start { conn: c, message } && c == conn && is_start_work_conn(
                message,
                Seq::<char>::empty(),
                visitor_ip@,
                visitor_port,
                "127.0.0.1"@,
            ),
    {
        FetchStep::Start {
            conn,
            message: Message::StartWorkConn(
                StartWorkConnMsg {
                    error: String::new(),
                    src_addr: visitor_ip.to_string(),
                    src_port: visitor_port,
                    dst_addr: "127.0.0.1".to_string(),
                    dst_port: 0,
                },
            ),
        }
    }

    /// The next step: a connection from the pool, where there is one, else a request
    /// for one; the end, where all attempts were made.
    pub fn next<C>(
        &self,
        pools: &mut ServerWorkConnManager<C>,
        visitor_ip: &str,
        visitor_port: u16,
    ) -> (step: FetchStep<C>)
        requires
            old(pools).wf(),
        ensures
            final(pools).wf(),
            final(pools).size() == old(pools).size(),
            match step {
                FetchStep::GiveUp { error } => self.attempt >= self.max_retries && error@
                    == self.exhausted() && final(pools).pools() == old(pools).pools(),
                FetchStep::Start { conn, message } => {
                    &&& self.attempt < self.max_retries
                    &&& old(pools).pools().contains_key(self.proxy_name@)
                    &&& old(pools).pools()[self.proxy_name@].len() > 0
                    &&& conn == old(pools).pools()[self.proxy_name@][0]
                    &&& final(pools).pools() == old(pools).pools().insert(
                        self.proxy_name@,
                        old(pools).pools()[self.proxy_name@].drop_first(),
                    )
                    &&& is_start_work_conn(
                        message,
                        Seq::<char>::empty(),
                        visitor_ip@,
                        visitor_port,
                        "127.0.0.1"@,
                    )
                },
                FetchStep::Request { message } => {
                    &&& self.attempt < self.max_retries
                    &&& old(pools).pools().contains_key(self.proxy_name@)
                        ==> old(pools).pools()[self.proxy_name@].len() == 0
                    &&& is_req_work_conn(message, self.proxy_name@)
                    &&& final(pools).pools() == old(pools).pools()
                },
            },
    {
        if self.attempt >= self.max_retries {
            let mut error: String = "All ".to_string();
            push_decimal(&mut error, self.max_retries as u64);
            error.append(" retries exhausted for ");
            error.append(self.proxy_name.as_str());
            error.append(": ");
            error.append(self.last_err.as_str());
            return FetchStep::GiveUp { error };
        }
        match pools.take(self.proxy_name.as_str()) {
            Some(conn) => Self::start(conn, visitor_ip, visitor_port),
            None => FetchStep::Request {
                message: Message::ReqWorkConn(
                    ReqWorkConnMsg { proxy_name: self.proxy_name.clone() },
                ),
            },
        }
    }

    /// The next step after waiting for a connection.
    pub fn awaited<C>(&self, outcome: Awaited<C>, visitor_ip: &str, visitor_port: u16) -> (step:
        FetchStep<C>)
        ensures
            match outcome {
                Awaited::Arrived(c) => step matches FetchStep::Start { conn, message } && conn == c
                    && is_start_work_conn(
                    message,
                    Seq::<char>::empty(),
                    visitor_ip@,
                    visitor_port,
                    "127.0.0.1"@,
                ),
                Awaited::Closed => step matches FetchStep::GiveUp { error } && error@
                    == "Pool channel closed"@,
                Awaited::TimedOut => step matches FetchStep::GiveUp { error } && error@
                    == "Timeout waiting for work conn for "@ + self.proxy_name@,
            },
    {
        match outcome {
            Awaited::Arrived(conn) => Self::start(conn, visitor_ip, visitor_port),
            Awaited::Closed => FetchStep::GiveUp { error: "Pool channel closed".to_string() },
            Awaited::TimedOut => FetchStep::GiveUp {
                error: "Timeout waiting for work conn for ".to_string().concat(
                    self.proxy_name.as_str(),
                ),
            },
        }
    }

    /// The message that makes up for a connection that was started: the client is
    /// asked for another one.
    pub fn started(&self) -> (message: Message)
        ensures
            is_req_work_conn(message, self.proxy_name@),
    {
        Message::ReqWorkConn(ReqWorkConnMsg { proxy_name: self.proxy_name.clone() })
    }

    /// Counts a connection that could not be started.
    pub fn start_failed(&mut self, error: &str)
        requires
            old(self).attempt < old(self).max_retries,
        ensures
            final(self).proxy_name == old(self).proxy_name,
            final(self).max_retries == old(self).max_retries,
            final(self).attempt == old(self).attempt + 1,
            final(self).last_err@ == "Failed to send StartWorkConn: "@ + error@,
    {
        self.attempt = self.attempt + 1;
        self.last_err = "Failed to send StartWorkConn: ".to_string().concat(error);
    }
}

/// Secret TCP connections, which join two work connections of one proxy.
pub struct StcpBridgeManager<C> {
    bridges: NameMap<Option<C>>,
}

impl<C> StcpBridgeManager<C> {
    /// The bridges that are not complete, each with its first connection, where
    /// that is there.
    pub closed spec fn bridges(self) -> Map<Seq<char>, Option<C>> {
        self.bridges@
    }

    pub fn new() -> (m: Self)
        ensures
            m.bridges() == Map::<Seq<char>, Option<C>>::empty(),
    {
        StcpBridgeManager { bridges: NameMap::new() }
    }

    /// Begins a bridge without connections.
    pub fn create_bridge(&mut self, bridge_id: String)
        ensures
            final(self).bridges() == old(self).bridges().insert(bridge_id@, None),
    {
        self.bridges.insert(bridge_id, None);
    }

    /// Gives a bridge a connection. The first waits; with the second the bridge is
    /// complete, and both are handed out. A connection without a bridge is handed
    /// back.
    pub fn add_conn_and_try_bridge(&mut self, bridge_id: &str, conn: C) -> (r: Result<
        Option<(C, C)>,
        C,
    >)
        ensures
            match r {
                Err(c) => {
                    &&& c == conn
                    &&& !old(self).bridges().contains_key(bridge_id@)
                    &&& final(self).bridges() == old(self).bridges()
                },
                Ok(None) => {
                    &&& old(self).bridges().contains_key(bridge_id@)
                    &&& old(self).bridges()[bridge_id@] is None
                    &&& final(self).bridges() == old(self).bridges().insert(bridge_id@, Some(conn))
                },
                Ok(Some(pair)) => {
                    &&& old(self).bridges().contains_key(bridge_id@)
                    &&& old(self).bridges()[bridge_id@] == Some(pair.0)
                    &&& pair.1 == conn
                    &&& final(self).bridges() == old(self).bridges().remove(bridge_id@)
                },
            },
    {
        match self.bridges.remove(bridge_id) {
            None => {
                assert(self.bridges@ =~= old(self).bridges@);
                Err(conn)
            },
            Some(Some(first)) => Ok(Some((first, conn))),
            Some(None) => {
                self.bridges.insert(bridge_id.to_string(), Some(conn));
                assert(self.bridges@ =~= old(self).bridges@.insert(bridge_id@, Some(conn)));
                Ok(None)
            },
        }
    }

    /// Drops a bridge.
    pub fn cleanup(&mut self, bridge_id: &str)
        ensures
            final(self).bridges() == old(self).bridges().remove(bridge_id@),
    {
        let _ = self.bridges.remove(bridge_id);
    }
}

/// Why a work connection is turned away.
#[derive(Debug, Clone, Copy, PartialEq, Eq, Structural)]
pub enum WorkConnRefusal {
    UnexpectedMessage,
    UnknownRunId,
    SignKeyMismatch,
}

impl WorkConnRefusal {
    /// The text that describes a refusal.
    pub open spec fn spec_message(self) -> Seq<char> {
        match self {
            WorkConnRefusal::UnexpectedMessage => "Unexpected message on work conn"@,
            WorkConnRefusal::UnknownRunId => "Unknown run_id"@,
            WorkConnRefusal::SignKeyMismatch => "Sign key mismatch"@,
        }
    }

    /// The text that describes the refusal.
    pub fn message(&self) -> (text: String)
        ensures
            text@ == self.spec_message(),
    {
        match self {
            WorkConnRefusal::UnexpectedMessage => "Unexpected message on work conn".to_string(),
            WorkConnRefusal::UnknownRunId => "Unknown run_id".to_string(),
            WorkConnRefusal::SignKeyMismatch => "Sign key mismatch".to_string(),
        }
    }

    /// What the client is told; nothing where it did not ask for anything.
    pub open spec fn spec_reply(self) -> Option<Seq<char>> {
        match self {
            WorkConnRefusal::UnexpectedMessage => None,
            WorkConnRefusal::UnknownRunId => Some("Unknown run_id"@),
            WorkConnRefusal::SignKeyMismatch => Some("Sign key verification failed"@),
        }
    }

    /// What the client is told; nothing where it did not ask for anything.
    pub fn reply(&self) -> (reply: Option<Message>)
        ensures
            match self.spec_reply() {
                None => reply is None,
                Some(t) => reply is Some && is_start_work_conn(
                    reply->0,
                    t,
                    Seq::<char>::empty(),
                    0,
                    Seq::<char>::empty(),
                ),
            },
    {
        let error: String = match self {
            WorkConnRefusal::UnexpectedMessage => {
                return None;
            },
            WorkConnRefusal::UnknownRunId => "Unknown run_id".to_string(),
            WorkConnRefusal::SignKeyMismatch => "Sign key verification failed".to_string(),
        };
        Some(
            Message::StartWorkConn(
                StartWorkConnMsg {
                    error,
                    src_addr: String::new(),
                    src_port: 0,
                    dst_addr: String::new(),
                    dst_port: 0,
                },
            ),
        )
    }
}

/// Whether a work connection is admitted: its run is logged in, and its signature is
/// `expected`, where the server can make one.
pub open spec fn admission(
    run_id: Seq<char>,
    sign_key: Seq<char>,
    reachable: Set<Seq<char>>,
    expected: Option<Seq<char>>,
) -> Result<(), WorkConnRefusal> {
    if !reachable.contains(run_id) {
        Err(WorkConnRefusal::UnknownRunId)
    } else if expected is Some && expected->0 != sign_key {
        Err(WorkConnRefusal::SignKeyMismatch)
    } else {
        Ok(())
    }
}

/// Whether a work connection with this announcement is admitted, where the run is
/// known or not and the signature that it should carry is given.
pub fn check_work_conn(sign_key: &str, known: bool, expected: Option<&str>) -> (r: Result<
    (),
    WorkConnRefusal,
>)
    ensures
        r == (if !known {
            Err::<(), WorkConnRefusal>(WorkConnRefusal::UnknownRunId)
        } else if expected is Some && expected->0@ != sign_key@ {
            Err::<(), WorkConnRefusal>(WorkConnRefusal::SignKeyMismatch)
        } else {
            Ok::<(), WorkConnRefusal>(())
        }),
{
    if !known {
        return Err(WorkConnRefusal::UnknownRunId);
    }
    if let Some(e) = expected {
        if !same(e, sign_key) {
            return Err(WorkConnRefusal::SignKeyMismatch);
        }
    }
    Ok(())
}

/// The signature that the work connections of a run should carry, where the server
/// can make one.
pub open spec fn expected_sign(auth: AuthManager, run_id: Seq<char>) -> Option<Seq<char>> {
    match auth.key() {
        Some(k) => Some(work_conn_sign(k, run_id)),
        None => None,
    }
}

/// Whether the announcement of a work connection is accepted.
pub fn admit_work_conn<T>(
    msg: &NewWorkConnMsg,
    controls: &ControlManager<T>,
    auth: &AuthManager,
) -> (r: Result<(), WorkConnRefusal>)
    requires
        auth.wf(),
        hashable(work_conn_text(msg.run_id@)),
    ensures
        r == admission(
            msg.run_id@,
            msg.sign_key@,
            controls.reachable(),
            expected_sign(*auth, msg.run_id@),
        ),
{
    let known: bool = controls.is_reachable(msg.run_id.as_str());
    match auth.generate_work_conn_sign_key(msg.run_id.as_str()) {
        Ok(expected) => check_work_conn(msg.sign_key.as_str(), known, Some(expected.as_str())),
        Err(_) => check_work_conn(msg.sign_key.as_str(), known, None),
    }
}

/// What is done with a work connection.
pub enum WorkConnVerdict<C> {
    /// It is turned away.
    Refused { conn: C, refusal: WorkConnRefusal },
    /// It completes a secret TCP connection: both are told to start, and joined.
    Bridge { first: C, second: C },
    /// It waits for the other half of a secret TCP connection.
    Waiting,
    /// It waits in the pool of its proxy.
    Pooled,
    /// The pool has no room: it is closed.
    Discarded { conn: C },
}

/// What both ends of a secret TCP connection are told before they are joined.
pub fn bridge_start() -> (m: Message)
    ensures
        is_start_work_conn(m, Seq::<char>::empty(), Seq::<char>::empty(), 0, Seq::<char>::empty()),
{
    Message::StartWorkConn(
        StartWorkConnMsg {
            error: String::new(),
            src_addr: String::new(),
            src_port: 0,
            dst_addr: String::new(),
            dst_port: 0,
        },
    )
}

/// What is done with a connection to the work port, and with the bridges and pools.
pub open spec fn work_conn_outcome<C>(
    msg: Message,
    conn: C,
    reachable: Set<Seq<char>>,
    expected: spec_fn(Seq<char>) -> Option<Seq<char>>,
    bridges: Map<Seq<char>, Option<C>>,
    pools: Map<Seq<char>, Seq<C>>,
    size: usize,
    verdict: WorkConnVerdict<C>,
    bridges_after: Map<Seq<char>, Option<C>>,
    pools_after: Map<Seq<char>, Seq<C>>,
) -> bool {
    match msg {
        Message::NewWorkConn(m) => {
            let name = m.proxy_name@;
            match admission(m.run_id@, m.sign_key@, reachable, expected(m.run_id@)) {
                Err(e) => verdict == (WorkConnVerdict::Refused { conn, refusal: e })
                    && bridges_after == bridges && pools_after == pools,
                Ok(_) => if bridges.contains_key(name) {
                    &&& pools_after == pools
                    &&& match bridges[name] {
                        None => verdict is Waiting && bridges_after == bridges.insert(
                            name,
                            Some(conn),
                        ),
                        Some(first) => verdict == (WorkConnVerdict::Bridge { first, second: conn })
                            && bridges_after == bridges.remove(name),
                    }
                } else {
                    &&& bridges_after == bridges
                    &&& if pools.contains_key(name) && pools[name].len() < size {
                        verdict is Pooled && pools_after == pools.insert(
                            name,
                            pools[name].push(conn),
                        )
                    } else {
                        verdict == (WorkConnVerdict::Discarded { conn }) && pools_after == pools
                    }
                },
            }
        },
        _ => verdict == (WorkConnVerdict::Refused {
            conn,
            refusal: WorkConnRefusal::UnexpectedMessage,
        }) && bridges_after == bridges && pools_after == pools,
    }
}

/// Handles a connection to the work port, whose first message is `msg`. Those that
/// reach the pools are counted, also where they find no room.
pub fn process_work_conn<C, T>(
    msg: Message,
    conn: C,
    controls: &ControlManager<T>,
    auth: &AuthManager,
    bridges: &mut StcpBridgeManager<C>,
    pools: &mut ServerWorkConnManager<C>,
    metrics: &mut MonitorMetrics,
) -> (verdict: WorkConnVerdict<C>)
    requires
        auth.wf(),
        old(pools).wf(),
        msg matches Message::NewWorkConn(m) ==> hashable(work_conn_text(m.run_id@)),
    ensures
        final(pools).wf(),
        final(pools).size() == old(pools).size(),
        work_conn_outcome(
            msg,
            conn,
            controls.reachable(),
            |run_id: Seq<char>| expected_sign(*auth, run_id),
            old(bridges).bridges(),
            old(pools).pools(),
            old(pools).size(),
            verdict,
            final(bridges).bridges(),
            final(pools).pools(),
        ),
        final(metrics).same_proxies(*old(metrics)),
        final(metrics).counters() == (if verdict is Pooled || verdict is Discarded {
            (Counters {
                work_conn_total: old(metrics).counters().work_conn_total.wrapping_add(1),
                ..old(metrics).counters()
            })
        } else {
            old(metrics).counters()
        }),
{
    match msg {
        Message::NewWorkConn(m) => {
            if let Err(refusal) = admit_work_conn(&m, controls, auth) {
                return WorkConnVerdict::Refused { conn, refusal };
            }
            match bridges.add_conn_and_try_bridge(m.proxy_name.as_str(), conn) {
                Ok(Some((first, second))) => WorkConnVerdict::Bridge { first, second },
                Ok(None) => WorkConnVerdict::Waiting,
                Err(conn) => {
                    metrics.incr_work_conn_total();
                    match pools.register_work_conn(m.proxy_name.as_str(), conn) {
                        Registered::Pooled => WorkConnVerdict::Pooled,
                        Registered::Discarded(conn) => WorkConnVerdict::Discarded { conn },
                    }
                },
            }
        },
        _ => WorkConnVerdict::Refused { conn, refusal: WorkConnRefusal::UnexpectedMessage },
    }
}

/// How a work connection begins.
#[derive(Debug, Clone, Copy, PartialEq, Eq, Structural)]
pub enum WorkConnClass {
    /// With a TLS handshake, which the server can answer.
    Tls,
    /// In the clear.
    Plain,
    /// In a way that is turned away.
    Reject,
}

/// How a work connection is handled, by its first byte: 0x16 begins a TLS
/// handshake, which needs a certificate; anything else is in the clear, which
/// `tls_only` forbids.
pub open spec fn work_conn_class(
    first_byte: u8,
    tls_available: bool,
    tls_only: bool,
) -> WorkConnClass {
    if first_byte == 0x16 {
        if tls_available {
            WorkConnClass::Tls
        } else {
            WorkConnClass::Reject
        }
    } else if tls_only {
        WorkConnClass::Reject
    } else {
        WorkConnClass::Plain
    }
}

/// How a work connection is handled, by its first byte.
pub fn classify_work_conn(first_byte: u8, tls_available: bool, tls_only: bool) -> (c: WorkConnClass)
    ensures
        c == work_conn_class(first_byte, tls_available, tls_only),
{
    if first_byte == 0x16 {
        if tls_available {
            WorkConnClass::Tls
        } else {
            WorkConnClass::Reject
        }
    } else if tls_only {
        WorkConnClass::Reject
    } else {
        WorkConnClass::Plain
    }
}

/// Where a server insists on encryption, no work connection is served in the clear.
pub proof fn law_tls_only_rejects_plaintext(first_byte: u8, tls_available: bool)
    ensures
        work_conn_class(first_byte, tls_available, true) != WorkConnClass::Plain,
        work_conn_class(first_byte, tls_available, true) == WorkConnClass::Tls ==> tls_available,
{
}

/// The pools after `n` connections were taken for a proxy.
pub open spec fn after_taking<C>(
    pools: Map<Seq<char>, Seq<C>>,
    proxy: Seq<char>,
    n: nat,
) -> Map<Seq<char>, Seq<C>>
    decreases n,
{
    if n == 0 {
        pools
    } else {
        let before = after_taking(pools, proxy, (n - 1) as nat);
        before.insert(proxy, before[proxy].drop_first())
    }
}

/// A connection that was pooled is handed out after exactly those that waited before
/// it.
pub proof fn law_pool_is_first_in_first_out<C>(
    pools: Map<Seq<char>, Seq<C>>,
    proxy: Seq<char>,
    conn: C,
    n: nat,
)
    requires
        pools.contains_key(proxy),
        n <= pools[proxy].len(),
    ensures
        ({
            let pooled = pools.insert(proxy, pools[proxy].push(conn));
            let next = after_taking(pooled, proxy, n)[proxy][0];
            if n < pools[proxy].len() {
                next == pools[proxy][n as int]
            } else {
                next == conn
            }
        }),
{
    let pooled = pools.insert(proxy, pools[proxy].push(conn));
    lemma_after_taking(pooled, proxy, n);
}

proof fn lemma_after_taking<C>(pools: Map<Seq<char>, Seq<C>>, proxy: Seq<char>, n: nat)
    requires
        pools.contains_key(proxy),
        n <= pools[proxy].len(),
    ensures
        after_taking(pools, proxy, n)[proxy] == pools[proxy].skip(n as int),
    decreases n,
{
    if n == 0 {
        assert(pools[proxy].skip(0) =~= pools[proxy]);
    } else {
        lemma_after_taking(pools, proxy, (n - 1) as nat);
        assert(pools[proxy].skip(n - 1).drop_first() =~= pools[proxy].skip(n as int));
    }
}

/// Where the server has a token, a client that is logged in is admitted exactly with
/// the signature that the token gives: another one, or none, is turned away.
pub proof fn law_signature_decides(
    auth: AuthManager,
    run_id: Seq<char>,
    sign_key: Seq<char>,
    reachable: Set<Seq<char>>,
)
    requires
        reachable.contains(run_id),
        auth.key() is Some,
    ensures
        admission(run_id, sign_key, reachable, expected_sign(auth, run_id)) is Ok == (sign_key
            == work_conn_sign(auth.key()->0, run_id)),
{
}

} // verus!
