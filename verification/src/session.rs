//! The control connection of one client, as the server sees it: login, heartbeats,
//! the client's proxies and the messages that are passed on to other clients.
use crate::auth::{admits_visitor, visitor_accepted, AuthError, AuthManager, AuthVerifier};
use crate::codec::{hashable, quoted, quoted_of};
use crate::config::{text_values, ProxyConfig};
use crate::control::{ClientInfo, ControlManager};
use crate::message::{
    is_login_resp, is_nat_info, is_register_resp, is_req_work_conn, is_status_resp, is_stcp_resp,
    says_running, LoginRespMsg, Message, PongMsg, ProxyManager, ProxyStatusRespMsg,
    RegisterProxyRespMsg, ReqWorkConnMsg, StcpVisitorMsg, StcpVisitorRespMsg, XtcpNatInfoMsg,
};
use crate::metrics::{without_names, Counters, MonitorMetrics};
use crate::names::NameMap;
use crate::proxies::{ProxyRefusal, ServerProxyManager, StartAction, StopAction};
use crate::text::{same, texts};
use crate::work::{ServerWorkConnManager, StcpBridgeManager};
use vstd::prelude::*;
use vstd::string::*;

verus! {

/// A client that was silent for longer than this many milliseconds is gone.
pub const HEARTBEAT_TIMEOUT_MS: u64 = 90_000;

/// What all control connections of a server share. `C` is a connection and `T` a
/// channel to a client.
pub struct ServerState<C, T> {
    pub proxies: ServerProxyManager,
    /// The run that registered each proxy.
    pub owners: NameMap<String>,
    /// The run that asked last for a peer-to-peer connection to each proxy.
    pub xtcp_visitors: NameMap<String>,
    pub controls: ControlManager<T>,
    pub bridges: StcpBridgeManager<C>,
    pub pools: ServerWorkConnManager<C>,
    pub metrics: MonitorMetrics,
}

impl<C, T> ServerState<C, T> {
    pub open spec fn wf(self) -> bool {
        self.proxies.wf() && self.pools.wf()
    }
}

/// Why a client is not logged in.
#[derive(Debug)]
pub enum LoginRefusal {
    Auth { error: AuthError },
    UnexpectedMessage,
}

impl LoginRefusal {
    /// What the client is told: why it is not logged in; nothing where it did not ask
    /// to be.
    pub fn reply(&self) -> (reply: Option<Message>)
        ensures
            match self {
                LoginRefusal::Auth { error } => reply is Some && is_login_resp(
                    reply->0,
                    "0.1.0"@,
                    Seq::<char>::empty(),
                    error.spec_message(),
                    false,
                ),
                LoginRefusal::UnexpectedMessage => reply is None,
            },
    {
        match self {
            LoginRefusal::Auth { error } => Some(
                Message::LoginResp(
                    LoginRespMsg {
                        version: "0.1.0".to_string(),
                        run_id: String::new(),
                        error: error.message(),
                        work_conn_tls: false,
                    },
                ),
            ),
            LoginRefusal::UnexpectedMessage => None,
        }
    }
}

/// What has to be done after a message.
pub enum ControlAction {
    /// This is sent to the client.
    Send { message: Message },
    /// This is sent to the client of another run, where it can be reached.
    Relay { run_id: String, message: Message },
    /// This proxy is added, and the outcome reported.
    AddProxy { config: ProxyConfig },
    /// This datagram is sent to a visitor of a UDP proxy.
    SendUdp { proxy_name: String, data: Vec<u8>, addr: String },
}

/// What has to be done after a message, and what stopping the client's proxies
/// takes where the connection ends.
pub struct ControlStep {
    pub actions: Vec<ControlAction>,
    pub closed: Option<Vec<StopAction>>,
}

/// The control connection of one client. Times are milliseconds on a clock that
/// never runs back.
pub struct Control {
    pub run_id: String,
    pub user: String,
    pub client_id: String,
    pub pool_count: u32,
    pub last_heartbeat: u64,
    pub registered_proxies: Vec<String>,
    pub work_conn_tls: bool,
}

/// `action` sends this to the client of `run_id`.
pub open spec fn relays_nat_info(
    action: ControlAction,
    run_id: Seq<char>,
    from: Seq<char>,
    info: XtcpNatInfoMsg,
) -> bool {
    action matches ControlAction::Relay { run_id: r, message } && r@ == run_id && is_nat_info(
        message,
        info.proxy_name@,
        from,
        info.nat_type@,
        info.local_addr@,
        info.public_addr@,
    )
}

/// `action` answers a secret TCP visitor.
pub open spec fn answers_stcp(
    action: ControlAction,
    name: Seq<char>,
    error: Seq<char>,
    visitor: Seq<char>,
) -> bool {
    action matches ControlAction::Send { message } && is_stcp_resp(message, name, error, visitor)
}

/// `action` asks the client of `run_id` for a work connection.
pub open spec fn requests_work_conn(
    action: ControlAction,
    run_id: Seq<char>,
    name: Seq<char>,
) -> bool {
    action matches ControlAction::Relay { run_id: r, message } && r@ == run_id && is_req_work_conn(
        message,
        name,
    )
}

/// Whether the client of `run_id` may visit a proxy: a client registered it, and the
/// visitor signed with its secret, where it has one.
pub open spec fn may_visit(
    m: StcpVisitorMsg,
    run_id: Seq<char>,
    secrets: spec_fn(Seq<char>) -> Option<Seq<char>>,
    owners: Map<Seq<char>, Seq<char>>,
) -> bool {
    owners.contains_key(m.proxy_name@) && visitor_accepted(
        secrets(m.proxy_name@),
        run_id,
        m.timestamp,
        m.sign_key@,
    )
}

/// What a message makes the server do, as far as it depends on who owns proxies,
/// what their secrets are and who visits them.
pub open spec fn actions_for(
    msg: Message,
    run_id: Seq<char>,
    registered: spec_fn(Seq<char>) -> bool,
    secrets: spec_fn(Seq<char>) -> Option<Seq<char>>,
    owners: Map<Seq<char>, Seq<char>>,
    visitors: Map<Seq<char>, Seq<char>>,
    actions: Seq<ControlAction>,
) -> bool {
    match msg {
        Message::Ping(m) => actions.len() == 1 && (actions[0] matches ControlAction::Send {
            message: Message::Pong(p),
        } && p.timestamp == m.timestamp),
        Message::RegisterProxy(m) => actions == seq![ControlAction::AddProxy { config: m.proxy }],
        Message::ProxyStatus(m) => actions.len() == 1 && (actions[0] matches ControlAction::Send {
            message,
        } && is_status_resp(
            message,
            m.name@,
            if registered(m.name@) {
                "running"@
            } else {
                "unknown"@
            },
            Seq::<char>::empty(),
        )),
        Message::UdpPacket(m) => match m.client_addr {
            None => actions.len() == 0,
            Some(addr) => actions == seq![
                ControlAction::SendUdp { proxy_name: m.proxy_name, data: m.data, addr },
            ],
        },
        Message::StcpVisitor(m) => {
            let name = m.proxy_name@;
            if !owners.contains_key(name) {
                actions.len() == 1 && answers_stcp(actions[0], name, "proxy not found"@, run_id)
            } else if !may_visit(m, run_id, secrets, owners) {
                actions.len() == 1 && answers_stcp(actions[0], name, "secret key mismatch"@, run_id)
            } else {
                &&& actions.len() == 3
                &&& requests_work_conn(actions[0], owners[name], name)
                &&& requests_work_conn(actions[1], run_id, name)
                &&& answers_stcp(actions[2], name, Seq::<char>::empty(), run_id)
            }
        },
        Message::XtcpNatInfo(m) => {
            let name = m.proxy_name@;
            if !owners.contains_key(name) {
                actions.len() == 0
            } else if owners[name] != run_id {
                actions.len() == 1 && relays_nat_info(actions[0], owners[name], run_id, m)
            } else if visitors.contains_key(name) {
                actions.len() == 1 && relays_nat_info(actions[0], visitors[name], run_id, m)
            } else {
                actions.len() == 0
            }
        },
        Message::XtcpHolePunch(m) => actions.len() == 1 && (actions[0] matches ControlAction::Relay {
            run_id: r,
            message,
        } && r@ == m.to_run_id@ && message == msg),
        _ => actions.len() == 0,
    }
}

proof fn lemma_remove_one_more<V>(m: Map<Seq<char>, V>, names: Seq<Seq<char>>, i: int)
    requires
        0 <= i < names.len(),
    ensures
        m.remove_keys(names.take(i + 1).to_set()) == m.remove_keys(
            names.take(i).to_set(),
        ).remove(names[i]),
{
    let upto = names.take(i + 1);
    let before = names.take(i);
    assert forall|n: Seq<char>| upto.to_set().contains(n) == before.to_set().insert(
        names[i],
    ).contains(n) by {
        if upto.contains(n) {
            let k = upto.index_of(n);
            if k < i {
                assert(before[k] == n);
            }
        }
        if before.contains(n) {
            let k = before.index_of(n);
            assert(upto[k] == n);
        }
        assert(upto[i] == names[i]);
    }
    assert(m.remove_keys(upto.to_set()) =~= m.remove_keys(before.to_set()).remove(names[i]));
}

impl Control {
    /// The connection of a client that has not logged in.
    pub fn new(work_conn_tls: bool, now: u64) -> (c: Self)
        ensures
            c.run_id@ == Seq::<char>::empty(),
            c.user@ == Seq::<char>::empty(),
            c.client_id@ == Seq::<char>::empty(),
            c.pool_count == 0,
            c.last_heartbeat == now,
            c.registered_proxies@.len() == 0,
            c.work_conn_tls == work_conn_tls,
    {
        Control {
            run_id: String::new(),
            user: String::new(),
            client_id: String::new(),
            pool_count: 0,
            last_heartbeat: now,
            registered_proxies: Vec::new(),
            work_conn_tls,
        }
    }

    /// Handles the first message of a client, which has to be a login that the
    /// server accepts. `unix_time` is in seconds.
    pub fn login<C, T>(
        &mut self,
        state: &mut ServerState<C, T>,
        msg: Message,
        auth: &AuthManager,
        unix_time: i64,
        now: u64,
    ) -> (r: Result<Message, LoginRefusal>)
        requires
            auth.wf(),
            msg matches Message::Login(l) ==> hashable(l.token@),
        ensures
            final(state).proxies == old(state).proxies,
            final(state).owners == old(state).owners,
            final(state).xtcp_visitors == old(state).xtcp_visitors,
            final(state).bridges == old(state).bridges,
            final(state).pools == old(state).pools,
            final(state).controls.channels() == old(state).controls.channels(),
            final(state).metrics.same_proxies(old(state).metrics),
            match msg {
                Message::Login(l) => if auth.login_check().accepts(l.token@, unix_time) {
                    &&& r matches Ok(m)
                    &&& is_login_resp(
                        m,
                        "0.1.0"@,
                        l.run_id@,
                        Seq::<char>::empty(),
                        old(self).work_conn_tls,
                    )
                    &&& *final(self) == (Control {
                        run_id: l.run_id,
                        user: l.user,
                        client_id: l.client_id,
                        pool_count: l.pool_count,
                        ..*old(self)
                    })
                    &&& final(state).controls.clients() == old(state).controls.clients().insert(
                        l.run_id@,
                        (ClientInfo {
                            run_id: l.run_id,
                            client_id: l.client_id,
                            user: l.user,
                            connected_at: now,
                            last_heartbeat: now,
                        }),
                    )
                    &&& final(state).controls.order() == (if old(
                        state,
                    ).controls.clients().contains_key(l.run_id@) {
                        old(state).controls.order()
                    } else {
                        old(state).controls.order().push(l.run_id@)
                    })
                    &&& final(state).metrics.counters() == (Counters {
                        login_successes: old(
                            state,
                        ).metrics.counters().login_successes.wrapping_add(1),
                        ..old(state).metrics.counters()
                    })
                } else {
                    &&& r matches Err(LoginRefusal::Auth { error: AuthError::InvalidToken })
                    &&& *final(self) == *old(self)
                    &&& final(state).controls == old(state).controls
                    &&& final(state).metrics.counters() == (Counters {
                        login_failures: old(
                            state,
                        ).metrics.counters().login_failures.wrapping_add(1),
                        ..old(state).metrics.counters()
                    })
                },
                _ => {
                    &&& r matches Err(LoginRefusal::UnexpectedMessage)
                    &&& *final(self) == *old(self)
                    &&& *final(state) == *old(state)
                },
            },
    {
        match msg {
            Message::Login(l) => {
                if let Err(error) = auth.verify_login(l.user.as_str(), l.token.as_str(), unix_time) {
                    state.metrics.incr_login_failures();
                    return Err(LoginRefusal::Auth { error });
                }
                state.metrics.incr_login_successes();
                self.run_id = l.run_id;
                self.user = l.user;
                self.client_id = l.client_id;
                self.pool_count = l.pool_count;
                state.controls.add_client(
                    self.client_id.clone(),
                    self.run_id.clone(),
                    self.user.clone(),
                    now,
                );
                Ok(
                    Message::LoginResp(
                        LoginRespMsg {
                            version: "0.1.0".to_string(),
                            run_id: self.run_id.clone(),
                            error: String::new(),
                            work_conn_tls: self.work_conn_tls,
                        },
                    ),
                )
            },
            _ => Err(LoginRefusal::UnexpectedMessage),
        }
    }

    /// Removes every proxy of the client, with the work connections that wait for it.
    pub fn cleanup_proxies<C, T>(&self, state: &mut ServerState<C, T>) -> (stops: Vec<StopAction>)
        requires
            old(state).wf(),
        ensures
            self.cleaned_up(*old(state), stops@, *final(state)),
    {
        let mut stops: Vec<StopAction> = Vec::new();
        let ghost names = texts(self.registered_proxies@);
        let mut i: usize = 0;
        proof {
            let none = names.take(0);
            assert(none =~= Seq::<Seq<char>>::empty());
            assert(state.owners@.remove_keys(none.to_set()) =~= state.owners@);
            assert(state.metrics.stats().remove_keys(none.to_set()) =~= state.metrics.stats());
            assert(state.pools.pools().remove_keys(none.to_set()) =~= state.pools.pools());
        }
        while i < self.registered_proxies.len()
            invariant
                i <= self.registered_proxies.len(),
                names == texts(self.registered_proxies@),
                state.wf(),
                ServerProxyManager::removed_all(
                    old(state).proxies,
                    names.take(i as int),
                    stops@,
                    state.proxies,
                ),
                state.owners@ == old(state).owners@.remove_keys(names.take(i as int).to_set()),
                state.metrics.stats() == old(state).metrics.stats().remove_keys(
                    names.take(i as int).to_set(),
                ),
                state.metrics.order() == without_names(
                    old(state).metrics.order(),
                    names.take(i as int),
                ),
                state.metrics.generations() == old(state).metrics.generations(),
                state.metrics.counters() == old(state).metrics.counters(),
                state.xtcp_visitors == old(state).xtcp_visitors,
                state.controls == old(state).controls,
                state.bridges == old(state).bridges,
                state.pools.pools() == old(state).pools.pools().remove_keys(
                    names.take(i as int).to_set(),
                ),
                state.pools.size() == old(state).pools.size(),
            decreases self.registered_proxies.len() - i,
        {
            let name: &String = &self.registered_proxies[i];
            let ghost mid = state.proxies;
            let ghost done = stops@;
            let action = state.proxies.remove_proxy(name.as_str());
            state.metrics.remove_proxy_stat(name.as_str());
            let _ = state.owners.remove(name.as_str());
            state.pools.remove_pool(name.as_str());
            stops.push(action);
            proof {
                let upto = names.take(i + 1);
                assert(upto.drop_last() == names.take(i as int));
                assert(upto.last() == name@);
                assert(stops@.drop_last() == done);
                assert(stops@.last() == action);
                assert(ServerProxyManager::removed(mid, upto.last(), stops@.last(), state.proxies));
                lemma_remove_one_more(old(state).owners@, names, i as int);
                lemma_remove_one_more(old(state).metrics.stats(), names, i as int);
                lemma_remove_one_more(old(state).pools.pools(), names, i as int);
            }
            i = i + 1;
        }
        assert(names.take(i as int) == names);
        stops
    }

    /// Every proxy of the client is removed, and nothing else is changed.
    pub open spec fn cleaned_up<C, T>(
        self,
        before: ServerState<C, T>,
        stops: Seq<StopAction>,
        after: ServerState<C, T>,
    ) -> bool {
        let names = texts(self.registered_proxies@);
        &&& after.wf()
        &&& ServerProxyManager::removed_all(before.proxies, names, stops, after.proxies)
        &&& after.owners@ == before.owners@.remove_keys(names.to_set())
        &&& after.metrics.stats() == before.metrics.stats().remove_keys(names.to_set())
        &&& after.metrics.order() == without_names(before.metrics.order(), names)
        &&& after.metrics.generations() == before.metrics.generations()
        &&& after.metrics.counters() == before.metrics.counters()
        &&& after.xtcp_visitors == before.xtcp_visitors
        &&& after.controls == before.controls
        &&& after.bridges == before.bridges
        &&& after.pools.pools() == before.pools.pools().remove_keys(names.to_set())
        &&& after.pools.size() == before.pools.size()
    }

    /// What a message does to what the control connections share.
    pub open spec fn state_after<C, T>(
        self,
        before: ServerState<C, T>,
        msg: Message,
        closed: Option<Vec<StopAction>>,
        after: ServerState<C, T>,
    ) -> bool {
        match msg {
            Message::Disconnect(_) => closed is Some && self.cleaned_up(
                before,
                closed->0@,
                after,
            ),
            Message::StcpVisitor(m) => {
                &&& closed is None
                &&& after.bridges.bridges() == (if may_visit(
                    m,
                    self.run_id@,
                    |n: Seq<char>| before.proxies.secret(n),
                    text_values(before.owners@),
                ) {
                    before.bridges.bridges().insert(m.proxy_name@, None)
                } else {
                    before.bridges.bridges()
                })
                &&& after == (ServerState { bridges: after.bridges, ..before })
            },
            Message::XtcpNatInfo(m) => {
                let name = m.proxy_name@;
                let owners = text_values(before.owners@);
                &&& closed is None
                &&& text_values(after.xtcp_visitors@) == (if owners.contains_key(name)
                    && owners[name] != self.run_id@ {
                    text_values(before.xtcp_visitors@).insert(name, self.run_id@)
                } else {
                    text_values(before.xtcp_visitors@)
                })
                &&& after == (ServerState { xtcp_visitors: after.xtcp_visitors, ..before })
            },
            _ => closed is None && after == before,
        }
    }

    /// Handles a message of a client that is logged in.
    pub fn handle_message<C, T>(
        &mut self,
        state: &mut ServerState<C, T>,
        msg: Message,
        now: u64,
    ) -> (step: ControlStep)
        requires
            old(state).wf(),
        ensures
            final(state).wf(),
            *final(self) == (if msg is Ping {
                (Control { last_heartbeat: now, ..*old(self) })
            } else {
                *old(self)
            }),
            actions_for(
                msg,
                old(self).run_id@,
                |n: Seq<char>| old(state).proxies.proxies().contains_key(n),
                |n: Seq<char>| old(state).proxies.secret(n),
                text_values(old(state).owners@),
                text_values(old(state).xtcp_visitors@),
                step.actions@,
            ),
            old(self).state_after(*old(state), msg, step.closed, *final(state)),
    {
        let mut actions: Vec<ControlAction> = Vec::new();
        match msg {
            Message::Ping(m) => {
                self.last_heartbeat = now;
                actions.push(
                    ControlAction::Send {
                        message: Message::Pong(PongMsg { timestamp: m.timestamp }),
                    },
                );
            },
            Message::RegisterProxy(m) => {
                actions.push(ControlAction::AddProxy { config: m.proxy });
            },
            Message::ProxyStatus(m) => {
                let status: String = match state.proxies.get_proxy_status(m.name.as_str()) {
                    Some(s) => s,
                    None => "unknown".to_string(),
                };
                actions.push(
                    ControlAction::Send {
                        message: Message::ProxyStatusResp(
                            ProxyStatusRespMsg { name: m.name, status, error: String::new() },
                        ),
                    },
                );
            },
            Message::Disconnect(_) => {
                let stops: Vec<StopAction> = self.cleanup_proxies(state);
                return ControlStep { actions, closed: Some(stops) };
            },
            Message::UdpPacket(m) => {
                if let Some(addr) = m.client_addr {
                    actions.push(
                        ControlAction::SendUdp { proxy_name: m.proxy_name, data: m.data, addr },
                    );
                }
            },
            Message::StcpVisitor(m) => {
                let owner: Option<String> = match state.owners.get(m.proxy_name.as_str()) {
                    Some(o) => Some(o.clone()),
                    None => None,
                };
                let error: String = match owner {
                    None => "proxy not found".to_string(),
                    Some(owner) => {
                        if admits_visitor(
                            state.proxies.secret_of(m.proxy_name.as_str()),
                            self.run_id.as_str(),
                            m.timestamp,
                            m.sign_key.as_str(),
                        ) {
                            state.bridges.create_bridge(m.proxy_name.clone());
                            actions.push(
                                ControlAction::Relay {
                                    run_id: owner,
                                    message: Message::ReqWorkConn(
                                        ReqWorkConnMsg { proxy_name: m.proxy_name.clone() },
                                    ),
                                },
                            );
                            actions.push(
                                ControlAction::Relay {
                                    run_id: self.run_id.clone(),
                                    message: Message::ReqWorkConn(
                                        ReqWorkConnMsg { proxy_name: m.proxy_name.clone() },
                                    ),
                                },
                            );
                            String::new()
                        } else {
                            "secret key mismatch".to_string()
                        }
                    },
                };
                actions.push(
                    ControlAction::Send {
                        message: Message::StcpVisitorResp(
                            StcpVisitorRespMsg {
                                proxy_name: m.proxy_name,
                                error,
                                visitor_run_id: self.run_id.clone(),
                            },
                        ),
                    },
                );
            },
            Message::XtcpNatInfo(m) => {
                if let Some(owner) = state.owners.get(m.proxy_name.as_str()) {
                    let relay = Message::XtcpNatInfo(
                        XtcpNatInfoMsg {
                            proxy_name: m.proxy_name.clone(),
                            run_id: self.run_id.clone(),
                            nat_type: m.nat_type.clone(),
                            local_addr: m.local_addr.clone(),
                            public_addr: m.public_addr.clone(),
                        },
                    );
                    if !same(owner.as_str(), self.run_id.as_str()) {
                        let ghost before = state.xtcp_visitors@;
                        let visitor: String = self.run_id.clone();
                        state.xtcp_visitors.insert(m.proxy_name.clone(), visitor);
                        assert(text_values(state.xtcp_visitors@) =~= text_values(before).insert(
                            m.proxy_name@,
                            self.run_id@,
                        ));
                        actions.push(
                            ControlAction::Relay { run_id: owner.clone(), message: relay },
                        );
                    } else {
                        if let Some(visitor) = state.xtcp_visitors.get(m.proxy_name.as_str()) {
                            actions.push(
                                ControlAction::Relay { run_id: visitor.clone(), message: relay },
                            );
                        }
                    }
                }
            },
            Message::XtcpHolePunch(m) => {
                let run_id: String = m.to_run_id.clone();
                actions.push(
                    ControlAction::Relay { run_id, message: Message::XtcpHolePunch(m) },
                );
            },
            _ => {},
        }
        ControlStep { actions, closed: None }
    }

    /// Adds a proxy that the client offers.
    pub fn register_proxy<C, T>(&self, state: &mut ServerState<C, T>, config: ProxyConfig) -> (r:
        Result<StartAction, ProxyRefusal>)
        requires
            old(state).wf(),
        ensures
            final(state).wf(),
            ServerProxyManager::added(
                old(state).proxies,
                std::sync::Arc::new(config),
                Some(self.user@),
                r,
                final(state).proxies,
            ),
            *final(state) == (ServerState { proxies: final(state).proxies, ..*old(state) }),
    {
        state.proxies.add_proxy_for_user(config, self.user.as_str())
    }

    /// The answer to a client whose proxy is refused: the reason, in quotes. It is
    /// never taken for the answer to a proxy that runs.
    pub fn proxy_refused(&self, name: &str, refusal: &ProxyRefusal) -> (answer: Message)
        ensures
            is_register_resp(answer, name@, quoted_of(refusal.spec_message())),
            !says_running(answer),
    {
        Message::RegisterProxyResp(
            RegisterProxyRespMsg {
                name: name.to_string(),
                error: quoted(refusal.message().as_str()),
            },
        )
    }

    /// Takes a proxy back whose listener could not be opened, and answers the
    /// client with the error.
    pub fn proxy_failed<C, T>(&self, state: &mut ServerState<C, T>, name: &str, error: String) -> (
    answer: Message)
        requires
            old(state).wf(),
        ensures
            final(state).wf(),
            is_register_resp(answer, name@, error@),
            *final(state) == (ServerState { proxies: final(state).proxies, ..*old(state) }),
            ServerProxyManager::taken_back(old(state).proxies, name@, final(state).proxies),
    {
        state.proxies.start_failed(name);
        Message::RegisterProxyResp(RegisterProxyRespMsg { name: name.to_string(), error })
    }

    /// Keeps track of a proxy of the client that runs now, and answers the client.
    pub fn proxy_registered<C, T>(
        &mut self,
        state: &mut ServerState<C, T>,
        name: &str,
        kind: &str,
        remote_port: Option<u16>,
    ) -> (answer: Message)
        requires
            old(state).wf(),
        ensures
            final(state).wf(),
            is_register_resp(answer, name@, Seq::<char>::empty()),
            says_running(answer),
            final(state).proxies == old(state).proxies,
            final(state).xtcp_visitors == old(state).xtcp_visitors,
            final(state).controls == old(state).controls,
            final(state).bridges == old(state).bridges,
            final(state).pools == old(state).pools,
            texts(final(self).registered_proxies@) == texts(old(self).registered_proxies@).push(
                name@,
            ),
            *final(self) == (Control {
                registered_proxies: final(self).registered_proxies,
                ..*old(self)
            }),
            text_values(final(state).owners@) == text_values(old(state).owners@).insert(
                name@,
                old(self).run_id@,
            ),
            final(state).metrics.stats().contains_key(name@),
            final(state).metrics.stats()[name@].proxy_type@ == kind@,
            final(state).metrics.stats()[name@].remote_port == remote_port,
            final(state).metrics.stats()[name@].current_conns == 0,
            final(state).metrics.stats()[name@].total_conns == 0,
            final(state).metrics.stats() == old(state).metrics.stats().insert(
                name@,
                final(state).metrics.stats()[name@],
            ),
            final(state).metrics.stats()[name@].name@ == name@,
            final(state).metrics.stats()[name@].generation == old(state).metrics.generations(),
            final(state).metrics.generations() == old(state).metrics.generations().wrapping_add(1),
            final(state).metrics.order() == (if old(state).metrics.stats().contains_key(name@) {
                old(state).metrics.order()
            } else {
                old(state).metrics.order().push(name@)
            }),
            final(state).metrics.counters() == old(state).metrics.counters(),
    {
        let ghost before = self.registered_proxies@;
        let ghost owners = state.owners@;
        self.registered_proxies.push(name.to_string());
        assert(texts(self.registered_proxies@) =~= texts(before).push(name@));
        let owner: String = self.run_id.clone();
        state.owners.insert(name.to_string(), owner);
        assert(text_values(state.owners@) =~= text_values(owners).insert(name@, owner@));
        state.metrics.register_proxy_stat(name, kind, remote_port);
        Message::RegisterProxyResp(
            RegisterProxyRespMsg { name: name.to_string(), error: String::new() },
        )
    }

    /// Whether a client that sent nothing since its last heartbeat is gone.
    pub open spec fn gone(self, now: u64) -> bool {
        now > self.last_heartbeat && now - self.last_heartbeat > HEARTBEAT_TIMEOUT_MS
    }

    /// Whether a client that sent nothing for a while is gone.
    pub fn heartbeat_expired(&self, now: u64) -> (gone: bool)
        ensures
            gone == self.gone(now),
    {
        now > self.last_heartbeat && now - self.last_heartbeat > HEARTBEAT_TIMEOUT_MS
    }
}

/// A ping keeps a connection alive for the whole timeout.
pub proof fn law_ping_keeps_alive(control: Control, now: u64, later: u64)
    requires
        later <= now + HEARTBEAT_TIMEOUT_MS,
    ensures
        !(Control { last_heartbeat: now, ..control }).gone(later),
{
}

/// A client that disconnects leaves no proxy behind, no owner of one and no work
/// connection for one.
pub proof fn law_disconnect_removes_proxies<C, T>(
    control: Control,
    before: ServerState<C, T>,
    stops: Seq<StopAction>,
    after: ServerState<C, T>,
    name: Seq<char>,
)
    requires
        control.cleaned_up(before, stops, after),
        texts(control.registered_proxies@).contains(name),
    ensures
        !after.proxies.proxies().contains_key(name),
        !after.owners@.contains_key(name),
        !after.metrics.stats().contains_key(name),
        !after.pools.pools().contains_key(name),
{
    crate::proxies::law_removed_proxies_are_gone(
        before.proxies,
        texts(control.registered_proxies@),
        stops,
        after.proxies,
    );
    assert(texts(control.registered_proxies@).to_set().contains(name));
}

} // verus!
