//! The control connection, from both ends.
use crate::client::ClientError;
use crate::config::{ClientConfig, ProxyConfig};
use crate::control::{ClientInfo, ControlManager};
use crate::link::{
    check_register_answer, disconnect_message, ClientAction, ClientControl, LoggedIn, Reconnect,
};
use crate::message::{Message, ProxyManager, ProxyStatusMsg, RegisterProxyMsg, ReqWorkConnMsg};
use crate::metrics::{MonitorMetrics, ProxyStat};
use crate::proxies::{ProxyRefusal, ServerProxyManager, StartAction, StopAction};
use crate::server::{route_to_target, VisitorRoute};
use crate::session::{Control, ControlAction, ControlStep, ServerState};
use crate::text::texts;
use crate::web::proxy_client;
use crate::work::{ServerWorkConnManager, WorkConnFetch};
use vstd::prelude::*;
use vstd::string::*;

verus! {

/// A ping that is due makes the round trip: the server answers it with its own
/// timestamp, and neither end takes the other for gone within 90 seconds of it.
pub proof fn law_ping_makes_the_round_trip<C, T>(
    pinging: &mut ClientControl,
    answered: &mut ClientControl,
    config: ClientConfig,
    timestamp: i64,
    now: u64,
    ping: Option<Message>,
    control: &mut Control,
    state: &mut ServerState<C, T>,
    step: ControlStep,
    actions: Vec<ClientAction>,
    later: u64,
    client_gone: bool,
    server_gone: bool,
)
    requires
        call_ensures(ClientControl::due_ping, (pinging, now, timestamp), ping),
        now > old(pinging).last_ping_time,
        now - old(pinging).last_ping_time > 10_000,
        old(state).wf(),
        ping matches Some(m) ==> call_ensures(
            Control::handle_message::<C, T>,
            (control, state, m, now),
            step,
        ),
        step.actions@[0] matches ControlAction::Send { message } ==> call_ensures(
            ClientControl::handle_message,
            (answered, &config, message, now),
            actions,
        ),
        now <= later <= now + 90_000,
        call_ensures(Control::heartbeat_expired, (&*final(control), later), client_gone),
        call_ensures(ClientControl::pong_expired, (&*final(answered), later), server_gone),
    ensures
        ping matches Some(Message::Ping(p)) && p.timestamp == timestamp,
        step.actions@.len() == 1,
        step.actions@[0] matches ControlAction::Send { message: Message::Pong(p) } && p.timestamp
            == timestamp,
        step.closed is None,
        actions@.len() == 0,
        !client_gone,
        !server_gone,
{
}

/// A ping is sent exactly where the last one is more than ten seconds old, so not twice in
/// ten seconds.
pub proof fn law_pings_are_apart(
    first: &mut ClientControl,
    second: &mut ClientControl,
    now: u64,
    later: u64,
    timestamp: i64,
    a: Option<Message>,
    b: Option<Message>,
)
    requires
        call_ensures(ClientControl::due_ping, (first, now, timestamp), a),
        a is Some,
        *old(second) == *final(first),
        call_ensures(ClientControl::due_ping, (second, later, timestamp), b),
        now <= later,
    ensures
        b is Some == (later - now > 10_000),
{
}

/// Either end is gone for the other exactly when nothing was heard of it for more than 90
/// seconds.
pub proof fn law_silence_ends_a_connection(
    control: Control,
    client: ClientControl,
    now: u64,
    client_gone: bool,
    server_gone: bool,
)
    requires
        call_ensures(Control::heartbeat_expired, (&control, now), client_gone),
        call_ensures(ClientControl::pong_expired, (&client, now), server_gone),
    ensures
        client_gone == (now - control.last_heartbeat > 90_000),
        server_gone == (now - client.last_pong_time > 90_000),
{
}

/// A client that just logged in counts its times from then, under its run.
pub proof fn law_client_starts_at_its_login(
    login: LoggedIn,
    now: u64,
    client: ClientControl,
)
    requires
        call_ensures(ClientControl::new, (login, now), client),
    ensures
        client.run_id@ == login.run_id@,
        client.work_conn_tls == login.work_conn_tls,
        client.last_ping_time == now,
        client.last_pong_time == now,
{
}

/// A client that is asked for a work connection opens one for that proxy.
pub proof fn law_work_connection_is_opened(
    control: &mut ClientControl,
    config: ClientConfig,
    request: ReqWorkConnMsg,
    now: u64,
    actions: Vec<ClientAction>,
)
    requires
        call_ensures(
            ClientControl::handle_message,
            (control, &config, Message::ReqWorkConn(request), now),
            actions,
        ),
    ensures
        actions@.len() == 1,
        actions@[0] matches ClientAction::OpenWorkConn { proxy_name } && proxy_name@
            == request.proxy_name@,
        *final(control) == *old(control),
{
}

/// A proxy that a client offers is added with the settings that the client sent.
pub proof fn law_offered_proxy_is_added<C, T>(
    control: &mut Control,
    state: &mut ServerState<C, T>,
    offer: RegisterProxyMsg,
    now: u64,
    step: ControlStep,
)
    requires
        old(state).wf(),
        call_ensures(
            Control::handle_message::<C, T>,
            (control, state, Message::RegisterProxy(offer), now),
            step,
        ),
    ensures
        step.actions@.len() == 1,
        step.actions@[0] == (ControlAction::AddProxy { config: offer.proxy }),
        step.closed is None,
        *final(state) == *old(state),
{
}

/// What a client offers is added for its own user.
pub proof fn law_offers_count_for_the_user<C, T>(
    control: Control,
    state: &mut ServerState<C, T>,
    config: ProxyConfig,
    r: Result<StartAction, ProxyRefusal>,
)
    requires
        old(state).wf(),
        call_ensures(Control::register_proxy::<C, T>, (&control, state, config), r),
        r is Ok,
        config.kind@ == "tcp"@ || config.kind@ == "udp"@,
        old(state).proxies.limit() is Some,
        old(state).proxies.limit()->0 > 0,
    ensures
        final(state).proxies.usage().contains_key(config.name@),
        final(state).proxies.usage()[config.name@] == control.user@,
        final(state).proxies.proxies().contains_key(config.name@),
        *final(state).proxies.proxies()[config.name@] == config,
{
}

/// Once a proxy of a client runs, its visitors go to that client, it is listed under that
/// client, and the client takes the answer for a success.
pub proof fn law_running_proxy_belongs_to_its_client<C, T>(
    control: &mut Control,
    state: &mut ServerState<C, T>,
    name: &str,
    target: String,
    kind: &str,
    port: Option<u16>,
    run_id: &str,
    answer: Message,
    understood: Result<(), ClientError>,
    channel: Option<&T>,
    info: Option<&ClientInfo>,
    route: VisitorRoute,
    listed: String,
)
    requires
        old(state).wf(),
        call_ensures(
            Control::proxy_registered::<C, T>,
            (control, state, name, kind, port),
            answer,
        ),
        call_ensures(check_register_answer, (name, answer), understood),
        target@ == name@,
        run_id@ == old(control).run_id@,
        call_ensures(
            ControlManager::<T>::get_msg_tx,
            (&final(state).controls, run_id),
            channel,
        ),
        channel is Some,
        call_ensures(
            route_to_target::<T>,
            (target, false, &final(state).owners, &final(state).controls),
            route,
        ),
        call_ensures(
            ControlManager::<T>::get_client,
            (&final(state).controls, run_id),
            info,
        ),
        call_ensures(
            proxy_client::<T>,
            (&final(state).owners, &final(state).controls, name),
            listed,
        ),
    ensures
        understood is Ok,
        route matches VisitorRoute::WorkConn { target: t, run_id: r } && t@ == name@ && r@
            == old(control).run_id@,
        info matches Some(i) ==> listed@ == i.client_id@,
        info is None ==> listed@ == "-"@,
        final(control).registered_proxies@.len() == old(control).registered_proxies@.len() + 1,
        final(control).registered_proxies@.last()@ == name@,
{
    let views = texts(final(control).registered_proxies@);
    let before = texts(old(control).registered_proxies@);
    assert(views.len() == before.len() + 1);
    assert(views.last() == name@);
    assert(views[views.len() - 1] == final(control).registered_proxies@.last()@);
}

/// A client whose proxy is refused, or cannot listen, is told so.
pub proof fn law_refused_proxy_is_understood<C, T>(
    control: Control,
    name: &str,
    refusal: ProxyRefusal,
    answer: Message,
    understood: Result<(), ClientError>,
    state: &mut ServerState<C, T>,
    error: String,
    failed: Message,
    understood_too: Result<(), ClientError>,
)
    requires
        call_ensures(Control::proxy_refused, (&control, name, &refusal), answer),
        call_ensures(check_register_answer, (name, answer), understood),
        old(state).wf(),
        error@.len() > 0,
        call_ensures(Control::proxy_failed::<C, T>, (&control, state, name, error), failed),
        call_ensures(check_register_answer, (name, failed), understood_too),
    ensures
        understood is Err,
        understood_too is Err,
        understood_too matches Err(ClientError::Other(t)) && t@ == "Failed to register proxy "@
            + name@ + ": "@ + error@,
        !final(state).proxies.proxies().contains_key(name@),
{
}

/// A client that asks for the status of a proxy is told what the proxies of the server
/// say of it, and that it is not known where they say nothing.
pub proof fn law_status_is_told<C, T>(
    control: &mut Control,
    state: &mut ServerState<C, T>,
    asked: ProxyStatusMsg,
    name: &str,
    known: Option<String>,
    now: u64,
    step: ControlStep,
)
    requires
        old(state).wf(),
        name@ == asked.name@,
        call_ensures(
            <ServerProxyManager as ProxyManager>::get_proxy_status,
            (&old(state).proxies, name),
            known,
        ),
        call_ensures(
            Control::handle_message::<C, T>,
            (control, state, Message::ProxyStatus(asked), now),
            step,
        ),
    ensures
        step.actions@.len() == 1,
        step.actions@[0] matches ControlAction::Send { message: Message::ProxyStatusResp(m) }
            && m.name@ == asked.name@ && m.error@.len() == 0 && (known is Some ==> m.status@
            == known->0@) && (known is None ==> m.status@ == "unknown"@),
        *final(state) == *old(state),
{
}

/// A client that takes its leave takes its proxies with it: none of them is known any
/// more, has an owner or has work connections; the proxies of other clients stay.
pub proof fn law_leave_takes_the_proxies_along<C, T>(
    control: &mut Control,
    state: &mut ServerState<C, T>,
    leave: Message,
    now: u64,
    step: ControlStep,
    i: int,
    name: &str,
    status: Option<String>,
    fetch: Result<WorkConnFetch, String>,
    other: Seq<char>,
)
    requires
        old(state).wf(),
        old(state).pools.size() < usize::MAX,
        call_ensures(disconnect_message, (), leave),
        call_ensures(Control::handle_message::<C, T>, (control, state, leave, now), step),
        0 <= i < old(control).registered_proxies@.len(),
        old(control).registered_proxies@[i]@ == name@,
        call_ensures(
            <ServerProxyManager as ProxyManager>::get_proxy_status,
            (&final(state).proxies, name),
            status,
        ),
        call_ensures(
            ServerWorkConnManager::<C>::get_work_conn,
            (&final(state).pools, name),
            fetch,
        ),
        forall|j: int|
            0 <= j < old(control).registered_proxies@.len() ==> (#[trigger] old(
                control).registered_proxies@[j])@ != other,
    ensures
        step.actions@.len() == 0,
        step.closed matches Some(stops) && stops@.len() == old(control).registered_proxies@.len(),
        status is None,
        fetch is Err,
        !final(state).owners@.contains_key(name@),
        final(state).proxies.proxies().contains_key(other) == old(
            state).proxies.proxies().contains_key(other),
        final(state).owners@.contains_key(other) == old(state).owners@.contains_key(other),
        final(state).controls == old(state).controls,
{
    let names = texts(old(control).registered_proxies@);
    assert(names[i] == name@);
    assert(names.contains(name@));
    crate::session::law_disconnect_removes_proxies(
        *old(control),
        *old(state),
        step.closed->0@,
        *final(state),
        name@,
    );
    crate::proxies::law_removed_proxies_are_gone(
        old(state).proxies,
        names,
        step.closed->0@,
        final(state).proxies,
    );
    if names.contains(other) {
        let j = names.index_of(other);
        assert(old(control).registered_proxies@[j]@ == other);
    }
    assert(!names.to_set().contains(other));
}

/// A run that was added can be reached through its own channel until it is removed, and
/// other runs are not touched by either.
pub proof fn law_runs_are_reached_by_their_channels<T>(
    added: &mut ControlManager<T>,
    removed: &mut ControlManager<T>,
    run: String,
    run_id: &str,
    other: &str,
    channel: T,
    found: Option<&T>,
    reachable: bool,
    gone: Option<&T>,
    info: Option<&ClientInfo>,
    before: Option<&T>,
    between: Option<&T>,
    after: Option<&T>,
)
    requires
        run@ == run_id@,
        other@ != run_id@,
        call_ensures(ControlManager::<T>::get_msg_tx, (&*old(added), other), before),
        call_ensures(ControlManager::<T>::add, (added, run, channel), ()),
        call_ensures(ControlManager::<T>::get_msg_tx, (&*final(added), run_id), found),
        call_ensures(ControlManager::<T>::is_reachable, (&*final(added), run_id), reachable),
        call_ensures(ControlManager::<T>::get_msg_tx, (&*final(added), other), between),
        *old(removed) == *final(added),
        call_ensures(ControlManager::<T>::remove, (removed, run_id), ()),
        call_ensures(ControlManager::<T>::get_msg_tx, (&*final(removed), run_id), gone),
        call_ensures(ControlManager::<T>::get_client, (&*final(removed), run_id), info),
        call_ensures(ControlManager::<T>::get_msg_tx, (&*final(removed), other), after),
    ensures
        found == Some(&channel),
        reachable,
        gone is None,
        info is None,
        before == between,
        before == after,
{
}

/// A client that was heard of is known with the time of that, and otherwise as it was.
pub proof fn law_heartbeat_is_kept<T>(
    controls: &mut ControlManager<T>,
    run_id: &str,
    now: u64,
    before: Option<&ClientInfo>,
    after: Option<&ClientInfo>,
)
    requires
        call_ensures(ControlManager::<T>::get_client, (&*old(controls), run_id), before),
        call_ensures(ControlManager::<T>::update_heartbeat, (controls, run_id, now), ()),
        call_ensures(ControlManager::<T>::get_client, (&*final(controls), run_id), after),
    ensures
        before is Some == after is Some,
        before is Some ==> after->0.last_heartbeat == now && after->0.run_id@ == before->0.run_id@
            && after->0.client_id@ == before->0.client_id@ && after->0.user@ == before->0.user@
            && after->0.connected_at == before->0.connected_at,
{
}

/// The list of clients holds a client that logged in, once.
pub proof fn law_clients_are_listed<T>(
    controls: ControlManager<T>,
    run_id: &str,
    info: Option<&ClientInfo>,
    list: Vec<&ClientInfo>,
)
    requires
        call_ensures(ControlManager::<T>::get_client, (&controls, run_id), info),
        call_ensures(ControlManager::<T>::get_clients, (&controls,), list),
        info is Some,
    ensures
        list@.contains(info->0),
{
    let order = controls.order();
    assert(order.to_set().contains(run_id@));
    let k = order.index_of(run_id@);
    assert(list@[k] == info->0);
}

/// A client that never logged in gives up. One that did connects again: at once after a
/// login, then after a second, and after that with twice the pause each time, up to half
/// a minute.
pub proof fn law_pauses_between_connections(
    fresh: Reconnect,
    never: &mut Reconnect,
    login: &mut Reconnect,
    first: &mut Reconnect,
    second: &mut Reconnect,
    third: &mut Reconnect,
    jitter: u64,
    none: Option<u64>,
    a: Option<u64>,
    b: Option<u64>,
    c: Option<u64>,
)
    requires
        call_ensures(Reconnect::new, (), fresh),
        *old(never) == fresh,
        call_ensures(Reconnect::connection_lost, (never, 0), none),
        call_ensures(Reconnect::login_succeeded, (login,), ()),
        *old(first) == *final(login),
        call_ensures(Reconnect::connection_lost, (first, 0), a),
        *old(second) == *final(first),
        jitter <= 100,
        call_ensures(Reconnect::connection_lost, (second, jitter), b),
        *old(third) == *final(second),
        call_ensures(Reconnect::connection_lost, (third, 0), c),
    ensures
        none is None,
        a == Some(0u64),
        b == Some((1_000 + jitter) as u64),
        c == Some(2_000u64),
{
}

/// The pause after a lost connection is the announced one and the jitter; the next one is
/// twice as long, but never longer than half a minute.
pub proof fn law_pauses_double(
    first: &mut Reconnect,
    before: u64,
    jitter: u64,
    wait: Option<u64>,
    after: u64,
)
    requires
        old(first).wf(),
        call_ensures(Reconnect::delay_ms, (&*old(first),), before),
        jitter <= before / 10,
        call_ensures(Reconnect::connection_lost, (first, jitter), wait),
        call_ensures(Reconnect::delay_ms, (&*final(first),), after),
    ensures
        wait matches Some(ms) ==> ms == before + jitter,
        wait is Some && before == 0 ==> after == 1_000,
        wait is Some && 0 < before <= 15_000 ==> after == 2 * before,
        wait is Some && before > 15_000 ==> after == 30_000,
        wait is None ==> after == before,
{
}

/// Only a ping counts as a sign of life, and nothing else changes what the server knows of
/// the connection.
pub proof fn law_only_pings_are_signs_of_life<C, T>(
    control: &mut Control,
    state: &mut ServerState<C, T>,
    msg: Message,
    now: u64,
    step: ControlStep,
)
    requires
        old(state).wf(),
        call_ensures(Control::handle_message::<C, T>, (control, state, msg, now), step),
    ensures
        !(msg is Ping) ==> *final(control) == *old(control),
        msg is Ping ==> final(control).last_heartbeat == now && final(control).run_id == old(
            control).run_id && final(control).registered_proxies == old(control).registered_proxies
            && final(control).user == old(control).user,
        step.closed is Some == msg is Disconnect,
{
}

/// Messages that only a server sends, and a second login, are not acted upon.
pub proof fn law_other_messages_are_ignored<C, T>(
    control: &mut Control,
    state: &mut ServerState<C, T>,
    msg: Message,
    now: u64,
    step: ControlStep,
)
    requires
        old(state).wf(),
        call_ensures(Control::handle_message::<C, T>, (control, state, msg, now), step),
        msg is Login || msg is LoginResp || msg is RegisterProxyResp || msg is ReqWorkConn
            || msg is StartWorkConn || msg is Pong || msg is ProxyStatusResp
            || msg is StcpVisitorResp || msg is NewWorkConn || msg is NewVisitorConn
            || msg is NewVisitorConnResp,
    ensures
        step.actions@.len() == 0,
        *final(state) == *old(state),
        *final(control) == *old(control),
{
}

/// A client whose connection is lost loses its proxies as one that takes its leave does.
pub proof fn law_lost_connections_take_the_proxies_along<C, T>(
    control: Control,
    state: &mut ServerState<C, T>,
    stops: Vec<StopAction>,
    i: int,
    name: &str,
    status: Option<String>,
    stat: Option<&ProxyStat>,
)
    requires
        old(state).wf(),
        call_ensures(Control::cleanup_proxies::<C, T>, (&control, state), stops),
        0 <= i < control.registered_proxies@.len(),
        control.registered_proxies@[i]@ == name@,
        call_ensures(
            <ServerProxyManager as ProxyManager>::get_proxy_status,
            (&final(state).proxies, name),
            status,
        ),
        call_ensures(MonitorMetrics::get_proxy_stat, (&final(state).metrics, name), stat),
    ensures
        stops@.len() == control.registered_proxies@.len(),
        status is None,
        stat is None,
        !final(state).owners@.contains_key(name@),
        !final(state).pools.pools().contains_key(name@),
        final(state).controls == old(state).controls,
{
    let names = texts(control.registered_proxies@);
    assert(names[i] == name@);
    assert(names.contains(name@));
    crate::session::law_disconnect_removes_proxies(
        control,
        *old(state),
        stops@,
        *final(state),
        name@,
    );
}

/// A proxy that runs is counted from then on, with its type and its port.
pub proof fn law_running_proxies_are_counted<C, T>(
    control: &mut Control,
    state: &mut ServerState<C, T>,
    name: &str,
    kind: &str,
    port: Option<u16>,
    answer: Message,
    stat: Option<&ProxyStat>,
)
    requires
        old(state).wf(),
        call_ensures(
            Control::proxy_registered::<C, T>,
            (control, state, name, kind, port),
            answer,
        ),
        call_ensures(MonitorMetrics::get_proxy_stat, (&final(state).metrics, name), stat),
    ensures
        stat is Some && stat->0.name@ == name@ && stat->0.proxy_type@ == kind@
            && stat->0.remote_port == port && stat->0.current_conns == 0 && stat->0.total_conns == 0,
        answer matches Message::RegisterProxyResp(m) && m.name@ == name@ && m.error@.len() == 0,
{
}

/// A client that is done says that it shuts down.
pub proof fn law_leave_is_announced(message: Message)
    requires
        call_ensures(disconnect_message, (), message),
    ensures
        message matches Message::Disconnect(m) && m.reason@ == "client_shutdown"@,
{
}

/// A client that is added is known under its run, with what it said of itself.
pub proof fn law_added_clients_are_known<T>(
    controls: &mut ControlManager<T>,
    client_id: String,
    run: String,
    user: String,
    now: u64,
    run_id: &str,
    info: Option<&ClientInfo>,
    channel: Option<&T>,
    before: Option<&T>,
)
    requires
        run@ == run_id@,
        call_ensures(ControlManager::<T>::get_msg_tx, (&*old(controls), run_id), before),
        call_ensures(ControlManager::<T>::add_client, (controls, client_id, run, user, now), ()),
        call_ensures(ControlManager::<T>::get_client, (&*final(controls), run_id), info),
        call_ensures(ControlManager::<T>::get_msg_tx, (&*final(controls), run_id), channel),
    ensures
        info is Some && info->0.run_id@ == run_id@ && info->0.client_id@ == client_id@
            && info->0.user@ == user@ && info->0.connected_at == now && info->0.last_heartbeat
            == now,
        before == channel,
{
}

/// A client is kept alive by a pong and by nothing else, and does nothing after a message
/// that asks for nothing; a datagram for a proxy that it does not have is dropped.
pub proof fn law_client_messages(
    control: &mut ClientControl,
    config: ClientConfig,
    msg: Message,
    now: u64,
    actions: Vec<ClientAction>,
)
    requires
        call_ensures(ClientControl::handle_message, (control, &config, msg, now), actions),
    ensures
        !(msg is Pong) ==> *final(control) == *old(control),
        msg is Pong ==> final(control).last_pong_time == now && final(control).run_id == old(
            control).run_id && final(control).last_ping_time == old(control).last_ping_time,
        !(msg is ReqWorkConn || msg is UdpPacket || msg is XtcpNatInfo || msg is XtcpHolePunch)
            ==> actions@.len() == 0,
        msg is UdpPacket && (forall|i: int|
            0 <= i < config.proxies@.len() ==> (#[trigger] config.proxies@[i]).name@
                != msg->UdpPacket_0.proxy_name@) ==> actions@.len() == 0,
{
    if msg is UdpPacket {
        let name = msg->UdpPacket_0.proxy_name@;
        if forall|i: int|
            0 <= i < config.proxies@.len() ==> (#[trigger] config.proxies@[i]).name@ != name {
            crate::laws::routing::lemma_first(config.proxies@, name, config.proxies@.len() as int);
        }
    }
}

/// A proxy that a client offers is added as one of its user's is, and nothing else of what
/// the connections share is changed.
pub proof fn law_offers_are_added_for_the_user<C, T>(
    control: Control,
    state: &mut ServerState<C, T>,
    manager: &mut ServerProxyManager,
    user: &str,
    config: ProxyConfig,
    r: Result<StartAction, ProxyRefusal>,
    direct: Result<StartAction, ProxyRefusal>,
)
    requires
        old(state).wf(),
        config.group is None,
        *old(manager) == old(state).proxies,
        user@ == control.user@,
        call_ensures(Control::register_proxy::<C, T>, (&control, state, config), r),
        call_ensures(ServerProxyManager::add_proxy_for_user, (manager, config, user), direct),
    ensures
        r is Ok == direct is Ok,
        final(state).proxies.proxies() == final(manager).proxies(),
        final(state).proxies.usage() == final(manager).usage(),
        final(state).proxies.domains() == final(manager).domains(),
        final(state).owners == old(state).owners,
        final(state).controls == old(state).controls,
{
}

} // verus!
