//! What a server passes on between its clients and their visitors.
use crate::client::find_proxy;
use crate::config::{text_values, ClientConfig, ProxyConfig};
use crate::control::ControlManager;
use crate::link::{is_xtcp, udp_answer, visitor_nat_message, ClientAction, ClientControl};
use crate::message::{Message, UdpPacketMsg, XtcpHolePunchMsg, XtcpNatInfoMsg};
use crate::names::NameMap;
use crate::server::udp_from_visitor;
use crate::session::{Control, ControlAction, ControlStep, ServerState};
use crate::text::decimal;
use vstd::prelude::*;
use vstd::string::*;

verus! {

/// What a visitor tells of its addresses reaches the client that registered the proxy,
/// and what that client tells then reaches the visitor: each is sent what the other
/// said, under the other's run, and nothing else is sent.
pub proof fn law_each_peer_hears_of_the_other<C, T>(
    visitor: &mut Control,
    owner: &mut Control,
    first: &mut ServerState<C, T>,
    second: &mut ServerState<C, T>,
    asked: XtcpNatInfoMsg,
    told: XtcpNatInfoMsg,
    now: u64,
    later: u64,
    to_owner: ControlStep,
    to_visitor: ControlStep,
)
    requires
        old(first).wf(),
        call_ensures(
            Control::handle_message::<C, T>,
            (visitor, first, Message::XtcpNatInfo(asked), now),
            to_owner,
        ),
        *old(second) == *final(first),
        call_ensures(
            Control::handle_message::<C, T>,
            (owner, second, Message::XtcpNatInfo(told), later),
            to_visitor,
        ),
        asked.proxy_name@ == told.proxy_name@,
        old(first).owners@.contains_key(asked.proxy_name@),
        old(first).owners@[asked.proxy_name@]@ == old(owner).run_id@,
        old(visitor).run_id@ != old(owner).run_id@,
    ensures
        to_owner.actions@.len() == 1,
        to_owner.actions@[0] matches ControlAction::Relay {
            run_id,
            message: Message::XtcpNatInfo(m),
        } && run_id@ == old(owner).run_id@ && m.run_id@ == old(visitor).run_id@ && m.proxy_name@
            == asked.proxy_name@ && m.nat_type@ == asked.nat_type@ && m.local_addr@
            == asked.local_addr@ && m.public_addr@ == asked.public_addr@,
        to_visitor.actions@.len() == 1,
        to_visitor.actions@[0] matches ControlAction::Relay {
            run_id,
            message: Message::XtcpNatInfo(m),
        } && run_id@ == old(visitor).run_id@ && m.run_id@ == old(owner).run_id@ && m.proxy_name@
            == told.proxy_name@ && m.nat_type@ == told.nat_type@ && m.local_addr@
            == told.local_addr@ && m.public_addr@ == told.public_addr@,
        to_owner.closed is None,
        to_visitor.closed is None,
{
    let name = asked.proxy_name@;
    assert(text_values(old(first).owners@)[name] == old(owner).run_id@);
    assert(text_values(old(second).xtcp_visitors@).contains_key(name));
}

/// What a client tells of its addresses goes to one other client at most: to the one
/// that registered the proxy, or, from that one, to the client that asked last. Of a
/// proxy that nobody registered nothing is passed on.
pub proof fn law_addresses_go_to_one_peer<C, T>(
    control: &mut Control,
    state: &mut ServerState<C, T>,
    info: XtcpNatInfoMsg,
    now: u64,
    step: ControlStep,
)
    requires
        old(state).wf(),
        call_ensures(
            Control::handle_message::<C, T>,
            (control, state, Message::XtcpNatInfo(info), now),
            step,
        ),
    ensures
        ({
            let name = info.proxy_name@;
            let owners = old(state).owners@;
            let visitors = old(state).xtcp_visitors@;
            &&& step.actions@.len() <= 1
            &&& !owners.contains_key(name) ==> step.actions@.len() == 0
            &&& owners.contains_key(name) && owners[name]@ != old(control).run_id@ ==> (
            step.actions@.len() == 1 && (step.actions@[0] matches ControlAction::Relay {
                run_id,
                ..
            } && run_id@ == owners[name]@))
            &&& owners.contains_key(name) && owners[name]@ == old(control).run_id@
                && visitors.contains_key(name) ==> (step.actions@.len() == 1 && (
            step.actions@[0] matches ControlAction::Relay { run_id, .. } && run_id@
                == visitors[name]@))
            &&& owners.contains_key(name) && owners[name]@ == old(control).run_id@
                && !visitors.contains_key(name) ==> step.actions@.len() == 0
        }),
{
    let owners = text_values(old(state).owners@);
    assert(owners.dom() =~= old(state).owners@.dom());
    assert(text_values(old(state).xtcp_visitors@).dom() =~= old(state).xtcp_visitors@.dom());
}

/// A request to punch goes to the client that it names, with all that it says.
pub proof fn law_punch_reaches_its_peer<C, T>(
    control: &mut Control,
    state: &mut ServerState<C, T>,
    punch: XtcpHolePunchMsg,
    now: u64,
    step: ControlStep,
)
    requires
        old(state).wf(),
        call_ensures(
            Control::handle_message::<C, T>,
            (control, state, Message::XtcpHolePunch(punch), now),
            step,
        ),
    ensures
        step.actions@.len() == 1,
        step.actions@[0] matches ControlAction::Relay {
            run_id,
            message: Message::XtcpHolePunch(m),
        } && run_id@ == punch.to_run_id@ && m.proxy_name@ == punch.proxy_name@ && m.from_run_id@
            == punch.from_run_id@ && m.to_run_id@ == punch.to_run_id@ && m.peer_local_addr@
            == punch.peer_local_addr@ && m.peer_public_addr@ == punch.peer_public_addr@,
{
}

/// A client that offers a proxy answers what a peer told of itself with its own local
/// address, under its own run, and tries the peer's addresses that were given: the
/// public one before the local one.
pub proof fn law_peer_is_answered_and_tried(
    control: &mut ClientControl,
    config: ClientConfig,
    info: XtcpNatInfoMsg,
    now: u64,
    found: Option<&ProxyConfig>,
    name: &str,
    actions: Vec<ClientAction>,
)
    requires
        name@ == info.proxy_name@,
        call_ensures(find_proxy, (&config, name), found),
        call_ensures(
            ClientControl::handle_message,
            (control, &config, Message::XtcpNatInfo(info), now),
            actions,
        ),
        info.public_addr@.len() > 0,
        info.local_addr@.len() > 0,
    ensures
        found matches Some(p) ==> actions@.len() == 2 && (actions@[0] matches ClientAction::Send {
            message: Message::XtcpNatInfo(m),
        } && m.proxy_name@ == info.proxy_name@ && m.run_id@ == old(control).run_id@ && m.local_addr@
            == p.local_ip@ + ":"@ + decimal(p.local_port as nat)) && (
        actions@[1] matches ClientAction::PunchAll { addrs } && addrs@.len() == 2 && addrs@[0]@
            == info.public_addr@ && addrs@[1]@ == info.local_addr@),
        found is None ==> actions@.len() == 1 && (actions@[0] matches ClientAction::PunchAll {
            addrs,
        } && addrs@.len() == 2 && addrs@[0]@ == info.public_addr@ && addrs@[1]@
            == info.local_addr@),
{
    let last = if found is Some {
        actions@[1]
    } else {
        actions@[0]
    };
    if let ClientAction::PunchAll { addrs } = last {
        let views = crate::text::texts(addrs@);
        assert(views.len() == 2);
        assert(views[0] == addrs@[0]@);
        assert(views[1] == addrs@[1]@);
    }
}

/// A client that is told to punch tries the addresses of its peer in turn, and no
/// other: the public one first, and those only that are given.
pub proof fn law_punch_tries_the_peer(
    control: &mut ClientControl,
    config: ClientConfig,
    punch: XtcpHolePunchMsg,
    now: u64,
    actions: Vec<ClientAction>,
)
    requires
        call_ensures(
            ClientControl::handle_message,
            (control, &config, Message::XtcpHolePunch(punch), now),
            actions,
        ),
    ensures
        actions@.len() == 1,
        actions@[0] matches ClientAction::PunchInTurn { addrs } && {
            let public = punch.peer_public_addr@;
            let local = punch.peer_local_addr@;
            &&& public.len() > 0 && local.len() > 0 ==> addrs@.len() == 2 && addrs@[0]@ == public
                && addrs@[1]@ == local
            &&& public.len() > 0 && local.len() == 0 ==> addrs@.len() == 1 && addrs@[0]@ == public
            &&& public.len() == 0 && local.len() > 0 ==> addrs@.len() == 1 && addrs@[0]@ == local
            &&& public.len() == 0 && local.len() == 0 ==> addrs@.len() == 0
        },
{
    if let ClientAction::PunchInTurn { addrs } = actions@[0] {
        let views = crate::text::texts(addrs@);
        assert(views.len() == addrs@.len());
        if views.len() > 0 {
            assert(views[0] == addrs@[0]@);
        }
        if views.len() > 1 {
            assert(views[1] == addrs@[1]@);
        }
    }
}

/// A visitor looks for a peer exactly where it is set up for a peer-to-peer connection
/// to that proxy, and then names the proxy and its own run.
pub proof fn law_visitor_looks_for_its_peer(
    config: ClientConfig,
    proxy_name: &str,
    run_id: &str,
    message: Option<Message>,
)
    requires
        call_ensures(visitor_nat_message, (&config, proxy_name, run_id), message),
    ensures
        message is Some <==> exists|i: int|
            0 <= i < config.visitors@.len() && (#[trigger] config.visitors@[i]).kind@ == "xtcp"@
                && config.visitors@[i].server_name@ == proxy_name@,
        message is Some ==> (message->0 matches Message::XtcpNatInfo(m) && m.proxy_name@
            == proxy_name@ && m.run_id@ == run_id@ && m.nat_type@ == "unknown"@ && m.local_addr@.len()
            == 0 && m.public_addr@.len() == 0),
{
}

/// A datagram makes the round trip. What a visitor of a UDP proxy sends goes to the run
/// that registered the proxy and from there to the local service; what the service
/// answers is sent to that visitor and nobody else, as it is.
pub proof fn law_datagram_makes_the_round_trip<C, T>(
    proxy_name: &str,
    data: Vec<u8>,
    src_addr: &str,
    owners: NameMap<String>,
    controls: ControlManager<T>,
    sent: (String, Message),
    client: &mut ClientControl,
    config: ClientConfig,
    found: Option<&ProxyConfig>,
    actions: Vec<ClientAction>,
    reply: Vec<u8>,
    name: String,
    addr: Option<String>,
    answer: Message,
    control: &mut Control,
    state: &mut ServerState<C, T>,
    now: u64,
    step: ControlStep,
)
    requires
        call_ensures(
            udp_from_visitor::<T>,
            (proxy_name, data, src_addr, &owners, &controls),
            Some(sent),
        ),
        call_ensures(find_proxy, (&config, proxy_name), found),
        found is Some,
        call_ensures(ClientControl::handle_message, (client, &config, sent.1, now), actions),
        actions@.len() > 0,
        actions@[0] matches ClientAction::ForwardUdp { proxy_name: n, client_addr: a, .. } && n
            == name && a == addr,
        call_ensures(udp_answer, (name, reply, addr), answer),
        old(state).wf(),
        call_ensures(Control::handle_message::<C, T>, (control, state, answer, now), step),
    ensures
        owners@.contains_key(proxy_name@),
        sent.0@ == owners@[proxy_name@]@,
        actions@.len() == 1,
        actions@[0] matches ClientAction::ForwardUdp { local_addr, data: d, .. } && d@ == data@
            && local_addr@ == found->0.local_ip@ + ":"@ + decimal(found->0.local_port as nat),
        step.actions@.len() == 1,
        step.actions@[0] matches ControlAction::SendUdp { proxy_name: n, data: d, addr: a } && n@
            == proxy_name@ && d@ == reply@ && a@ == src_addr@,
        *final(state) == *old(state),
{
    assert(text_values(owners@).dom() =~= owners@.dom());
}

/// A visitor's datagram is passed on exactly where the run that registered the proxy can
/// be reached.
pub proof fn law_datagram_needs_a_client<T>(
    proxy_name: &str,
    data: Vec<u8>,
    src_addr: &str,
    owners: NameMap<String>,
    controls: ControlManager<T>,
    owner: &str,
    channel: Option<&T>,
    sent: Option<(String, Message)>,
)
    requires
        call_ensures(
            udp_from_visitor::<T>,
            (proxy_name, data, src_addr, &owners, &controls),
            sent,
        ),
        owners@.contains_key(proxy_name@) ==> owner@ == owners@[proxy_name@]@,
        call_ensures(ControlManager::<T>::get_msg_tx, (&controls, owner), channel),
    ensures
        sent is Some == (owners@.contains_key(proxy_name@) && channel is Some),
{
    assert(text_values(owners@).dom() =~= owners@.dom());
}

/// A datagram that names no visitor goes nowhere, and one that names a visitor is sent
/// to that visitor alone.
pub proof fn law_answer_goes_to_its_visitor<C, T>(
    packet: UdpPacketMsg,
    control: &mut Control,
    state: &mut ServerState<C, T>,
    now: u64,
    step: ControlStep,
)
    requires
        old(state).wf(),
        call_ensures(
            Control::handle_message::<C, T>,
            (control, state, Message::UdpPacket(packet), now),
            step,
        ),
    ensures
        packet.client_addr is None ==> step.actions@.len() == 0,
        packet.client_addr is Some ==> step.actions@.len() == 1 && (
        step.actions@[0] matches ControlAction::SendUdp { proxy_name, data, addr } && proxy_name@
            == packet.proxy_name@ && data@ == packet.data@ && addr@ == packet.client_addr->0@),
{
}

/// A proxy is visited peer to peer exactly where the visitor then looks for a peer.
pub proof fn law_who_is_visited_peer_to_peer(
    config: ClientConfig,
    proxy_name: &str,
    run_id: &str,
    peer: bool,
    message: Option<Message>,
)
    requires
        call_ensures(is_xtcp, (&config, proxy_name), peer),
        call_ensures(visitor_nat_message, (&config, proxy_name, run_id), message),
    ensures
        peer == message is Some,
        peer <==> exists|i: int|
            0 <= i < config.visitors@.len() && (#[trigger] config.visitors@[i]).kind@ == "xtcp"@
                && config.visitors@[i].server_name@ == proxy_name@,
{
}

} // verus!
