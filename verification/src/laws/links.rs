//! What carries bytes: packets, streams over one connection, limits, retries and the
//! search for public addresses.
use crate::client::{ClientError, ClientProxyManager, LocalService, LocalStart, WorkConnManager};
use crate::codec::uppercase_of;
use crate::config::ProxyConfig;
use crate::laws::text::is_word;
use crate::link::punch_addrs;
use crate::message::ProxyManager;
use crate::mux::{
    classify_control_conn, is_mux, stream_role, Command, ControlClass, MuxDriver, MuxStep, Ready,
    StreamRole,
};
use crate::pool::PoolConfig;
use crate::random::{id_of, rand_id};
use crate::rate::{
    parse_bandwidth_limit, read_limit, split_bandwidth_limit, write_limit, BandwidthLimit,
};
use crate::retry::{
    ConnectionError, IoErrorKind, RetryConfig, RetryResult, RetryState, RetryStep, RetryableError,
};
use crate::streams::{
    accepted_conversation, classify_packet, conversation, make_punch_packet, new_conversation,
    KcpPeers, NetError, PacketClass, ReadBuffer, WriteStep,
};
use crate::stun::{
    build_binding_request, default_stun_servers, discover_step, join_transaction_id,
    new_binding_request, parse_mapped_address, probe_reply, DiscoverStep, Endpoint, StunError,
};
use crate::text::{decimal, spec_trim, texts, trim};
use vstd::prelude::*;
use vstd::string::*;

verus! {

/// A packet is read in order and whole, however little room its reader has each time:
/// what one read leaves the next one gives.
pub proof fn law_packets_are_read_in_order(
    fresh: ReadBuffer,
    b0: &mut ReadBuffer,
    b1: &mut ReadBuffer,
    data: Vec<u8>,
    room: usize,
    next: usize,
    first: Vec<u8>,
    second: Vec<u8>,
    empty: bool,
)
    requires
        call_ensures(ReadBuffer::new, (), fresh),
        *old(b0) == fresh,
        call_ensures(ReadBuffer::receive, (b0, data, room), first),
        *old(b1) == *final(b0),
        call_ensures(ReadBuffer::take, (b1, next), second),
        call_ensures(ReadBuffer::is_empty, (&*final(b1),), empty),
    ensures
        first@.len() <= room,
        second@.len() <= next,
        first@.len() == (if data@.len() <= room {
            data@.len()
        } else {
            room as nat
        }),
        first@ + second@ == data@.take((first@.len() + second@.len()) as int),
        data@.len() <= room + next ==> first@ + second@ == data@ && empty,
        data@.len() > room + next ==> first@.len() + second@.len() == room + next && !empty,
{
    let n = first@.len() as int;
    let m = second@.len() as int;
    assert(first@ + second@ =~= data@.take(n + m));
    if data@.len() <= room + next {
        assert(data@.take(n + m) =~= data@);
    }
}

/// The packet that opens a way is known as such and as nothing else; another one is for
/// KCP where it has room for its header, of 24 bytes.
pub proof fn law_packets_are_told_apart(
    punch: Vec<u8>,
    data: &[u8],
    class: PacketClass,
)
    requires
        call_ensures(make_punch_packet, (), punch),
        call_ensures(classify_packet, (data,), class),
    ensures
        class is Punch == (data@ == punch@),
        data@ != punch@ && data@.len() >= 24 ==> class is Kcp,
        data@ != punch@ && data@.len() < 24 ==> class is Short,
        punch@.len() < 24,
{
}

/// A conversation is numbered by the first four bytes of its packets, the lowest first.
pub proof fn law_conversations_are_numbered(
    packet: &[u8],
    n: u32,
    rest: Seq<u8>,
    c: Option<u32>,
)
    requires
        packet@ == seq![
            (n % 256) as u8,
            (n / 256 % 256) as u8,
            (n / 65536 % 256) as u8,
            (n / 16777216 % 256) as u8,
        ] + rest,
        call_ensures(conversation, (packet,), c),
    ensures
        c == Some(n),
{
    assert(n / 65536 == n / 256 / 256);
    assert(n / 16777216 == n / 256 / 256 / 256);
    let p = packet@;
    assert(p[0] == (n % 256) as u8 && p[1] == (n / 256 % 256) as u8 && p[2] == (n / 65536
        % 256) as u8 && p[3] == (n / 16777216 % 256) as u8);
}

/// A packet of fewer than four bytes belongs to no conversation.
pub proof fn law_short_packets_have_no_number(packet: &[u8], c: Option<u32>)
    requires
        call_ensures(conversation, (packet,), c),
    ensures
        c is None == (packet@.len() < 4),
{
}

/// A stream sends to all the addresses where its peer may be until it hears from one of
/// them, and to that one from then on, whatever comes after; it opens ways only before.
pub proof fn law_peer_is_found(
    k0: KcpPeers,
    k1: &mut KcpPeers,
    k2: &mut KcpPeers,
    one: String,
    two: String,
    peers: Vec<String>,
    connects: bool,
    addr: &str,
    later: &str,
    before: Vec<String>,
    punched: Option<Vec<String>>,
    after: Vec<String>,
    found: Option<String>,
    quiet: Option<Vec<String>>,
    heard: bool,
)
    requires
        peers@ == seq![one, two],
        one@ != two@,
        call_ensures(KcpPeers::new, (peers, connects), Ok(k0)),
        call_ensures(KcpPeers::targets, (&k0,), before),
        call_ensures(KcpPeers::punch_targets, (&k0,), punched),
        *old(k1) == k0,
        call_ensures(KcpPeers::accepted_from, (k1, addr), ()),
        *old(k2) == *final(k1),
        call_ensures(KcpPeers::accepted_from, (k2, later), ()),
        call_ensures(KcpPeers::targets, (&*final(k2),), after),
        call_ensures(KcpPeers::peer_addr, (&*final(k2),), found),
        call_ensures(KcpPeers::punch_targets, (&*final(k2),), quiet),
        call_ensures(KcpPeers::has_activity, (&*final(k2),), heard),
    ensures
        before@.len() == 2 && before@[0]@ == one@ && before@[1]@ == two@,
        punched is Some && punched->0@.len() == 2 && punched->0@[0]@ == one@ && punched->0@[1]@
            == two@,
        found is Some && found->0@ == addr@,
        after@.len() == 1 && after@[0]@ == addr@,
        quiet is None,
        heard,
{
    let all = crate::streams::addr_texts(peers@);
    assert(all =~= seq![one@, two@]);
    assert(all.drop_last() =~= seq![one@]);
    reveal_with_fuel(crate::streams::dedup, 3);
    assert(crate::streams::dedup(all.drop_last()) == seq![one@]);
    assert(crate::streams::dedup(all) =~= seq![one@].push(two@));
    assert(seq![one@].push(two@) =~= seq![one@, two@]);
    let b = crate::streams::addr_texts(before@);
    assert(b.len() == before@.len());
    if b.len() == 2 {
        assert(b[0] == before@[0]@ && b[1] == before@[1]@);
    }
    let p = crate::streams::addr_texts(punched->0@);
    assert(p.len() == punched->0@.len());
    assert(p[0] == punched->0@[0]@ && p[1] == punched->0@[1]@);
    let a = crate::streams::addr_texts(after@);
    assert(a.len() == after@.len());
    if a.len() == 1 {
        assert(a[0] == after@[0]@);
    }
}

/// A stream without addresses is not made. The byte by which the other side makes itself
/// known is taken off once, by the side that does not connect, and no other byte is.
pub proof fn law_handshake_is_taken_off(
    peers: Vec<String>,
    connects: bool,
    made: Result<KcpPeers, NetError>,
    k1: &mut KcpPeers,
    k2: &mut KcpPeers,
    data: &[u8],
    first: usize,
    second: usize,
)
    requires
        call_ensures(KcpPeers::new, (peers, connects), made),
        made is Ok ==> *old(k1) == made->Ok_0,
        call_ensures(KcpPeers::skip_handshake, (k1, data), first),
        *old(k2) == *final(k1),
        call_ensures(KcpPeers::skip_handshake, (k2, data), second),
        data@.len() > 0,
    ensures
        made is Ok == (peers@.len() > 0),
        made is Ok ==> first == (if !connects && data@[0] == 0x1F {
            1int
        } else {
            0
        }),
        second == 0,
{
}

/// A stream that ended takes no more bytes; one whose window is full waits; any other
/// takes as many as there are, up to 64 segments.
pub proof fn law_writes_are_bounded(
    open: &mut KcpPeers,
    dead: &mut KcpPeers,
    len: usize,
    waiting: usize,
    window: u16,
    mss: usize,
    step: WriteStep,
    closed: WriteStep,
    lost: WriteStep,
    ended: bool,
    gone: bool,
    nowhere: Vec<String>,
)
    requires
        mss * 64 <= usize::MAX,
        call_ensures(KcpPeers::is_ended, (&*old(open),), ended),
        call_ensures(KcpPeers::write_step, (&*old(open), len, waiting, window, mss), step),
        call_ensures(KcpPeers::close, (open,), ()),
        call_ensures(KcpPeers::write_step, (&*final(open), len, waiting, window, mss), closed),
        call_ensures(KcpPeers::mark_dead, (dead,), ()),
        call_ensures(KcpPeers::write_step, (&*final(dead), len, waiting, window, mss), lost),
        call_ensures(KcpPeers::is_ended, (&*final(dead),), gone),
        call_ensures(KcpPeers::targets, (&*final(dead),), nowhere),
    ensures
        closed is Broken && lost is Broken && gone,
        ended == (step is Broken),
        !ended && waiting >= window ==> step is Wait,
        !ended && waiting < window && len <= mss * 64 ==> step == (WriteStep::Send { count: len }),
        !ended && waiting < window && len > mss * 64 ==> step == (WriteStep::Send {
            count: (mss * 64) as usize,
        }),
        nowhere@.len() == 0,
{
    assert(crate::streams::addr_texts(nowhere@).len() == nowhere@.len());
}

/// A connection that carries many streams begins with the byte 0x5A, and no other does.
/// Its first stream is the control connection, and all others are work connections.
pub proof fn law_streams_of_a_connection(
    first: Option<u8>,
    available: bool,
    class: ControlClass,
    before: usize,
    role: StreamRole,
    byte: u8,
    mux: bool,
)
    requires
        call_ensures(classify_control_conn, (first, available), class),
        call_ensures(stream_role, (before,), role),
        call_ensures(is_mux, (byte,), mux),
    ensures
        class.mux == (first == Some(0x5Au8)),
        class.secure == available,
        mux == (byte == 0x5A),
        role is Control == (before == 0),
        role is Work == (before > 0),
{
}

/// What the other side sends is handled first, then those who wait for a stream are told
/// how it went, in the order in which they asked, and then users are heard.
pub proof fn law_streams_are_opened_in_order<R>(
    fresh: MuxDriver<R>,
    d0: &mut MuxDriver<R>,
    d1: &mut MuxDriver<R>,
    d2: &mut MuxDriver<R>,
    d3: &mut MuxDriver<R>,
    d4: &mut MuxDriver<R>,
    one: R,
    two: R,
    ready: Ready,
    idle: MuxStep,
    busy: MuxStep,
    a: Option<R>,
    b: Option<R>,
    c: Option<R>,
    wants: bool,
)
    requires
        call_ensures(MuxDriver::<R>::new, (), fresh),
        call_ensures(MuxDriver::<R>::step, (&fresh, &ready), idle),
        *old(d0) == fresh,
        call_ensures(MuxDriver::<R>::enqueue, (d0, one), ()),
        *old(d1) == *final(d0),
        call_ensures(MuxDriver::<R>::enqueue, (d1, two), ()),
        call_ensures(MuxDriver::<R>::wants_outbound, (&*final(d1),), wants),
        call_ensures(MuxDriver::<R>::step, (&*final(d1), &ready), busy),
        *old(d2) == *final(d1),
        call_ensures(MuxDriver::<R>::next_waiting, (d2,), a),
        *old(d3) == *final(d2),
        call_ensures(MuxDriver::<R>::next_waiting, (d3,), b),
        *old(d4) == *final(d3),
        call_ensures(MuxDriver::<R>::next_waiting, (d4,), c),
    ensures
        a == Some(one),
        b == Some(two),
        c is None,
        wants,
        ready.inbound is Stream ==> idle is Deliver && busy is Deliver,
        ready.inbound is End ==> idle is Stop && busy is Stop,
        ready.inbound is Nothing && ready.outbound ==> busy is Answer,
        ready.inbound is Nothing && (!ready.outbound || idle is Answer) ==> idle == busy,
        ready.inbound is Nothing ==> match ready.command {
            Command::Open => idle is Enqueue,
            Command::Close => idle is CloseAndStop,
            Command::Gone => idle is Stop,
            Command::Nothing => idle is Wait,
        },
{
    assert(final(d1).waiting() =~= seq![one, two]);
    assert(final(d2).waiting() =~= seq![two]);
    assert(final(d3).waiting() =~= Seq::<R>::empty());
}

/// A driver runs until it is stopped.
pub proof fn law_driver_runs_until_stopped<R>(
    fresh: MuxDriver<R>,
    d: &mut MuxDriver<R>,
    before: bool,
    after: bool,
)
    requires
        call_ensures(MuxDriver::<R>::new, (), fresh),
        call_ensures(MuxDriver::<R>::is_closed, (&fresh,), before),
        call_ensures(MuxDriver::<R>::stopped, (d,), ()),
        call_ensures(MuxDriver::<R>::is_closed, (&*final(d),), after),
    ensures
        !before,
        after,
{
}

/// A limit is a number and a unit: bytes, or 1024 of the unit below it for each of KB, MB
/// and GB. A number without a unit counts bytes.
pub proof fn law_units_of_a_limit(
    number: Seq<char>,
    unit: Seq<char>,
    text: &str,
    limit: BandwidthLimit,
)
    requires
        is_word(number),
        forall|i: int| 0 <= i < number.len() ==> '0' <= #[trigger] number[i] <= '9',
        text@ == number + unit,
        unit == "GB"@ || unit == "MB"@ || unit == "KB"@ || unit == "B"@ || unit.len() == 0,
        call_ensures(split_bandwidth_limit, (text,), limit),
    ensures
        limit.number@ == number,
        unit == "GB"@ ==> limit.unit == 1024 * 1024 * 1024,
        unit == "MB"@ ==> limit.unit == 1024 * 1024,
        unit == "KB"@ ==> limit.unit == 1024,
        unit == "B"@ ==> limit.unit == 1,
        unit.len() == 0 ==> limit.unit == 1,
{
    reveal_strlit("GB");
    reveal_strlit("MB");
    reveal_strlit("KB");
    reveal_strlit("B");
    let t = text@;
    let n = t.len() as int;
    assert(t.take(number.len() as int) =~= number);
    assert(!crate::text::spec_is_whitespace(number[0]));
    assert(!crate::text::spec_is_whitespace(number[number.len() - 1]));
    assert(spec_trim(number) == number);
    if unit.len() == 2 {
        assert(t.subrange(n - 2, n) =~= unit);
        assert(t[n - 2] == unit[0]);
    } else if unit.len() == 1 {
        assert(t.subrange(n - 1, n) =~= unit);
        assert(t[n - 2] == number[number.len() - 1]);
    } else {
        assert(t =~= number);
    }
    if n >= 2 {
        assert(t.subrange(n - 2, n)[0] == t[n - 2]);
        assert(t.subrange(n - 2, n)[1] == t[n - 1]);
    }
    assert(t.subrange(n - 1, n)[0] == t[n - 1]);
}

/// White space around a limit and the case of its unit do not matter; nothing is no
/// limit.
pub proof fn law_limits_are_read_in_any_case(
    text: &str,
    trimmed: String,
    capital: &str,
    parsed: Option<BandwidthLimit>,
    split: BandwidthLimit,
)
    requires
        call_ensures(trim, (text,), trimmed),
        capital@ == uppercase_of(trimmed@),
        call_ensures(parse_bandwidth_limit, (text,), parsed),
        call_ensures(split_bandwidth_limit, (capital,), split),
    ensures
        parsed is None == (capital@.len() == 0),
        parsed is Some ==> parsed->0.number@ == split.number@ && parsed->0.unit == split.unit,
{
}

/// No more is moved at once than is there or fits, no more than the limit leaves but for
/// the least amount, and at least that amount where it is there.
pub proof fn law_limits_are_kept(
    available: usize,
    room: usize,
    least_amount: usize,
    read: usize,
    written: usize,
)
    requires
        call_ensures(read_limit, (available, room, least_amount), read),
        call_ensures(write_limit, (available, room, least_amount), written),
    ensures
        read == written,
        read <= room,
        read <= available || read <= least_amount,
        room <= available ==> read == room,
        room >= least_amount ==> read >= least_amount,
        least_amount <= available <= room ==> read == available,
{
}

/// An operation is tried once and as often again as the settings say, each time after the
/// pause that is given; the pauses add up.
pub proof fn law_retries_are_counted<T>(
    fresh: RetryState,
    s0: &mut RetryState,
    s1: &mut RetryState,
    first: u64,
    second: u64,
    a: RetryStep,
    b: RetryStep,
    value: T,
    done: RetryResult<T>,
    at_once: RetryResult<T>,
    next: u32,
)
    requires
        first + second <= u64::MAX,
        call_ensures(RetryState::new, (1u32,), fresh),
        call_ensures(RetryState::next_retry, (&fresh,), next),
        call_ensures(RetryState::succeeded::<T>, (&fresh, value), at_once),
        *old(s0) == fresh,
        call_ensures(RetryState::failed, (s0, first), a),
        call_ensures(RetryState::succeeded::<T>, (&*final(s0), value), done),
        *old(s1) == *final(s0),
        call_ensures(RetryState::failed, (s1, second), b),
    ensures
        next == 1,
        at_once.attempts == 1 && at_once.total_delay_ms == 0 && at_once.value == value,
        a == (RetryStep::Wait { ms: first }),
        done.attempts == 2 && done.total_delay_ms == first && done.value == value,
        b is GiveUp,
{
}

/// After a failure there is another attempt exactly where fewer of them failed than may be
/// tried again.
pub proof fn law_retries_end(
    s: &mut RetryState,
    pause: u64,
    before: u32,
    after: u32,
    step: RetryStep,
)
    requires
        old(s).wf(),
        old(s).waited() + pause <= u64::MAX,
        call_ensures(RetryState::next_retry, (&*old(s),), before),
        call_ensures(RetryState::failed, (s, pause), step),
        call_ensures(RetryState::next_retry, (&*final(s),), after),
    ensures
        step is Wait == (before <= old(s).max()),
        step is Wait ==> step == (RetryStep::Wait { ms: pause }) && after == before + 1,
        step is GiveUp ==> after == before,
{
}

/// Pauses grow by the first one each time, or by a factor, up to the longest; the first
/// attempt comes without one.
pub proof fn law_pauses_of_retries(
    config: RetryConfig,
    attempt: u32,
    grown: u64,
    ms: u64,
)
    requires
        call_ensures(RetryConfig::calculate_delay, (&config, attempt, grown), ms),
    ensures
        attempt == 0 ==> ms == 0,
        ms <= config.max_delay_ms || attempt == 0,
        attempt > 0 && config.use_exponential_backoff && grown <= config.max_delay_ms ==> ms
            == grown,
        attempt > 0 && config.use_exponential_backoff && grown > config.max_delay_ms ==> ms
            == config.max_delay_ms,
        attempt > 0 && !config.use_exponential_backoff && config.initial_delay_ms * attempt
            <= config.max_delay_ms ==> ms == config.initial_delay_ms * attempt,
        attempt > 0 && !config.use_exponential_backoff && config.initial_delay_ms * attempt
            > config.max_delay_ms ==> ms == config.max_delay_ms,
{
}

/// Trying again may help where a connection was refused, reset, aborted or timed out, or
/// was not there, and not after other errors.
pub proof fn law_what_is_worth_a_retry(
    kind: IoErrorKind,
    text: String,
    error: ConnectionError,
    again: bool,
    other: bool,
)
    requires
        call_ensures(ConnectionError::from_io, (kind, text), error),
        call_ensures(<ConnectionError as RetryableError>::is_retryable, (&error,), again),
        call_ensures(
            <ConnectionError as RetryableError>::is_retryable,
            (&ConnectionError::Other(text),),
            other,
        ),
    ensures
        again == !(kind is Other),
        !other,
        kind is ConnectionRefused ==> error is Refused,
        kind is ConnectionReset ==> error is Reset,
        kind is ConnectionAborted ==> error is Reset,
        kind is TimedOut ==> error is Timeout,
        kind is NotConnected || kind is Other ==> (error matches ConnectionError::Io {
            kind: k,
            text: t,
        } && k == kind && t@ == text@),
{
}

/// A request for the public address is 20 bytes: it asks, has no attributes, and names its
/// transaction. It is not taken for a response, not even to itself.
pub proof fn law_address_is_asked_for(
    id: [u8; 12],
    request: Vec<u8>,
    message: &[u8],
    parsed: Result<Endpoint, StunError>,
    own: Result<Endpoint, StunError>,
)
    requires
        call_ensures(build_binding_request, (id,), request),
        message@ == request@,
        call_ensures(parse_mapped_address, (message,), parsed),
        call_ensures(probe_reply, (message, id), own),
    ensures
        request@.len() == 20,
        request@.take(8) == seq![0u8, 1u8, 0u8, 0u8, 0x21u8, 0x12u8, 0xA4u8, 0x42u8],
        request@.skip(8) == id@,
        parsed is Err,
        own is Err,
{
    assert(id@.len() == 12);
    crate::stun::law_request_is_not_a_response(id@);
    assert(request@.take(8) =~= seq![0u8, 1u8, 0u8, 0u8, 0x21u8, 0x12u8, 0xA4u8, 0x42u8]);
    assert(request@.skip(8) =~= id@);
}

/// The bytes of a response to a transaction: its type, the length of its attributes, the
/// cookie, the transaction, and one attribute with the address and the port.
#[verifier::opaque]
pub open spec fn address_response(id: Seq<u8>, ip: u32, port: u16) -> Seq<u8> {
    seq![1u8, 1u8, 0u8, 12u8, 0x21u8, 0x12u8, 0xA4u8, 0x42u8] + id + seq![
        0u8,
        0x20u8,
        0u8,
        8u8,
        0u8,
        1u8,
        (port / 256) as u8,
        (port % 256) as u8,
        (ip / 16777216) as u8,
        (ip / 65536 % 256) as u8,
        (ip / 256 % 256) as u8,
        (ip % 256) as u8,
    ]
}

/// A response to a transaction gives the address that it holds, mixed with the cookie; a
/// response to another transaction gives none.
pub proof fn law_address_is_learned(
    id: [u8; 12],
    other: [u8; 12],
    endpoint: Endpoint,
    ip: u32,
    port: u16,
    message: &[u8],
    mine: Result<Endpoint, StunError>,
    foreign: Result<Endpoint, StunError>,
)
    requires
        ip == endpoint.ip ^ 0x2112_A442,
        port == endpoint.port ^ 0x2112,
        message@ == address_response(id@, ip, port),
        call_ensures(probe_reply, (message, id), mine),
        call_ensures(probe_reply, (message, other), foreign),
        other@ != id@,
        other@ != message@.subrange(4, 16),
    ensures
        mine == Ok::<Endpoint, StunError>(endpoint),
        foreign == Err::<Endpoint, StunError>(StunError::TransactionMismatch),
{
    assert(id@.len() == 12);
    crate::stun::law_response_reports_endpoint(id@, endpoint);
    lemma_response(id@, endpoint, ip, port);
    lemma_place_of_transaction(id@, ip, port);
}

proof fn lemma_response(id: Seq<u8>, endpoint: Endpoint, ip: u32, port: u16)
    requires
        id.len() == 12,
        ip == endpoint.ip ^ 0x2112_A442,
        port == endpoint.port ^ 0x2112,
    ensures
        crate::stun::binding_response(id, endpoint) == address_response(id, ip, port),
{
    reveal(address_response);
    let a = crate::stun::be16(0x0101);
    let b = crate::stun::be16(12);
    let c = crate::message::be32(0x2112_A442);
    let d = crate::stun::be16(0x0020);
    let e = crate::stun::be16(8);
    let f = crate::stun::be16(port as nat);
    let g = crate::message::be32(ip as nat);
    assert(a =~= seq![1u8, 1u8]);
    assert(b =~= seq![0u8, 12u8]);
    assert(c =~= seq![0x21u8, 0x12u8, 0xA4u8, 0x42u8]);
    assert(d =~= seq![0u8, 0x20u8]);
    assert(e =~= seq![0u8, 8u8]);
    assert(f =~= seq![(port / 256) as u8, (port % 256) as u8]);
    assert(g =~= seq![
        (ip / 16777216) as u8,
        (ip / 65536 % 256) as u8,
        (ip / 256 % 256) as u8,
        (ip % 256) as u8,
    ]);
    lemma_joined(a, b, c, id, d, e, f, g);
    assert(a + b + c =~= seq![1u8, 1u8, 0u8, 12u8, 0x21u8, 0x12u8, 0xA4u8, 0x42u8]);
    assert(d + e + seq![0u8, 1u8] + f + g =~= seq![
        0u8,
        0x20u8,
        0u8,
        8u8,
        0u8,
        1u8,
        (port / 256) as u8,
        (port % 256) as u8,
        (ip / 16777216) as u8,
        (ip / 65536 % 256) as u8,
        (ip / 256 % 256) as u8,
        (ip % 256) as u8,
    ]);
}

proof fn lemma_place_of_transaction(id: Seq<u8>, ip: u32, port: u16)
    requires
        id.len() == 12,
    ensures
        address_response(id, ip, port).subrange(8, 20) == id,
{
    reveal(address_response);
    assert(address_response(id, ip, port).subrange(8, 20) =~= id);
}

proof fn lemma_joined(
    a: Seq<u8>,
    b: Seq<u8>,
    c: Seq<u8>,
    id: Seq<u8>,
    d: Seq<u8>,
    e: Seq<u8>,
    f: Seq<u8>,
    g: Seq<u8>,
)
    ensures
        a + b + c + id + d + e + seq![0u8, 1u8] + f + g == (a + b + c) + id + (d + e + seq![
            0u8,
            1u8,
        ] + f + g),
{
    assert(a + b + c + id + d + e + seq![0u8, 1u8] + f + g =~= (a + b + c) + id + (d + e + seq![
        0u8,
        1u8,
    ] + f + g));
}

/// The servers are asked one after the other, until one answers; where all failed the
/// search fails.
pub proof fn law_servers_are_asked_in_turn(
    servers: Vec<String>,
    errors: Vec<String>,
    step: DiscoverStep,
)
    requires
        errors@.len() <= servers@.len(),
        call_ensures(discover_step, (&servers, &errors), step),
    ensures
        errors@.len() < servers@.len() ==> step == DiscoverStep::Probe(errors@.len() as usize),
        errors@.len() == servers@.len() ==> step is Failed,
{
}

/// An identifier has the length that is asked for, and is made of letters and digits; it
/// is made of those at the positions that chance gives.
pub proof fn law_identifiers(
    len: usize,
    id: String,
    positions: Vec<usize>,
    made: String,
    i: int,
)
    requires
        call_ensures(rand_id, (len,), id),
        forall|k: int| 0 <= k < positions@.len() ==> positions@[k] < 62,
        call_ensures(id_of, (&positions,), made),
    ensures
        id@.len() == len,
        0 <= i < len ==> ('a' <= id@[i] <= 'z' || 'A' <= id@[i] <= 'Z' || '0' <= id@[i] <= '9'),
        made@.len() == positions@.len(),
        0 <= i < positions@.len() ==> made@[i]
            == "abcdefghijklmnopqrstuvwxyzABCDEFGHIJKLMNOPQRSTUVWXYZ0123456789"@[positions@[i] as int],
{
    reveal_strlit("abcdefghijklmnopqrstuvwxyzABCDEFGHIJKLMNOPQRSTUVWXYZ0123456789");
    if 0 <= i < len {
        let all = crate::random::id_alphabet();
        assert(all.contains(id@[i]));
        let k = all.index_of(id@[i]);
        assert(all[k] == id@[i]);
    }
}

/// A proxy of the client goes to its local address, at the speed of its own limit or the
/// general one; kinds without a local service need nothing. It is known from then on until
/// it is removed.
pub proof fn law_local_services(
    fresh: ClientProxyManager,
    m0: &mut ClientProxyManager,
    m1: &mut ClientProxyManager,
    m2: &mut ClientProxyManager,
    limit: Option<String>,
    config: ProxyConfig,
    name: &str,
    r: Result<LocalStart, ClientError>,
    added: Option<String>,
    removed: Option<String>,
)
    requires
        call_ensures(ClientProxyManager::new, (), fresh),
        *old(m0) == fresh,
        call_ensures(ClientProxyManager::set_bandwidth_limit, (m0, limit), ()),
        *old(m1) == *final(m0),
        name@ == config.name@,
        call_ensures(<ClientProxyManager as ProxyManager>::add_proxy, (m1, config), r),
        call_ensures(
            <ClientProxyManager as ProxyManager>::get_proxy_status,
            (&*final(m1), name),
            added,
        ),
        *old(m2) == *final(m1),
        call_ensures(<ClientProxyManager as ProxyManager>::remove_proxy, (m2, name), ()),
        call_ensures(
            <ClientProxyManager as ProxyManager>::get_proxy_status,
            (&*final(m2), name),
            removed,
        ),
    ensures
        ({
            let kind = config.kind@;
            let serves = kind == "tcp"@ || kind == "http"@ || kind == "https"@ || kind
                == "websocket"@;
            &&& r is Ok
            &&& serves ==> (r->Ok_0 matches LocalStart::ReadAddress(s) && s.local_addr@
                == config.local_ip@ + ":"@ + decimal(config.local_port as nat)
                && s.bandwidth_limit == (if config.bandwidth_limit is Some {
                config.bandwidth_limit
            } else {
                limit
            }))
            &&& !serves ==> r->Ok_0 is Nothing
        }),
        added is Some && added->0@ == "running"@,
        removed is None,
{
}

/// A proxy whose address was read starts where its work connections can be handled; one
/// whose address could not be read does not.
pub proof fn law_local_service_starts(
    fresh: ClientProxyManager,
    m: &mut ClientProxyManager,
    service: LocalService,
    text: String,
    early: Result<LocalService, ClientError>,
    bad: Result<LocalService, ClientError>,
    good: Result<LocalService, ClientError>,
)
    requires
        call_ensures(ClientProxyManager::new, (), fresh),
        call_ensures(ClientProxyManager::address_read, (&fresh, service, None::<String>), early),
        *old(m) == fresh,
        call_ensures(ClientProxyManager::set_work_conn_manager, (m,), ()),
        call_ensures(ClientProxyManager::address_read, (&*final(m), service, Some(text)), bad),
        call_ensures(
            ClientProxyManager::address_read,
            (&*final(m), service, None::<String>),
            good,
        ),
    ensures
        early == Err::<LocalService, ClientError>(ClientError::WorkConnManagerNotSet),
        bad matches Err(ClientError::Other(t)) && t@ == text@,
        good == Ok::<LocalService, ClientError>(service),
{
}

/// Work connections of a proxy go to the handler that was registered for it last.
pub proof fn law_handlers_are_found<S>(
    m: &mut WorkConnManager<S>,
    name: String,
    key: &str,
    other: &str,
    sender: S,
    found: Option<&S>,
    handled: Result<&S, ClientError>,
    before: Option<&S>,
    after: Option<&S>,
)
    requires
        name@ == key@,
        other@ != key@,
        call_ensures(WorkConnManager::<S>::get_work_conn_sender, (&*old(m), other), before),
        call_ensures(WorkConnManager::<S>::register_work_conn_handler, (m, name, sender), ()),
        call_ensures(WorkConnManager::<S>::get_work_conn_sender, (&*final(m), key), found),
        call_ensures(WorkConnManager::<S>::handle_work_conn, (&*final(m), key), handled),
        call_ensures(WorkConnManager::<S>::get_work_conn_sender, (&*final(m), other), after),
    ensures
        found == Some(&sender),
        handled == Ok::<&S, ClientError>(&sender),
        before == after,
{
}

/// The error of a search for a public address names each server with its error.
pub proof fn law_failed_searches_are_explained(
    server: String,
    error: String,
    servers: Vec<String>,
    errors: Vec<String>,
    step: DiscoverStep,
    none: Vec<String>,
    empty: DiscoverStep,
)
    requires
        servers@ == seq![server],
        errors@ == seq![error],
        none@.len() == 0,
        call_ensures(discover_step, (&servers, &errors), step),
        call_ensures(discover_step, (&none, &none), empty),
    ensures
        step matches DiscoverStep::Failed(t) && t@ == "all STUN servers failed: "@ + ("; "@
            + server@ + ": "@ + error@),
        empty matches DiscoverStep::Failed(t) && t@ == "no STUN servers configured"@,
{
    let s = texts(servers@);
    let e = texts(errors@);
    assert(s =~= seq![server@]);
    assert(e =~= seq![error@]);
    assert(e.drop_last() =~= Seq::<Seq<char>>::empty());
    reveal_with_fuel(crate::stun::failure_list, 2);
    let none = Seq::<char>::empty();
    assert(none + "; "@ =~= "; "@);
    assert(crate::stun::failure_list(s, e) =~= "; "@ + server@ + ": "@ + error@);
}

/// An address that is given twice in a row is tried once.
pub proof fn law_same_addresses_are_tried_once(
    one: String,
    two: String,
    peers: Vec<String>,
    connects: bool,
    made: KcpPeers,
    targets: Vec<String>,
)
    requires
        peers@ == seq![one, two],
        one@ == two@,
        call_ensures(KcpPeers::new, (peers, connects), Ok(made)),
        call_ensures(KcpPeers::targets, (&made,), targets),
    ensures
        targets@.len() == 1,
        targets@[0]@ == one@,
{
    let all = crate::streams::addr_texts(peers@);
    assert(all =~= seq![one@, two@]);
    assert(all.drop_last() =~= seq![one@]);
    reveal_with_fuel(crate::streams::dedup, 3);
    let t = crate::streams::addr_texts(targets@);
    assert(t =~= seq![one@]);
    assert(t.len() == targets@.len());
    assert(t[0] == targets@[0]@);
}

/// A new transaction is named in its request, and its name is made of two numbers, the
/// highest byte first.
pub proof fn law_transactions_are_named(
    made: ([u8; 12], Vec<u8>),
    high: u32,
    low: u64,
    id: [u8; 12],
)
    requires
        call_ensures(new_binding_request, (), made),
        call_ensures(join_transaction_id, (high, low), id),
    ensures
        made.1@.len() == 20,
        made.1@.skip(8) == made.0@,
        id@[3] == high % 256,
        id@[0] == high / 16777216 % 256,
        id@[11] == low % 256,
        id@[10] == low / 256 % 256,
        id@[4] == low / 72057594037927936 % 256,
{
    assert(made.0@.len() == 12);
    assert(made.1@.skip(8) =~= made.0@);
    reveal_with_fuel(crate::stun::pow256, 9);
    assert(crate::stun::pow256(0) == 1);
    assert(low as int / 1 == low);
    assert(high as int / 1 == high);
    assert(id@[11] == (low as int / crate::stun::pow256(11 - 11) % 256) as u8);
    assert(id@[10] == (low as int / crate::stun::pow256(11 - 10) % 256) as u8);
}

/// A conversation that is asked for, or that a packet names, has that number.
pub proof fn law_conversations_keep_their_number(
    asked: u32,
    new: u32,
    packet: &[u8],
    number: Option<u32>,
    accepted: u32,
)
    requires
        call_ensures(new_conversation, (Some(asked),), new),
        call_ensures(conversation, (packet,), number),
        call_ensures(accepted_conversation, (packet,), accepted),
    ensures
        new == asked,
        number is Some ==> accepted == number->0,
{
}

/// What is not said of pools and retries, and which servers are asked for an address.
pub proof fn law_defaults(
    pool: PoolConfig,
    retry: RetryConfig,
    fast: RetryConfig,
    slow: RetryConfig,
    servers: Vec<String>,
)
    requires
        call_ensures(<PoolConfig as Default>::default, (), pool),
        call_ensures(<RetryConfig as Default>::default, (), retry),
        call_ensures(RetryConfig::fast, (), fast),
        call_ensures(RetryConfig::slow, (), slow),
        call_ensures(default_stun_servers, (), servers),
    ensures
        pool.max_size == 10 && pool.connection_timeout_ms == 5_000 && pool.max_idle_time_ms
            == 300_000 && pool.max_lifetime_ms == 3_600_000 && pool.health_check,
        retry.max_retries == 3 && retry.initial_delay_ms == 100 && retry.max_delay_ms == 30_000
            && retry.use_exponential_backoff,
        fast.max_retries == retry.max_retries && fast.initial_delay_ms == 50 && fast.max_delay_ms
            == 5_000,
        slow.max_retries == 5 && slow.initial_delay_ms == 1_000 && slow.max_delay_ms == 60_000,
        fast.initial_delay_ms < retry.initial_delay_ms && retry.initial_delay_ms
            < slow.initial_delay_ms,
        servers@.len() == 3 && servers@[0]@ == "stun.l.google.com:19302"@ && servers@[1]@
            == "stun1.l.google.com:19302"@ && servers@[2]@ == "stun.cloudflare.com:3478"@,
{
    let t = texts(servers@);
    assert(t.len() == servers@.len());
    assert(t[0] == servers@[0]@ && t[1] == servers@[1]@ && t[2] == servers@[2]@);
}

/// A response of another type, with another cookie or without an address is of no use, and
/// what is wrong with it is said.
pub proof fn law_useless_responses(message: &[u8], r: Result<Endpoint, StunError>)
    requires
        call_ensures(parse_mapped_address, (message,), r),
    ensures
        message@.len() < 20 ==> r == Err::<Endpoint, StunError>(StunError::TooShort),
        message@.len() >= 20 && !(message@[0] == 1 && message@[1] == 1) ==> r == Err::<
            Endpoint,
            StunError,
        >(StunError::UnexpectedType((message@[0] * 256 + message@[1]) as u16)),
        message@.len() >= 20 && message@[0] == 1 && message@[1] == 1 && message@[2] == 0
            && message@[3] == 0 && message@[4] == 0x21 && message@[5] == 0x12 && message@[6] == 0xA4
            && message@[7] == 0x42 ==> r == Err::<Endpoint, StunError>(StunError::NoMappedAddress),
        message@.len() >= 20 && message@[0] == 1 && message@[1] == 1 && !(message@[4] == 0x21
            && message@[5] == 0x12 && message@[6] == 0xA4 && message@[7] == 0x42) ==> r == Err::<
            Endpoint,
            StunError,
        >(StunError::CookieMismatch),
{
    let m = message@;
    if m.len() >= 20 {
        let c = m.skip(4);
        assert(c[0] == m[4] && c[1] == m[5] && c[2] == m[6] && c[3] == m[7]);
    }
}

/// An attribute that holds an address and a port, mixed with the cookie or as they are.
pub open spec fn address_attribute(mixed: bool, ip: u32, port: u16) -> Seq<u8> {
    seq![
        0u8,
        if mixed {
            0x20u8
        } else {
            1u8
        },
        0u8,
        8u8,
        0u8,
        1u8,
        (port / 256) as u8,
        (port % 256) as u8,
        (ip / 16777216) as u8,
        (ip / 65536 % 256) as u8,
        (ip / 256 % 256) as u8,
        (ip % 256) as u8,
    ]
}

proof fn lemma_address_at(resp: Seq<u8>, at: int, end: int, mixed: bool, ip: u32, port: u16)
    requires
        0 <= at,
        at + 12 <= end <= resp.len(),
        resp.subrange(at, at + 12) == address_attribute(mixed, ip, port),
    ensures
        crate::stun::scan_attributes(resp, at, end) == Ok::<Endpoint, StunError>(
            if mixed {
                Endpoint { ip: ip ^ 0x2112_A442, port: port ^ 0x2112 }
            } else {
                Endpoint { ip, port }
            },
        ),
{
    let a = address_attribute(mixed, ip, port);
    assert forall|k: int| 0 <= k < 12 implies #[trigger] resp[at + k] == a[k] by {
        assert(resp.subrange(at, at + 12)[k] == resp[at + k]);
    }
    assert(resp[at + 0] == a[0] && resp[at + 1] == a[1] && resp[at + 2] == a[2] && resp[at + 3]
        == a[3]);
    let value = resp.subrange(at + 4, at + 4 + 8);
    assert(value[1] == resp[at + 5]);
    assert(value[2] == resp[at + 6]);
    assert(value[3] == resp[at + 7]);
    let v = value.skip(4);
    assert(v[0] == resp[at + 8] && v[1] == resp[at + 9] && v[2] == resp[at + 10] && v[3] == resp[at
        + 11]);
    assert(ip / 65536 == ip / 256 / 256);
    assert(ip / 16777216 == ip / 256 / 256 / 256);
    assert(crate::stun::be16_at(value, 2) == port);
    assert(crate::message::be32_value(v) == ip);
}

/// The address in a response is found also behind an attribute that says something else,
/// whose length is rounded up to a multiple of four; it is read as it is where it is not
/// mixed with the cookie.
pub proof fn law_address_is_found_among_attributes(
    message: &[u8],
    id: Seq<u8>,
    kind: u8,
    len: u8,
    value: Seq<u8>,
    mixed: bool,
    ip: u32,
    port: u16,
    r: Result<Endpoint, StunError>,
)
    requires
        id.len() == 12,
        kind != 0x20 && kind != 1,
        len <= 200,
        len <= value.len() < len + 4,
        value.len() % 4 == 0,
        message@ == seq![1u8, 1u8, 0u8, (16 + value.len()) as u8, 0x21u8, 0x12u8, 0xA4u8, 0x42u8]
            + id + seq![0u8, kind, 0u8, len] + value + address_attribute(mixed, ip, port),
        call_ensures(parse_mapped_address, (message,), r),
    ensures
        r == Ok::<Endpoint, StunError>(
            if mixed {
                Endpoint { ip: ip ^ 0x2112_A442, port: port ^ 0x2112 }
            } else {
                Endpoint { ip, port }
            },
        ),
{
    let m = message@;
    let n = value.len() as int;
    let at = 24 + n;
    assert(m.len() == 36 + n);
    assert(m[0] == 1 && m[1] == 1 && m[2] == 0 && m[3] == 16 + n);
    let c = m.skip(4);
    assert(c[0] == 0x21 && c[1] == 0x12 && c[2] == 0xA4 && c[3] == 0x42);
    assert(m[20] == 0 && m[21] == kind && m[22] == 0 && m[23] == len);
    assert(crate::stun::padded(len as nat) == n);
    assert(m.subrange(at, at + 12) =~= address_attribute(mixed, ip, port));
    lemma_address_at(m, at, m.len() as int, mixed, ip, port);
    assert(crate::stun::be16_at(m, 2) == 16 + n);
    assert(crate::stun::be16_at(m, 20) == kind);
    assert(crate::stun::be16_at(m, 22) == len);
    assert(crate::stun::scan_attributes(m, 20, m.len() as int) == crate::stun::scan_attributes(
        m,
        at,
        m.len() as int,
    ));
}

/// What starting a local service takes is what adding its proxy says.
pub proof fn law_starting_a_local_service(
    m: &mut ClientProxyManager,
    config: ProxyConfig,
    start: LocalStart,
    added: Result<LocalStart, ClientError>,
)
    requires
        call_ensures(ClientProxyManager::start_proxy, (&*old(m), &config), start),
        call_ensures(<ClientProxyManager as ProxyManager>::add_proxy, (m, config), added),
    ensures
        added is Ok,
        match (start, added->Ok_0) {
            (LocalStart::ReadAddress(a), LocalStart::ReadAddress(b)) => a.local_addr@
                == b.local_addr@ && a.bandwidth_limit == b.bandwidth_limit && a.local_addr@
                == config.local_ip@ + ":"@ + decimal(config.local_port as nat),
            (LocalStart::Nothing, LocalStart::Nothing) => true,
            _ => false,
        },
{
}

/// Of two addresses those that are given are tried, the public one first.
pub proof fn law_given_addresses_are_tried(public: &str, local: &str, addrs: Vec<String>)
    requires
        call_ensures(punch_addrs, (public, local), addrs),
    ensures
        public@.len() > 0 && local@.len() > 0 ==> addrs@.len() == 2 && addrs@[0]@ == public@
            && addrs@[1]@ == local@,
        public@.len() > 0 && local@.len() == 0 ==> addrs@.len() == 1 && addrs@[0]@ == public@,
        public@.len() == 0 && local@.len() > 0 ==> addrs@.len() == 1 && addrs@[0]@ == local@,
        public@.len() == 0 && local@.len() == 0 ==> addrs@.len() == 0,
{
    let views = texts(addrs@);
    assert(views.len() == addrs@.len());
    if views.len() > 0 {
        assert(views[0] == addrs@[0]@);
    }
    if views.len() > 1 {
        assert(views[1] == addrs@[1]@);
    }
}

} // verus!
