//! Streams of bytes over transports that carry packets: what is left of a packet
//! after a read, and what a stream over KCP decides.
use crate::random::random_u32;
use crate::text::same;
use vstd::prelude::*;
use vstd::string::*;

verus! {

/// What can go wrong on a connection.
#[derive(Debug)]
pub enum NetError {
    Io(String),
    Tls(String),
    PemDecode(String),
    NotServerConfig,
    NotClientConfig,
    TlsConfigNotSet,
    Other(String),
}

impl NetError {
    /// The text that describes an error.
    pub open spec fn spec_message(self) -> Seq<char> {
        match self {
            NetError::Io(e) => "I/O error: "@ + e@,
            NetError::Tls(e) => "TLS error: "@ + e@,
            NetError::PemDecode(e) => "PEM decode error: "@ + e@,
            NetError::NotServerConfig => "not a TLS server config"@,
            NetError::NotClientConfig => "not a TLS client config"@,
            NetError::TlsConfigNotSet => "TLS config not set"@,
            NetError::Other(e) => e@,
        }
    }

    /// The text that describes the error.
    pub fn message(&self) -> (t: String)
        ensures
            t@ == self.spec_message(),
    {
        match self {
            NetError::Io(e) => "I/O error: ".to_string().concat(e.as_str()),
            NetError::Tls(e) => "TLS error: ".to_string().concat(e.as_str()),
            NetError::PemDecode(e) => "PEM decode error: ".to_string().concat(e.as_str()),
            NetError::NotServerConfig => "not a TLS server config".to_string(),
            NetError::NotClientConfig => "not a TLS client config".to_string(),
            NetError::TlsConfigNotSet => "TLS config not set".to_string(),
            NetError::Other(e) => e.clone(),
        }
    }
}

/// The smaller of two numbers.
pub open spec fn least(a: int, b: int) -> int {
    if a <= b {
        a
    } else {
        b
    }
}

/// The bytes of a packet from one position up to another.
fn part(data: &Vec<u8>, from: usize, to: usize) -> (p: Vec<u8>)
    requires
        from <= to <= data.len(),
    ensures
        p@ == data@.subrange(from as int, to as int),
{
    let mut p: Vec<u8> = Vec::new();
    let mut i: usize = from;
    while i < to
        invariant
            from <= i <= to <= data.len(),
            p@ == data@.subrange(from as int, i as int),
        decreases to - i,
    {
        p.push(data[i]);
        i = i + 1;
        assert(p@ =~= data@.subrange(from as int, i as int));
    }
    p
}

/// What is left of packets that were larger than the room of the reader.
pub struct ReadBuffer {
    pending: Vec<u8>,
}

impl View for ReadBuffer {
    type V = Seq<u8>;

    closed spec fn view(&self) -> Seq<u8> {
        self.pending@
    }
}

impl ReadBuffer {
    /// Nothing is left.
    pub fn new() -> (b: Self)
        ensures
            b@ == Seq::<u8>::empty(),
    {
        ReadBuffer { pending: Vec::new() }
    }

    /// Whether nothing is left.
    pub fn is_empty(&self) -> (b: bool)
        ensures
            b == (self@.len() == 0),
    {
        self.pending.len() == 0
    }

    /// Gives a reader with `room` what is left, as far as it fits.
    pub fn take(&mut self, room: usize) -> (out: Vec<u8>)
        ensures
            out@ == old(self)@.take(least(old(self)@.len() as int, room as int)),
            final(self)@ == old(self)@.skip(out@.len() as int),
    {
        let n: usize = if self.pending.len() <= room {
            self.pending.len()
        } else {
            room
        };
        let out: Vec<u8> = part(&self.pending, 0, n);
        let rest: Vec<u8> = part(&self.pending, n, self.pending.len());
        assert(out@ =~= self@.take(n as int));
        assert(rest@ =~= self@.skip(n as int));
        self.pending = rest;
        out
    }

    /// Gives a reader with `room` a packet, as far as it fits, and keeps the rest.
    pub fn receive(&mut self, data: Vec<u8>, room: usize) -> (out: Vec<u8>)
        requires
            old(self)@.len() == 0,
        ensures
            out@ == data@.take(least(data@.len() as int, room as int)),
            final(self)@ == data@.skip(out@.len() as int),
    {
        self.pending = data;
        self.take(room)
    }
}

/// What a reader gets of a packet, in one read and the reads after it.
pub open spec fn read_all(packet: Seq<u8>, rooms: Seq<nat>) -> Seq<u8>
    decreases rooms.len(),
{
    if rooms.len() == 0 {
        seq![]
    } else {
        let n = least(packet.len() as int, rooms[0] as int);
        packet.take(n) + read_all(packet.skip(n), rooms.drop_first())
    }
}

/// The room of all reads together.
pub open spec fn total_room(rooms: Seq<nat>) -> nat
    decreases rooms.len(),
{
    if rooms.len() == 0 {
        0
    } else {
        rooms[0] + total_room(rooms.drop_first())
    }
}

/// However a reader cuts its reads, it gets the bytes of a packet in order, each
/// once, as many as it has room for.
pub proof fn law_reads_cut_nothing(packet: Seq<u8>, rooms: Seq<nat>)
    ensures
        read_all(packet, rooms) == packet.take(
            least(packet.len() as int, total_room(rooms) as int),
        ),
    decreases rooms.len(),
{
    if rooms.len() == 0 {
        assert(packet.take(0) =~= seq![]);
    } else {
        let n = least(packet.len() as int, rooms[0] as int);
        law_reads_cut_nothing(packet.skip(n), rooms.drop_first());
        let rest = packet.skip(n);
        let m = least(rest.len() as int, total_room(rooms.drop_first()) as int);
        assert(packet.take(n) + rest.take(m) =~= packet.take(n + m));
    }
}

/// The packet that opens a way through a NAT. It is shorter than any KCP packet.
pub open spec fn punch_packet() -> Seq<u8> {
    seq![
        0x72, 0x66, 0x72, 0x70, 0x2d, 0x75, 0x64, 0x70, 0x2d, 0x70, 0x75, 0x6e, 0x63, 0x68,
    ]
}

/// The packet that opens a way through a NAT.
pub fn make_punch_packet() -> (p: Vec<u8>)
    ensures
        p@ == punch_packet(),
{
    vec![0x72, 0x66, 0x72, 0x70, 0x2d, 0x75, 0x64, 0x70, 0x2d, 0x70, 0x75, 0x6e, 0x63, 0x68]
}

/// The byte by which the side that connects makes itself known.
pub const HANDSHAKE_MAGIC: u8 = 0x1F;

/// The length of the header of a KCP packet.
pub const KCP_HEADER: usize = 24;

/// How many segments at most are handed to KCP at once.
pub const MAX_SEGMENTS: usize = 64;

/// What a datagram is.
#[derive(Debug, PartialEq, Eq, Structural)]
pub enum PacketClass {
    /// A packet that opens a way; it is sent back.
    Punch,
    /// Too short for KCP.
    Short,
    /// For KCP.
    Kcp,
}

/// What a datagram is.
pub open spec fn class_of(data: Seq<u8>) -> PacketClass {
    if data == punch_packet() {
        PacketClass::Punch
    } else if data.len() < KCP_HEADER {
        PacketClass::Short
    } else {
        PacketClass::Kcp
    }
}

/// What a datagram is.
pub fn classify_packet(data: &[u8]) -> (c: PacketClass)
    ensures
        c == class_of(data@),
{
    let punch: Vec<u8> = make_punch_packet();
    if data.len() == punch.len() {
        let mut i: usize = 0;
        while i < punch.len() && data[i] == punch[i]
            invariant
                i <= punch.len(),
                data.len() == punch.len(),
                punch@ == punch_packet(),
                forall|j: int| 0 <= j < i ==> data@[j] == punch@[j],
            decreases punch.len() - i,
        {
            i = i + 1;
        }
        if i == punch.len() {
            assert(data@ =~= punch_packet());
            return PacketClass::Punch;
        }
        assert(data@[i as int] != punch@[i as int]);
    }
    if data.len() < KCP_HEADER {
        PacketClass::Short
    } else {
        PacketClass::Kcp
    }
}

/// The number of the conversation that a first packet belongs to, the lowest byte
/// first; nothing where the packet is too short to say.
pub open spec fn conversation_of(packet: Seq<u8>) -> Option<int> {
    if packet.len() >= 4 {
        Some(packet[0] + 256 * packet[1] + 65536 * packet[2] + 16777216 * packet[3])
    } else {
        None
    }
}

/// The number of the conversation that a first packet belongs to; nothing where the
/// packet is too short to say.
pub fn conversation(packet: &[u8]) -> (c: Option<u32>)
    ensures
        match c {
            Some(n) => conversation_of(packet@) == Some(n as int),
            None => conversation_of(packet@) is None,
        },
{
    if packet.len() < 4 {
        return None;
    }
    Some(
        packet[0] as u32 + 256 * packet[1] as u32 + 65536 * packet[2] as u32 + 16777216
            * packet[3] as u32,
    )
}

/// The number of the conversation that a first packet belongs to; any number, by
/// chance, where the packet is too short to say.
pub fn accepted_conversation(packet: &[u8]) -> (n: u32)
    ensures
        conversation_of(packet@) matches Some(c) ==> n == c,
{
    match conversation(packet) {
        Some(n) => n,
        None => random_u32(),
    }
}

/// The number of a new conversation: the one that is asked for, else any, by chance.
pub fn new_conversation(asked: Option<u32>) -> (n: u32)
    ensures
        asked matches Some(c) ==> n == c,
{
    match asked {
        Some(n) => n,
        None => random_u32(),
    }
}

/// Addresses in a row that are the same, taken once.
pub open spec fn dedup(a: Seq<Seq<char>>) -> Seq<Seq<char>>
    decreases a.len(),
{
    if a.len() <= 1 {
        a
    } else if a[a.len() - 1] == a[a.len() - 2] {
        dedup(a.drop_last())
    } else {
        dedup(a.drop_last()).push(a.last())
    }
}

/// The addresses as texts.
pub open spec fn addr_texts(v: Seq<String>) -> Seq<Seq<char>> {
    v.map_values(|s: String| s@)
}

/// What a write on a stream does.
#[derive(Debug, PartialEq, Eq, Structural)]
pub enum WriteStep {
    /// The stream is closed.
    Broken,
    /// The window is full: the writer waits.
    Wait,
    /// Hand this many bytes to KCP.
    Send { count: usize },
}

/// What a stream over KCP knows of its peer.
pub struct KcpPeers {
    peers: Vec<String>,
    active_peer: Option<String>,
    active: bool,
    dead: bool,
    closed: bool,
    consume_handshake: bool,
}

impl KcpPeers {
    /// The addresses where the peer may be.
    pub closed spec fn candidates(self) -> Seq<Seq<char>> {
        addr_texts(self.peers@)
    }

    /// The address where the peer is.
    pub closed spec fn locked(self) -> Option<Seq<char>> {
        match self.active_peer {
            Some(p) => Some(p@),
            None => None,
        }
    }

    pub closed spec fn is_active(self) -> bool {
        self.active
    }

    /// Whether the stream has ended.
    pub closed spec fn ended(self) -> bool {
        self.dead || self.closed
    }

    /// Whether the link is given up.
    pub closed spec fn is_dead(self) -> bool {
        self.dead
    }

    /// Whether the byte by which the other side makes itself known may still come.
    pub closed spec fn awaits_handshake(self) -> bool {
        self.consume_handshake
    }

    /// A stream to a peer that is at one of these addresses. The side that connects
    /// knows the number of the conversation; the other side learns it.
    pub fn new(peers: Vec<String>, connects: bool) -> (r: Result<Self, NetError>)
        ensures
            match r {
                Ok(k) => {
                    &&& peers@.len() > 0
                    &&& k.candidates() == dedup(addr_texts(peers@))
                    &&& k.locked() is None
                    &&& !k.is_active()
                    &&& !k.ended()
                    &&& !k.is_dead()
                    &&& k.awaits_handshake() == !connects
                },
                Err(e) => peers@.len() == 0 && e is Other && e.spec_message()
                    == "no peer addresses"@,
            },
    {
        if peers.len() == 0 {
            return Err(NetError::Other("no peer addresses".to_string()));
        }
        let mut kept: Vec<String> = Vec::new();
        let mut i: usize = 0;
        let ghost all = addr_texts(peers@);
        while i < peers.len()
            invariant
                i <= peers.len(),
                all == addr_texts(peers@),
                addr_texts(kept@) == dedup(all.take(i as int)),
                i > 0 ==> kept@.len() > 0 && kept@.last()@ == all[i - 1],
            decreases peers.len() - i,
        {
            let ghost upto = all.take(i + 1);
            assert(upto.drop_last() == all.take(i as int));
            assert(upto.last() == peers[i as int]@);
            if i > 0 {
                assert(upto[i - 1] == all[i - 1]);
            }
            if i == 0 || !same(peers[i - 1].as_str(), peers[i].as_str()) {
                let ghost had = kept@;
                kept.push(peers[i].clone());
                assert(addr_texts(kept@) =~= addr_texts(had).push(upto.last()));
                if i == 0 {
                    assert(addr_texts(kept@) =~= upto);
                }
            }
            i = i + 1;
        }
        assert(all.take(i as int) == all);
        Ok(
            KcpPeers {
                peers: kept,
                active_peer: None,
                active: false,
                dead: false,
                closed: false,
                consume_handshake: !connects,
            },
        )
    }

    /// KCP accepted a packet from this address. The first such address is where the
    /// peer is.
    pub fn accepted_from(&mut self, addr: &str)
        ensures
            final(self).is_active(),
            final(self).locked() == (if old(self).locked() is None {
                Some(addr@)
            } else {
                old(self).locked()
            }),
            final(self).candidates() == old(self).candidates(),
            final(self).ended() == old(self).ended(),
            final(self).is_dead() == old(self).is_dead(),
            final(self).awaits_handshake() == old(self).awaits_handshake(),
    {
        self.active = true;
        if self.active_peer.is_none() {
            self.active_peer = Some(addr.to_string());
        }
    }

    /// Whether the peer was heard.
    pub fn has_activity(&self) -> (b: bool)
        ensures
            b == self.is_active(),
    {
        self.active
    }

    /// The address where the peer is.
    pub fn peer_addr(&self) -> (a: Option<String>)
        ensures
            match a {
                Some(t) => self.locked() == Some(t@),
                None => self.locked() is None,
            },
    {
        match &self.active_peer {
            Some(p) => Some(p.clone()),
            None => None,
        }
    }

    /// Where packets go: to the peer, or while it is not known to all candidates; from
    /// a dead link nowhere.
    pub fn targets(&self) -> (t: Vec<String>)
        ensures
            addr_texts(t@) == (if self.is_dead() {
                seq![]
            } else {
                match self.locked() {
                    Some(p) => seq![p],
                    None => self.candidates(),
                }
            }),
    {
        let mut t: Vec<String> = Vec::new();
        if self.dead {
            assert(addr_texts(t@) =~= seq![]);
            return t;
        }
        if let Some(p) = &self.active_peer {
            t.push(p.clone());
            assert(addr_texts(t@) =~= seq![p@]);
            return t;
        }
        self.all_peers()
    }

    fn all_peers(&self) -> (t: Vec<String>)
        ensures
            addr_texts(t@) == self.candidates(),
    {
        let mut t: Vec<String> = Vec::new();
        assert(addr_texts(t@) =~= addr_texts(self.peers@).take(0));
        let mut i: usize = 0;
        while i < self.peers.len()
            invariant
                i <= self.peers.len(),
                addr_texts(t@) == addr_texts(self.peers@).take(i as int),
            decreases self.peers.len() - i,
        {
            let ghost had = t@;
            t.push(self.peers[i].clone());
            assert(addr_texts(t@) =~= addr_texts(had).push(self.peers[i as int]@));
            i = i + 1;
            assert(addr_texts(t@) =~= addr_texts(self.peers@).take(i as int));
        }
        assert(addr_texts(t@) =~= addr_texts(self.peers@));
        t
    }

    /// Where packets that open a way are sent: nowhere once the peer is known.
    pub fn punch_targets(&self) -> (t: Option<Vec<String>>)
        ensures
            match t {
                Some(v) => self.locked() is None && addr_texts(v@) == self.candidates(),
                None => self.locked() is Some,
            },
    {
        if self.active_peer.is_some() {
            None
        } else {
            Some(self.all_peers())
        }
    }

    /// Whether the stream has ended.
    pub fn is_ended(&self) -> (b: bool)
        ensures
            b == self.ended(),
    {
        self.dead || self.closed
    }

    /// The link is given up.
    pub fn mark_dead(&mut self)
        ensures
            final(self).is_dead(),
            final(self).ended(),
            final(self).candidates() == old(self).candidates(),
            final(self).locked() == old(self).locked(),
            final(self).is_active() == old(self).is_active(),
            final(self).awaits_handshake() == old(self).awaits_handshake(),
    {
        self.dead = true;
    }

    /// The stream is closed.
    pub fn close(&mut self)
        ensures
            final(self).ended(),
            final(self).is_dead() == old(self).is_dead(),
            final(self).candidates() == old(self).candidates(),
            final(self).locked() == old(self).locked(),
            final(self).is_active() == old(self).is_active(),
            final(self).awaits_handshake() == old(self).awaits_handshake(),
    {
        self.closed = true;
    }

    /// How many bytes at the start of what KCP gave are not for the reader: the byte
    /// by which the other side makes itself known, if it is the first that comes.
    pub fn skip_handshake(&mut self, data: &[u8]) -> (n: usize)
        ensures
            n == (if old(self).awaits_handshake() && data@.len() > 0 && data@[0]
                == HANDSHAKE_MAGIC {
                1int
            } else {
                0
            }),
            final(self).awaits_handshake() == (old(self).awaits_handshake() && data@.len() == 0),
            final(self).candidates() == old(self).candidates(),
            final(self).locked() == old(self).locked(),
            final(self).is_active() == old(self).is_active(),
            final(self).ended() == old(self).ended(),
            final(self).is_dead() == old(self).is_dead(),
    {
        if data.len() >= 1 && self.consume_handshake {
            self.consume_handshake = false;
            if data[0] == HANDSHAKE_MAGIC {
                return 1;
            }
        }
        0
    }

    /// What a write of `len` bytes does, where `waiting` segments are on their way,
    /// `window` may be, and a segment holds `mss` bytes.
    pub fn write_step(&self, len: usize, waiting: usize, window: u16, mss: usize) -> (s: WriteStep)
        requires
            mss * MAX_SEGMENTS <= usize::MAX,
        ensures
            s == (if self.ended() {
                WriteStep::Broken
            } else if waiting >= window {
                WriteStep::Wait
            } else {
                WriteStep::Send { count: least(len as int, mss * MAX_SEGMENTS) as usize }
            }),
    {
        if self.dead || self.closed {
            return WriteStep::Broken;
        }
        if waiting >= window as usize {
            return WriteStep::Wait;
        }
        let max: usize = mss * MAX_SEGMENTS;
        WriteStep::Send {
            count: if len <= max {
                len
            } else {
                max
            },
        }
    }
}

/// A packet that opens a way is never taken for a KCP packet.
pub proof fn law_punch_is_no_kcp_packet()
    ensures
        punch_packet().len() < KCP_HEADER,
        class_of(punch_packet()) is Punch,
        forall|d: Seq<u8>| #[trigger] class_of(d) is Kcp ==> d != punch_packet(),
{
}

} // verus!
