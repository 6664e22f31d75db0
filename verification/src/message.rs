//! The messages that servers and clients exchange, and how their encoded bodies
//! are framed on a connection.
use crate::config::{ProxyConfig, VisitorConfig};
use crate::names::NameMap;
use crate::text::{decimal, push_decimal};
use vstd::prelude::*;
use vstd::string::*;

verus! {

/// What can go wrong with a message.
#[derive(Debug)]
pub enum CoreError {
    /// A message of the first length, where the second is the longest allowed.
    MessageTooLarge(usize, usize),
    SerializationFailed(String),
    Io(String),
    Other(String),
}

impl CoreError {
    /// The text that describes an error.
    pub open spec fn spec_message(self) -> Seq<char> {
        match self {
            CoreError::MessageTooLarge(n, max) => "message too large: "@ + decimal(n as nat)
                + " bytes (max: "@ + decimal(max as nat) + ")"@,
            CoreError::SerializationFailed(e) => "JSON serialization failed: "@ + e@,
            CoreError::Io(e) => "I/O error: "@ + e@,
            CoreError::Other(e) => e@,
        }
    }

    /// The text that describes the error.
    pub fn message(&self) -> (text: String)
        ensures
            text@ == self.spec_message(),
    {
        match self {
            CoreError::MessageTooLarge(n, max) => {
                let mut out: String = "message too large: ".to_string();
                push_decimal(&mut out, *n as u64);
                out.append(" bytes (max: ");
                push_decimal(&mut out, *max as u64);
                out.append(")");
                out
            },
            CoreError::SerializationFailed(e) => "JSON serialization failed: ".to_string().concat(
                e.as_str(),
            ),
            CoreError::Io(e) => "I/O error: ".to_string().concat(e.as_str()),
            CoreError::Other(e) => e.clone(),
        }
    }
}

/// Every message of the protocol.
#[derive(Debug)]
pub enum Message {
    Login(LoginMsg),
    LoginResp(LoginRespMsg),
    RegisterProxy(RegisterProxyMsg),
    RegisterProxyResp(RegisterProxyRespMsg),
    ReqWorkConn(ReqWorkConnMsg),
    NewWorkConn(NewWorkConnMsg),
    StartWorkConn(StartWorkConnMsg),
    NewVisitorConn(NewVisitorConnMsg),
    NewVisitorConnResp(NewVisitorConnRespMsg),
    Ping(PingMsg),
    Pong(PongMsg),
    ProxyStatus(ProxyStatusMsg),
    ProxyStatusResp(ProxyStatusRespMsg),
    Disconnect(DisconnectMsg),
    UdpPacket(UdpPacketMsg),
    StcpVisitor(StcpVisitorMsg),
    StcpVisitorResp(StcpVisitorRespMsg),
    XtcpNatInfo(XtcpNatInfoMsg),
    XtcpHolePunch(XtcpHolePunchMsg),
}

/// A client introduces itself.
#[derive(Debug)]
pub struct LoginMsg {
    pub arch: String,
    pub os: String,
    pub hostname: String,
    pub pool_count: u32,
    pub user: String,
    pub client_id: String,
    pub version: String,
    pub timestamp: i64,
    pub run_id: String,
    pub token: String,
    pub metas: NameMap<String>,
    pub client_spec: Option<ClientSpec>,
}

/// The kind of client that logs in.
#[derive(Debug)]
pub struct ClientSpec {
    pub kind: String,
    pub always_auth_pass: bool,
}

/// The answer to a login; an empty `error` means success.
#[derive(Debug)]
pub struct LoginRespMsg {
    pub version: String,
    pub run_id: String,
    pub error: String,
    /// Whether work connections are to be encrypted.
    pub work_conn_tls: bool,
}

/// A client offers a proxy.
#[derive(Debug)]
pub struct RegisterProxyMsg {
    pub proxy: ProxyConfig,
}

/// The answer to an offered proxy; an empty `error` means success.
#[derive(Debug)]
pub struct RegisterProxyRespMsg {
    pub name: String,
    pub error: String,
}

/// The server asks for a work connection.
#[derive(Debug)]
pub struct ReqWorkConnMsg {
    pub proxy_name: String,
}

/// A client opens a work connection.
#[derive(Debug)]
pub struct NewWorkConnMsg {
    pub run_id: String,
    pub proxy_name: String,
    pub timestamp: i64,
    pub sign_key: String,
    pub use_encryption: bool,
    pub use_compression: bool,
}

/// The server puts a work connection to use; an empty `error` means success.
#[derive(Debug)]
pub struct StartWorkConnMsg {
    pub error: String,
    /// Address and port of the visitor.
    pub src_addr: String,
    pub src_port: u16,
    pub dst_addr: String,
    pub dst_port: u16,
}

/// A visitor opens a connection.
#[derive(Debug)]
pub struct NewVisitorConnMsg {
    pub run_id: String,
    pub proxy_name: String,
    pub timestamp: i64,
    pub sign_key: String,
    pub use_encryption: bool,
    pub use_compression: bool,
}

/// The answer to a visitor; an empty `error` means success.
#[derive(Debug)]
pub struct NewVisitorConnRespMsg {
    pub proxy_name: String,
    pub error: String,
}

/// Asks whether the other end is there.
#[derive(Debug)]
pub struct PingMsg {
    pub timestamp: i64,
}

/// Answers a ping with the ping's own timestamp.
#[derive(Debug)]
pub struct PongMsg {
    pub timestamp: i64,
}

/// Ends a control connection.
#[derive(Debug)]
pub struct DisconnectMsg {
    pub reason: String,
}

/// Asks for the status of a proxy.
#[derive(Debug)]
pub struct ProxyStatusMsg {
    pub name: String,
}

/// The status of a proxy.
#[derive(Debug)]
pub struct ProxyStatusRespMsg {
    pub name: String,
    pub status: String,
    pub error: String,
}

/// One datagram of a UDP proxy, and the visitor that it comes from or goes to.
#[derive(Debug)]
pub struct UdpPacketMsg {
    pub proxy_name: String,
    pub data: Vec<u8>,
    pub client_addr: Option<String>,
}

/// A visitor asks for a secret TCP connection.
#[derive(Debug)]
pub struct StcpVisitorMsg {
    pub proxy_name: String,
    pub run_id: String,
    pub timestamp: i64,
    pub sign_key: String,
}

/// The answer to a secret TCP visitor; an empty `error` means success.
#[derive(Debug)]
pub struct StcpVisitorRespMsg {
    pub proxy_name: String,
    pub error: String,
    pub visitor_run_id: String,
}

/// Addresses under which one end of a peer-to-peer connection may be reached.
#[derive(Debug)]
pub struct XtcpNatInfoMsg {
    pub proxy_name: String,
    pub run_id: String,
    pub nat_type: String,
    pub local_addr: String,
    pub public_addr: String,
}

/// Tells one end of a peer-to-peer connection to connect to the other.
#[derive(Debug)]
pub struct XtcpHolePunchMsg {
    pub proxy_name: String,
    pub from_run_id: String,
    pub to_run_id: String,
    pub peer_local_addr: String,
    pub peer_public_addr: String,
}

/// Keeps the proxies of one end.
pub trait ProxyManager {
    /// What a caller has to do for an added proxy.
    type Started;

    /// Why a proxy was not added.
    type Refused;

    /// What a caller has to do for a removed proxy.
    type Stopped;

    /// What holds between two calls.
    spec fn valid(&self) -> bool;

    fn add_proxy(&mut self, config: ProxyConfig) -> (r: Result<Self::Started, Self::Refused>)
        requires
            old(self).valid(),
        ensures
            final(self).valid(),
    ;

    fn remove_proxy(&mut self, name: &str) -> (r: Self::Stopped)
        requires
            old(self).valid(),
        ensures
            final(self).valid(),
    ;

    fn get_proxy_status(&self, name: &str) -> Option<String>;

    fn clear(&mut self)
        requires
            old(self).valid(),
        ensures
            final(self).valid(),
    ;
}

/// Keeps the visitors of one end.
pub trait VisitorManager {
    fn add_visitor(&mut self, config: VisitorConfig);

    fn remove_visitor(&mut self, name: &str);

    fn clear(&mut self);
}

/// The longest message body that is read: ten mebibytes.
pub const MAX_MESSAGE_SIZE: usize = 10 * 1024 * 1024;

/// The four bytes of a number, most significant first.
pub open spec fn be32(n: nat) -> Seq<u8> {
    seq![
        ((n / 0x1000000) % 0x100) as u8,
        ((n / 0x10000) % 0x100) as u8,
        ((n / 0x100) % 0x100) as u8,
        (n % 0x100) as u8,
    ]
}

/// The number that four bytes stand for, most significant first.
pub open spec fn be32_value(b: Seq<u8>) -> nat {
    (b[0] as nat) * 0x1000000 + (b[1] as nat) * 0x10000 + (b[2] as nat) * 0x100 + (b[3] as nat)
}

/// A framed body: its length in four bytes, then the body.
pub open spec fn frame(body: Seq<u8>) -> Seq<u8> {
    be32(body.len()) + body
}

/// What reading one message from a stream of bytes gives: the body and the number
/// of bytes that it took.
pub enum ReadOutcome {
    /// A whole message; its body is `bytes[4..end]`.
    Body { end: nat },
    /// The announced length is over the limit.
    TooLarge { len: nat },
    /// The stream ends before the message does.
    Truncated,
}

/// Why a message cannot be read.
#[derive(Debug, Clone, Copy, PartialEq, Eq, Structural)]
pub enum ReadError {
    /// The announced length is over the limit.
    TooLarge(usize),
    /// The stream ends before the message does.
    Truncated,
}

impl ReadError {
    /// The text that describes an error.
    pub open spec fn spec_message(self) -> Seq<char> {
        match self {
            ReadError::TooLarge(n) => "message size too large: "@ + decimal(n as nat)
                + " bytes (max: "@ + decimal(MAX_MESSAGE_SIZE as nat) + ")"@,
            ReadError::Truncated => "early eof"@,
        }
    }

    /// The text that describes the error.
    pub fn message(&self) -> (text: String)
        ensures
            text@ == self.spec_message(),
    {
        match self {
            ReadError::TooLarge(n) => {
                let mut out: String = "message size too large: ".to_string();
                push_decimal(&mut out, *n as u64);
                out.append(" bytes (max: ");
                push_decimal(&mut out, MAX_MESSAGE_SIZE as u64);
                out.append(")");
                out
            },
            ReadError::Truncated => "early eof".to_string(),
        }
    }
}

/// Reading one message from the start of `bytes`.
pub open spec fn spec_read(bytes: Seq<u8>) -> ReadOutcome {
    if bytes.len() < 4 {
        ReadOutcome::Truncated
    } else {
        let len = be32_value(bytes);
        if len > MAX_MESSAGE_SIZE {
            ReadOutcome::TooLarge { len }
        } else if bytes.len() < 4 + len {
            ReadOutcome::Truncated
        } else {
            ReadOutcome::Body { end: 4 + len }
        }
    }
}

/// The length that a message header announces, where it is within the limit.
pub fn message_len(header: &[u8]) -> (r: Result<usize, ReadError>)
    requires
        header@.len() == 4,
    ensures
        be32_value(header@) <= MAX_MESSAGE_SIZE ==> r == Ok::<usize, ReadError>(
            be32_value(header@) as usize,
        ),
        be32_value(header@) > MAX_MESSAGE_SIZE ==> r == Err::<usize, ReadError>(
            ReadError::TooLarge(be32_value(header@) as usize),
        ),
{
    let len: u32 = (header[0] as u32) * 0x1000000 + (header[1] as u32) * 0x10000 + (
    header[2] as u32) * 0x100 + (header[3] as u32);
    let n: usize = len as usize;
    if n > MAX_MESSAGE_SIZE {
        Err(ReadError::TooLarge(n))
    } else {
        Ok(n)
    }
}

/// Frames an encoded message. Of a length over four bytes, the field holds the
/// lowest four.
pub fn write_message(body: &[u8]) -> (out: Vec<u8>)
    ensures
        out@ == frame(body@),
{
    let n: u64 = body.len() as u64;
    let mut out: Vec<u8> = Vec::new();
    out.push(((n / 0x1000000) % 0x100) as u8);
    out.push(((n / 0x10000) % 0x100) as u8);
    out.push(((n / 0x100) % 0x100) as u8);
    out.push((n % 0x100) as u8);
    assert(out@ == be32(n as nat));
    let mut i: usize = 0;
    while i < body.len()
        invariant
            i <= body.len(),
            out@ == be32(body@.len()) + body@.take(i as int),
        decreases body.len() - i,
    {
        out.push(body[i]);
        i = i + 1;
    }
    assert(body@.take(i as int) == body@);
    out
}

/// Reads one message from the start of `bytes`: its body, and how many bytes it took.
pub fn read_message(bytes: &[u8]) -> (r: Result<(Vec<u8>, usize), ReadError>)
    ensures
        match spec_read(bytes@) {
            ReadOutcome::Body { end } => r matches Ok(t) && t.0@ == bytes@.subrange(4, end as int)
                && t.1 == end,
            ReadOutcome::TooLarge { len } => r == Err::<(Vec<u8>, usize), ReadError>(
                ReadError::TooLarge(len as usize),
            ),
            ReadOutcome::Truncated => r == Err::<(Vec<u8>, usize), ReadError>(
                ReadError::Truncated,
            ),
        },
{
    if bytes.len() < 4 {
        return Err(ReadError::Truncated);
    }
    let header: &[u8] = vstd::slice::slice_subrange(bytes, 0, 4);
    match message_len(header) {
        Err(e) => Err(e),
        Ok(len) => {
            if bytes.len() - 4 < len {
                return Err(ReadError::Truncated);
            }
            let body: Vec<u8> = vstd::slice::slice_to_vec(
                vstd::slice::slice_subrange(bytes, 4, 4 + len),
            );
            Ok((body, 4 + len))
        },
    }
}

proof fn lemma_be32_value(n: nat)
    requires
        n <= u32::MAX,
    ensures
        be32_value(be32(n)) == n,
{
    assert(n / 0x10000 == (n / 0x100) / 0x100);
    assert(n / 0x1000000 == ((n / 0x100) / 0x100) / 0x100);
}

/// Reading gives back what was written, whatever follows it on the stream.
pub proof fn law_read_gives_back_written(body: Seq<u8>, rest: Seq<u8>)
    requires
        body.len() <= MAX_MESSAGE_SIZE,
    ensures
        spec_read(frame(body) + rest) == (ReadOutcome::Body { end: 4 + body.len() }),
        (frame(body) + rest).subrange(4, 4 + body.len() as int) == body,
        (frame(body) + rest).skip(4 + body.len() as int) == rest,
{
    lemma_be32_value(body.len());
    let s = frame(body) + rest;
    assert(be32_value(s) == be32_value(be32(body.len())));
    assert(s.subrange(4, 4 + body.len() as int) =~= body);
    assert(s.skip(4 + body.len() as int) =~= rest);
}

/// A body over the limit can be written, and is refused where it is read.
pub proof fn law_oversized_is_refused(body: Seq<u8>, rest: Seq<u8>)
    requires
        MAX_MESSAGE_SIZE < body.len() <= u32::MAX,
    ensures
        spec_read(frame(body) + rest) == (ReadOutcome::TooLarge { len: body.len() }),
{
    lemma_be32_value(body.len());
    let s = frame(body) + rest;
    assert(be32_value(s) == be32_value(be32(body.len())));
}

/// Different bodies have different frames: none is the beginning of another with
/// something after it.
pub proof fn law_frames_are_prefix_free(a: Seq<u8>, b: Seq<u8>, ra: Seq<u8>, rb: Seq<u8>)
    requires
        a.len() <= u32::MAX,
        b.len() <= u32::MAX,
        frame(a) + ra == frame(b) + rb,
    ensures
        a == b,
        ra == rb,
{
    lemma_be32_value(a.len());
    lemma_be32_value(b.len());
    let sa = frame(a) + ra;
    let sb = frame(b) + rb;
    assert(be32_value(sa) == be32_value(be32(a.len())));
    assert(be32_value(sb) == be32_value(be32(b.len())));
    assert(sa.subrange(4, 4 + a.len() as int) =~= a);
    assert(sb.subrange(4, 4 + b.len() as int) =~= b);
    assert(sa.skip(4 + a.len() as int) =~= ra);
    assert(sb.skip(4 + b.len() as int) =~= rb);
}

/// A login answer with these contents.
pub open spec fn is_login_resp(
    m: Message,
    version: Seq<char>,
    run_id: Seq<char>,
    error: Seq<char>,
    tls: bool,
) -> bool {
    m matches Message::LoginResp(r) && r.version@ == version && r.run_id@ == run_id && r.error@
        == error && r.work_conn_tls == tls
}

/// A proxy answer with these contents.
pub open spec fn is_register_resp(m: Message, name: Seq<char>, error: Seq<char>) -> bool {
    m matches Message::RegisterProxyResp(r) && r.name@ == name && r.error@ == error
}

/// A client is logged in now.
pub open spec fn says_logged_in(m: Message) -> bool {
    m matches Message::LoginResp(r) && r.error@.len() == 0
}

/// A proxy that the client offered runs now.
pub open spec fn says_running(m: Message) -> bool {
    m matches Message::RegisterProxyResp(r) && r.error@.len() == 0
}

/// A request for a work connection of this proxy.
pub open spec fn is_req_work_conn(m: Message, name: Seq<char>) -> bool {
    m matches Message::ReqWorkConn(r) && r.proxy_name@ == name
}

/// A work connection is started for this visitor, or refused with this error.
pub open spec fn is_start_work_conn(
    m: Message,
    error: Seq<char>,
    src_addr: Seq<char>,
    src_port: u16,
    dst_addr: Seq<char>,
) -> bool {
    m matches Message::StartWorkConn(r) && r.error@ == error && r.src_addr@ == src_addr
        && r.src_port == src_port && r.dst_addr@ == dst_addr && r.dst_port == 0
}

/// A proxy status answer with these contents.
pub open spec fn is_status_resp(
    m: Message,
    name: Seq<char>,
    status: Seq<char>,
    error: Seq<char>,
) -> bool {
    m matches Message::ProxyStatusResp(r) && r.name@ == name && r.status@ == status && r.error@
        == error
}

/// An answer to a secret TCP visitor with these contents.
pub open spec fn is_stcp_resp(
    m: Message,
    name: Seq<char>,
    error: Seq<char>,
    visitor: Seq<char>,
) -> bool {
    m matches Message::StcpVisitorResp(r) && r.proxy_name@ == name && r.error@ == error
        && r.visitor_run_id@ == visitor
}

/// Peer addresses with these contents.
pub open spec fn is_nat_info(
    m: Message,
    name: Seq<char>,
    run_id: Seq<char>,
    nat_type: Seq<char>,
    local_addr: Seq<char>,
    public_addr: Seq<char>,
) -> bool {
    m matches Message::XtcpNatInfo(r) && r.proxy_name@ == name && r.run_id@ == run_id && r.nat_type@
        == nat_type && r.local_addr@ == local_addr && r.public_addr@ == public_addr
}

} // verus!
