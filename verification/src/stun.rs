//! STUN binding requests and responses (RFC 5389), by which a host behind a NAT
//! learns the address that the outside sees.
use crate::message::{be32, be32_value};
use crate::random::{random_u32, random_u64};
use crate::text::texts;
use vstd::prelude::*;
use vstd::string::*;

verus! {

/// The magic cookie of every message.
pub const MAGIC_COOKIE: u32 = 0x2112_A442;

/// The upper half of the magic cookie.
pub const COOKIE_HIGH: u16 = 0x2112;

/// Attribute that holds the mapped address, mixed with the cookie.
pub const ATTR_XOR_MAPPED_ADDRESS: u16 = 0x0020;

/// Attribute that holds the mapped address as it is.
pub const ATTR_MAPPED_ADDRESS: u16 = 0x0001;

/// Type of a binding request.
pub const MSG_BINDING_REQUEST: u16 = 0x0001;

/// Type of a successful binding response.
pub const MSG_BINDING_RESPONSE: u16 = 0x0101;

/// An IPv4 address, most significant byte first, and a port.
#[derive(Debug, Clone, Copy, PartialEq, Eq, Structural)]
pub struct Endpoint {
    pub ip: u32,
    pub port: u16,
}

/// Why a response is of no use.
#[derive(Debug, Clone, Copy, PartialEq, Eq, Structural)]
pub enum StunError {
    TooShort,
    UnexpectedType(u16),
    CookieMismatch,
    AttributeOverflow,
    UnsupportedFamily(u8),
    NoMappedAddress,
    TransactionMismatch,
}

/// The hexadecimal digit of a number below sixteen.
pub open spec fn hex_digit(d: int) -> char {
    if d < 10 {
        ('0' as u32 + d) as char
    } else {
        ('a' as u32 + (d - 10)) as char
    }
}

fn push_hex_digit(out: &mut String, d: u8)
    requires
        d < 16,
    ensures
        final(out)@ == old(out)@.push(hex_digit(d as int)),
{
    if d < 10 {
        out.push((48u8 + d) as char);
    } else {
        out.push((87u8 + d) as char);
    }
}

/// Two hexadecimal digits.
pub open spec fn hex2(n: int) -> Seq<char> {
    seq![hex_digit(n / 16), hex_digit(n % 16)]
}

fn push_hex2(out: &mut String, n: u8)
    ensures
        final(out)@ == old(out)@ + hex2(n as int),
{
    push_hex_digit(out, n / 16);
    push_hex_digit(out, n % 16);
}

impl StunError {
    /// The text that describes an error.
    pub open spec fn spec_message(self) -> Seq<char> {
        match self {
            StunError::TooShort => "STUN response too short"@,
            StunError::UnexpectedType(t) => "STUN unexpected response type: 0x"@ + hex2(
                t as int / 256,
            ) + hex2(t as int % 256),
            StunError::CookieMismatch => "STUN response magic cookie mismatch"@,
            StunError::AttributeOverflow => "STUN attribute length overflow"@,
            StunError::UnsupportedFamily(f) => "STUN unsupported address family: 0x"@ + hex2(
                f as int,
            ),
            StunError::NoMappedAddress => "STUN response has no XOR-MAPPED-ADDRESS"@,
            StunError::TransactionMismatch => "STUN transaction id mismatch"@,
        }
    }

    /// The text that describes the error.
    pub fn message(&self) -> (text: String)
        ensures
            text@ == self.spec_message(),
    {
        match self {
            StunError::TooShort => "STUN response too short".to_string(),
            StunError::UnexpectedType(t) => {
                let mut out: String = "STUN unexpected response type: 0x".to_string();
                push_hex2(&mut out, (*t / 256) as u8);
                push_hex2(&mut out, (*t % 256) as u8);
                out
            },
            StunError::CookieMismatch => "STUN response magic cookie mismatch".to_string(),
            StunError::AttributeOverflow => "STUN attribute length overflow".to_string(),
            StunError::UnsupportedFamily(f) => {
                let mut out: String = "STUN unsupported address family: 0x".to_string();
                push_hex2(&mut out, *f);
                out
            },
            StunError::NoMappedAddress => "STUN response has no XOR-MAPPED-ADDRESS".to_string(),
            StunError::TransactionMismatch => "STUN transaction id mismatch".to_string(),
        }
    }
}

/// The two bytes of a number, most significant first.
pub open spec fn be16(n: nat) -> Seq<u8> {
    seq![((n / 0x100) % 0x100) as u8, (n % 0x100) as u8]
}

/// The number that the two bytes at `at` stand for.
pub open spec fn be16_at(b: Seq<u8>, at: int) -> nat {
    (b[at] as nat) * 0x100 + (b[at + 1] as nat)
}

/// A length rounded up to a multiple of four.
pub open spec fn padded(len: nat) -> nat {
    (len + 3) / 4 * 4
}

/// A binding request: its type, no attributes, the cookie and the transaction.
pub open spec fn binding_request(tx_id: Seq<u8>) -> Seq<u8> {
    be16(MSG_BINDING_REQUEST as nat) + be16(0) + be32(MAGIC_COOKIE as nat) + tx_id
}

/// The endpoint that the value of an address attribute holds.
pub open spec fn decode_endpoint(attr_type: nat, value: Seq<u8>) -> Endpoint {
    let port = be16_at(value, 2) as u16;
    let ip = be32_value(value.skip(4)) as u32;
    if attr_type == ATTR_XOR_MAPPED_ADDRESS {
        Endpoint { ip: ip ^ MAGIC_COOKIE, port: port ^ COOKIE_HIGH }
    } else {
        Endpoint { ip, port }
    }
}

/// The first address among the attributes from `offset` on.
pub open spec fn scan_attributes(resp: Seq<u8>, offset: int, end: int) -> Result<
    Endpoint,
    StunError,
>
    decreases
            (if offset < end {
                end - offset
            } else {
                0
            }),
{
    if offset + 4 > end {
        Err(StunError::NoMappedAddress)
    } else {
        let attr_type = be16_at(resp, offset);
        let len = be16_at(resp, offset + 2);
        let value = resp.subrange(offset + 4, offset + 4 + len as int);
        if offset + 4 + len > resp.len() {
            Err(StunError::AttributeOverflow)
        } else if (attr_type == ATTR_XOR_MAPPED_ADDRESS || attr_type == ATTR_MAPPED_ADDRESS) && len
            >= 8 {
            if value[1] != 1 {
                Err(StunError::UnsupportedFamily(value[1]))
            } else {
                Ok(decode_endpoint(attr_type, value))
            }
        } else {
            scan_attributes(resp, offset + 4 + padded(len) as int, end)
        }
    }
}

/// What a response says: the first address among its attributes, as far as they
/// are there.
pub open spec fn spec_parse(resp: Seq<u8>) -> Result<Endpoint, StunError> {
    if resp.len() < 20 {
        Err(StunError::TooShort)
    } else if be16_at(resp, 0) != MSG_BINDING_RESPONSE {
        Err(StunError::UnexpectedType(be16_at(resp, 0) as u16))
    } else if be32_value(resp.skip(4)) != MAGIC_COOKIE {
        Err(StunError::CookieMismatch)
    } else {
        let announced = 20 + be16_at(resp, 2) as int;
        scan_attributes(
            resp,
            20,
            if announced < resp.len() {
                announced
            } else {
                resp.len() as int
            },
        )
    }
}

fn read_be16(b: &[u8], at: usize) -> (n: u16)
    requires
        at + 1 < b@.len(),
    ensures
        n == be16_at(b@, at as int),
{
    (b[at] as u16) * 0x100 + (b[at + 1] as u16)
}

fn read_be32(b: &[u8], at: usize) -> (n: u32)
    requires
        at + 3 < b@.len(),
    ensures
        n == be32_value(b@.skip(at as int)),
{
    (b[at] as u32) * 0x1000000 + (b[at + 1] as u32) * 0x10000 + (b[at + 2] as u32) * 0x100 + (
    b[at + 3] as u32)
}

/// A binding request for a transaction.
pub fn build_binding_request(tx_id: [u8; 12]) -> (msg: Vec<u8>)
    ensures
        msg@ == binding_request(tx_id@),
        msg@.len() == 20,
{
    let mut msg: Vec<u8> = Vec::new();
    msg.push(0);
    msg.push(1);
    msg.push(0);
    msg.push(0);
    msg.push(0x21);
    msg.push(0x12);
    msg.push(0xA4);
    msg.push(0x42);
    let mut i: usize = 0;
    while i < 12
        invariant
            i <= 12,
            msg@ == seq![0u8, 1u8, 0u8, 0u8, 0x21u8, 0x12u8, 0xA4u8, 0x42u8] + tx_id@.take(i as int),
        decreases 12 - i,
    {
        msg.push(tx_id[i]);
        i = i + 1;
    }
    assert(tx_id@.take(12) == tx_id@);
    assert(msg@ == binding_request(tx_id@));
    msg
}

/// The address that a binding response reports.
pub fn parse_mapped_address(resp: &[u8]) -> (r: Result<Endpoint, StunError>)
    ensures
        r == spec_parse(resp@),
{
    if resp.len() < 20 {
        return Err(StunError::TooShort);
    }
    let msg_type: u16 = read_be16(resp, 0);
    if msg_type != MSG_BINDING_RESPONSE {
        return Err(StunError::UnexpectedType(msg_type));
    }
    let cookie: u32 = read_be32(resp, 4);
    if cookie != MAGIC_COOKIE {
        return Err(StunError::CookieMismatch);
    }
    let announced: usize = 20 + read_be16(resp, 2) as usize;
    let end: usize = if announced < resp.len() {
        announced
    } else {
        resp.len()
    };
    let mut offset: usize = 20;
    while offset <= end && end - offset >= 4
        invariant
            end <= resp@.len(),
            end <= 20 + 0xffff,
            offset <= end + 0x10003,
            spec_parse(resp@) == scan_attributes(resp@, offset as int, end as int),
        decreases end + 0x10003 - offset,
    {
        let attr_type: u16 = read_be16(resp, offset);
        let len: usize = read_be16(resp, offset + 2) as usize;
        let start: usize = offset + 4;
        if len > resp.len() - start {
            return Err(StunError::AttributeOverflow);
        }
        let ghost value = resp@.subrange(start as int, start + len);
        if (attr_type == ATTR_XOR_MAPPED_ADDRESS || attr_type == ATTR_MAPPED_ADDRESS) && len >= 8 {
            let family: u8 = resp[start + 1];
            assert(family == value[1]);
            if family != 1 {
                return Err(StunError::UnsupportedFamily(family));
            }
            let port: u16 = read_be16(resp, start + 2);
            let ip: u32 = read_be32(resp, start + 4);
            assert(port == be16_at(value, 2));
            assert(ip == be32_value(value.skip(4)));
            if attr_type == ATTR_XOR_MAPPED_ADDRESS {
                return Ok(Endpoint { ip: ip ^ MAGIC_COOKIE, port: port ^ COOKIE_HIGH });
            }
            return Ok(Endpoint { ip, port });
        }
        offset = start + (len + 3) / 4 * 4;
    }
    Err(StunError::NoMappedAddress)
}

/// Whether a response belongs to a transaction: its identifier stands after the
/// cookie, or in the place of the cookie.
pub open spec fn answers_transaction(resp: Seq<u8>, tx_id: Seq<u8>) -> bool {
    resp.len() >= 20 && (resp.subrange(4, 16) == tx_id || resp.subrange(8, 20) == tx_id)
}

fn same_at(resp: &[u8], at: usize, tx_id: &[u8; 12]) -> (b: bool)
    requires
        at + 12 <= resp@.len(),
    ensures
        b == (resp@.subrange(at as int, at + 12) == tx_id@),
{
    let mut i: usize = 0;
    while i < 12
        invariant
            i <= 12,
            at + 12 <= resp.len(),
            forall|k: int| 0 <= k < i ==> resp@[at + k] == tx_id@[k],
        decreases 12 - i,
    {
        if resp[at + i] != tx_id[i] {
            assert(resp@.subrange(at as int, at + 12)[i as int] != tx_id@[i as int]);
            return false;
        }
        i = i + 1;
    }
    assert(resp@.subrange(at as int, at + 12) == tx_id@);
    true
}

/// The address that the reply to a probe reports, where the reply belongs to the
/// probe's transaction.
pub fn probe_reply(resp: &[u8], tx_id: [u8; 12]) -> (r: Result<Endpoint, StunError>)
    ensures
        answers_transaction(resp@, tx_id@) ==> r == spec_parse(resp@),
        !answers_transaction(resp@, tx_id@) ==> r == Err::<Endpoint, StunError>(
            StunError::TransactionMismatch,
        ),
{
    if resp.len() < 20 {
        return Err(StunError::TransactionMismatch);
    }
    if !same_at(resp, 4, &tx_id) && !same_at(resp, 8, &tx_id) {
        return Err(StunError::TransactionMismatch);
    }
    parse_mapped_address(resp)
}

/// A response with one attribute that holds `ep`, mixed with the cookie.
pub open spec fn binding_response(tx_id: Seq<u8>, ep: Endpoint) -> Seq<u8> {
    be16(MSG_BINDING_RESPONSE as nat) + be16(12) + be32(MAGIC_COOKIE as nat) + tx_id + be16(
        ATTR_XOR_MAPPED_ADDRESS as nat,
    ) + be16(8) + seq![0u8, 1u8] + be16((ep.port ^ COOKIE_HIGH) as nat) + be32(
        (ep.ip ^ MAGIC_COOKIE) as nat,
    )
}

/// A response that reports an endpoint is read as that endpoint, by the probe
/// whose transaction it names.
pub proof fn law_response_reports_endpoint(tx_id: Seq<u8>, ep: Endpoint)
    requires
        tx_id.len() == 12,
    ensures
        spec_parse(binding_response(tx_id, ep)) == Ok::<Endpoint, StunError>(ep),
        answers_transaction(binding_response(tx_id, ep), tx_id),
{
    let resp = binding_response(tx_id, ep);
    let x_port = (ep.port ^ COOKIE_HIGH) as nat;
    let x_ip = (ep.ip ^ MAGIC_COOKIE) as nat;
    let port = ep.port;
    let ip = ep.ip;
    assert((port ^ 0x2112u16) ^ 0x2112u16 == port) by (bit_vector);
    assert((ip ^ 0x2112_A442u32) ^ 0x2112_A442u32 == ip) by (bit_vector);
    assert(resp.len() == 32);
    assert(resp[0] == 1 && resp[1] == 1);
    assert(resp[2] == 0 && resp[3] == 12);
    assert(resp[4] == 0x21 && resp[5] == 0x12 && resp[6] == 0xA4 && resp[7] == 0x42);
    assert(resp.skip(4)[0] == 0x21 && resp.skip(4)[1] == 0x12 && resp.skip(4)[2] == 0xA4
        && resp.skip(4)[3] == 0x42);
    assert(be32_value(resp.skip(4)) == MAGIC_COOKIE);
    assert(resp[20] == 0 && resp[21] == 0x20);
    assert(resp[22] == 0 && resp[23] == 8);
    let value = resp.subrange(24, 32);
    assert(value =~= seq![0u8, 1u8] + be16(x_port) + be32(x_ip));
    assert(be16_at(value, 2) == x_port);
    assert(value.skip(4) =~= be32(x_ip));
    assert(x_ip / 0x10000 == (x_ip / 0x100) / 0x100);
    assert(x_ip / 0x1000000 == ((x_ip / 0x100) / 0x100) / 0x100);
    assert(be32_value(value.skip(4)) == x_ip);
    assert(resp.subrange(8, 20) =~= tx_id);
}

/// The request for a transaction is not taken for a response.
pub proof fn law_request_is_not_a_response(tx_id: Seq<u8>)
    requires
        tx_id.len() == 12,
    ensures
        spec_parse(binding_request(tx_id)) == Err::<Endpoint, StunError>(
            StunError::UnexpectedType(MSG_BINDING_REQUEST),
        ),
{
    let msg = binding_request(tx_id);
    assert(msg.len() == 20);
    assert(msg[0] == 0 && msg[1] == 1);
}

/// Twelve bytes: of the first number, then of the second, the highest byte first.
pub open spec fn joined_id(high: u32, low: u64) -> Seq<u8> {
    Seq::new(
        12,
        |i: int|
            if i < 4 {
                (high as int / pow256(3 - i) % 256) as u8
            } else {
                (low as int / pow256(11 - i) % 256) as u8
            },
    )
}

/// Powers of 256.
pub open spec fn pow256(n: int) -> int
    decreases n,
{
    if n <= 0 {
        1
    } else {
        256 * pow256(n - 1)
    }
}

/// The number of a transaction, from two numbers.
pub fn join_transaction_id(high: u32, low: u64) -> (id: [u8; 12])
    ensures
        id@ == joined_id(high, low),
{
    let id: [u8; 12] = [
        (high / 16777216 % 256) as u8,
        (high / 65536 % 256) as u8,
        (high / 256 % 256) as u8,
        (high % 256) as u8,
        (low / 72057594037927936 % 256) as u8,
        (low / 281474976710656 % 256) as u8,
        (low / 1099511627776 % 256) as u8,
        (low / 4294967296 % 256) as u8,
        (low / 16777216 % 256) as u8,
        (low / 65536 % 256) as u8,
        (low / 256 % 256) as u8,
        (low % 256) as u8,
    ];
    proof {
        reveal_with_fuel(pow256, 9);
    }
    assert(id@ =~= joined_id(high, low));
    id
}

/// The number of a new transaction, by chance, and the request that begins it.
pub fn new_binding_request() -> (r: ([u8; 12], Vec<u8>))
    ensures
        r.1@ == binding_request(r.0@),
{
    let id: [u8; 12] = join_transaction_id(random_u32(), random_u64());
    (id, build_binding_request(id))
}

/// What comes next in the search for a public address.
#[derive(Debug)]
pub enum DiscoverStep {
    /// Ask the server with this number.
    Probe(usize),
    /// No server could tell.
    Failed(String),
}

/// What the failures of some servers add up to.
pub open spec fn failure_list(servers: Seq<Seq<char>>, errors: Seq<Seq<char>>) -> Seq<char>
    decreases errors.len(),
{
    if errors.len() == 0 {
        seq![]
    } else {
        failure_list(servers, errors.drop_last()) + "; "@ + servers[errors.len() - 1] + ": "@
            + errors.last()
    }
}

/// What comes next after the first servers failed with these errors.
pub fn discover_step(servers: &Vec<String>, errors: &Vec<String>) -> (step: DiscoverStep)
    requires
        errors.len() <= servers.len(),
    ensures
        if servers.len() == 0 {
            step matches DiscoverStep::Failed(t) && t@ == "no STUN servers configured"@
        } else if errors.len() < servers.len() {
            step == DiscoverStep::Probe(errors.len())
        } else {
            step matches DiscoverStep::Failed(t) && t@ == "all STUN servers failed: "@
                + failure_list(texts(servers@), texts(errors@))
        },
{
    if servers.len() == 0 {
        return DiscoverStep::Failed("no STUN servers configured".to_string());
    }
    if errors.len() < servers.len() {
        return DiscoverStep::Probe(errors.len());
    }
    let mut list: String = String::new();
    let mut i: usize = 0;
    let ghost all = texts(servers@);
    let ghost errs = texts(errors@);
    assert(errs.take(0) =~= seq![]);
    while i < errors.len()
        invariant
            i <= errors.len() <= servers.len(),
            all == texts(servers@),
            errs == texts(errors@),
            list@ == failure_list(all, errs.take(i as int)),
        decreases errors.len() - i,
    {
        let ghost upto = errs.take(i + 1);
        assert(upto.drop_last() == errs.take(i as int));
        assert(upto.last() == errors[i as int]@);
        assert(all[i as int] == servers[i as int]@);
        list.append("; ");
        list.append(servers[i].as_str());
        list.append(": ");
        list.append(errors[i].as_str());
        i = i + 1;
    }
    assert(errs.take(i as int) == errs);
    DiscoverStep::Failed("all STUN servers failed: ".to_string().concat(list.as_str()))
}

/// The servers that are asked where none are configured.
pub fn default_stun_servers() -> (servers: Vec<String>)
    ensures
        texts(servers@) == seq![
            "stun.l.google.com:19302"@,
            "stun1.l.google.com:19302"@,
            "stun.cloudflare.com:3478"@,
        ],
{
    let mut servers: Vec<String> = Vec::new();
    servers.push("stun.l.google.com:19302".to_string());
    servers.push("stun1.l.google.com:19302".to_string());
    servers.push("stun.cloudflare.com:3478".to_string());
    assert(texts(servers@) =~= seq![
        "stun.l.google.com:19302"@,
        "stun1.l.google.com:19302"@,
        "stun.cloudflare.com:3478"@,
    ]);
    servers
}

} // verus!
