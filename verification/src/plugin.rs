//! Plugins: what may handle the connections of a proxy in place of a client.
//!
//! A plugin decides, and whoever holds the connection acts: it tells the plugin
//! what happened and does what the plugin asks for.
use crate::codec::{lossy_text, lossy_text_of};
use crate::config::PluginConfig;
use crate::names::NameMap;
use crate::server::{host_port, join_host_port, TlsSource};
use crate::text::{
    chars_of, decimal, find, find_from, lines, push_decimal, same, spec_lines, spec_words,
    split_whitespace, starts_with, string_of, texts,
};
use vstd::prelude::*;
use vstd::slice::slice_subrange;
use vstd::string::*;

verus! {

/// Why a plugin cannot be made or cannot handle a connection.
#[derive(Debug)]
pub enum PluginError {
    /// The settings are wrong.
    InvalidInput(String),
    /// What came over the connection is wrong.
    InvalidData(String),
}

impl PluginError {
    /// The text that describes an error.
    pub open spec fn spec_message(self) -> Seq<char> {
        match self {
            PluginError::InvalidInput(t) => t@,
            PluginError::InvalidData(t) => t@,
        }
    }

    /// The text that describes the error.
    pub fn message(&self) -> (t: String)
        ensures
            t@ == self.spec_message(),
    {
        match self {
            PluginError::InvalidInput(t) => t.clone(),
            PluginError::InvalidData(t) => t.clone(),
        }
    }
}

/// What was found where a requested file should be. Paths are lists of components,
/// with all links and dots resolved.
pub enum FileLookup {
    /// The path leads nowhere.
    Unresolved,
    Resolved { path: Vec<Vec<u8>>, base: Vec<Vec<u8>>, exists: bool, is_file: bool },
}

/// What happened on a connection.
pub enum PluginEvent {
    /// The connection was handed to the plugin.
    Accepted,
    /// What the first read brought.
    FirstData(Vec<u8>),
    /// What the second read brought.
    NextData(Vec<u8>),
    /// The connection is encrypted now.
    Secured,
    /// The target is connected.
    Connected,
    /// The connection to the target is encrypted now.
    TargetSecured,
    FileFound(FileLookup),
    /// The content of the file was read: this many bytes.
    FileRead { len: usize },
}

/// What has to be done next.
pub enum PluginAction {
    /// Read at most this many bytes.
    Read { max: usize },
    /// Send this, then read at most this many bytes.
    SendAndRead { data: Vec<u8>, max: usize },
    /// Encrypt the connection.
    AcceptTls { certificate: TlsSource },
    /// Connect to a Unix domain socket.
    ConnectUnix { path: String },
    /// Connect to this host and port.
    Connect { target: String },
    /// Connect to this address, which must be numeric.
    ConnectAddr { target: String },
    /// Encrypt the connection to the target.
    SecureTarget,
    /// Carry bytes both ways until either end is done.
    Bridge,
    /// Send this, then carry bytes both ways.
    SendAndBridge { data: Vec<u8> },
    /// Send this text, then carry bytes both ways.
    RespondAndBridge { text: String },
    /// Look for this file, which has to lie under `base`.
    FindFile { path: String, base: String },
    /// Read the file that was found.
    ReadFile,
    /// Send this, then the content of the file, and close.
    SendFile { header: String },
    /// Send this, and close.
    Respond { text: String },
    /// Close with an error.
    Fail(PluginError),
    /// Close: the event was not asked for.
    Close,
}

/// The action is a failure with this text.
pub open spec fn fails(a: PluginAction, text: Seq<char>) -> bool {
    a matches PluginAction::Fail(PluginError::InvalidData(t)) && t@ == text
}

fn fail(text: &str) -> (a: PluginAction)
    ensures
        fails(a, text@),
{
    PluginAction::Fail(PluginError::InvalidData(text.to_string()))
}

/// The words of the first line of a request; nothing where there is no line.
pub open spec fn request_words(text: Seq<char>) -> Option<Seq<Seq<char>>> {
    if spec_lines(text).len() == 0 {
        None
    } else {
        Some(spec_words(spec_lines(text)[0]))
    }
}

fn words_of_request(text: &str) -> (w: Option<Vec<String>>)
    ensures
        match w {
            Some(v) => request_words(text@) == Some(texts(v@)) && texts(v@).len() == v@.len(),
            None => request_words(text@) is None,
        },
{
    let all: Vec<String> = lines(text);
    assert(texts(all@).len() == all.len());
    if all.len() == 0 {
        return None;
    }
    assert(texts(all@)[0] == all[0]@);
    let parts: Vec<String> = split_whitespace(all[0].as_str());
    assert(texts(parts@).len() == parts.len());
    Some(parts)
}

/// A requested path without its query.
pub open spec fn without_query(path: Seq<char>) -> Seq<char> {
    path.take(find(path, '?') as int)
}

/// A prefix of paths, which may be given with or without its leading slash.
pub open spec fn path_prefix(x: Seq<char>) -> Seq<char> {
    if "/"@.is_prefix_of(x) {
        x
    } else {
        "/"@ + x
    }
}

/// A requested path without its query and without the prefix.
pub open spec fn stripped_path(path: Seq<char>, prefix: Option<Seq<char>>) -> Seq<char> {
    let p = without_query(path);
    match prefix {
        Some(x) => if path_prefix(x).is_prefix_of(p) {
            p.skip(path_prefix(x).len() as int)
        } else {
            p
        },
        None => p,
    }
}

/// The file that a requested path stands for.
pub open spec fn file_of(base: Seq<char>, prefix: Option<Seq<char>>, path: Seq<char>) -> Seq<char> {
    let p = stripped_path(path, prefix);
    if p == "/"@ {
        base
    } else {
        base + p
    }
}

/// A text that may be missing, as characters.
pub open spec fn optional_chars(t: Option<String>) -> Option<Seq<char>> {
    match t {
        Some(t) => Some(t@),
        None => None,
    }
}

/// Whether one path, as a list of components, lies at or under another.
pub open spec fn lies_under(base: Seq<Vec<u8>>, path: Seq<Vec<u8>>) -> bool {
    base.len() <= path.len() && forall|i: int| 0 <= i < base.len() ==> (#[trigger] base[i])@ == path[i]@
}

fn same_bytes(a: &Vec<u8>, b: &Vec<u8>) -> (r: bool)
    ensures
        r == (a@ == b@),
{
    if a.len() != b.len() {
        return false;
    }
    let mut i: usize = 0;
    while i < a.len()
        invariant
            i <= a.len(),
            a.len() == b.len(),
            forall|j: int| 0 <= j < i ==> a[j] == b[j],
        decreases a.len() - i,
    {
        if a[i] != b[i] {
            assert(a@[i as int] != b@[i as int]);
            return false;
        }
        i = i + 1;
    }
    assert(a@ =~= b@);
    true
}

/// Whether one path, as a list of components, lies at or under another.
pub fn is_under(base: &Vec<Vec<u8>>, path: &Vec<Vec<u8>>) -> (r: bool)
    ensures
        r == lies_under(base@, path@),
{
    if base.len() > path.len() {
        return false;
    }
    let mut i: usize = 0;
    while i < base.len()
        invariant
            i <= base.len() <= path.len(),
            forall|j: int| 0 <= j < i ==> (#[trigger] base@[j])@ == path@[j]@,
        decreases base.len() - i,
    {
        if !same_bytes(&base[i], &path[i]) {
            assert(base@[i as int]@ != path@[i as int]@);
            return false;
        }
        i = i + 1;
    }
    true
}

/// The answer to a request for a file that does not exist.
pub open spec fn not_found() -> Seq<char> {
    "HTTP/1.1 404 Not Found\r\nContent-Type: text/plain\r\n\r\nFile not found"@
}

/// The answer to a request for a file outside the directory that is served.
pub open spec fn access_forbidden() -> Seq<char> {
    "HTTP/1.1 403 Forbidden\r\nContent-Type: text/plain\r\n\r\nAccess forbidden"@
}

/// The answer to a request for what is no file.
pub open spec fn forbidden() -> Seq<char> {
    "HTTP/1.1 403 Forbidden\r\nContent-Type: text/plain\r\n\r\nForbidden"@
}

/// The answer to a request other than for reading.
pub open spec fn not_allowed() -> Seq<char> {
    "HTTP/1.1 405 Method Not Allowed\r\nContent-Type: text/plain\r\n\r\nMethod not allowed"@
}

/// What precedes the content of a file.
pub open spec fn file_header(len: nat) -> Seq<char> {
    "HTTP/1.1 200 OK\r\nContent-Type: application/octet-stream\r\nContent-Length: "@ + decimal(len)
        + "\r\n\r\n"@
}

/// The action is to send this text and close.
pub open spec fn responds(a: PluginAction, text: Seq<char>) -> bool {
    a matches PluginAction::Respond { text: t } && t@ == text
}

/// What happens with what was found where a requested file should be.
pub open spec fn file_outcome(found: FileLookup, a: PluginAction) -> bool {
    match found {
        FileLookup::Unresolved => responds(a, not_found()),
        FileLookup::Resolved { path, base, exists, is_file } => if !lies_under(base@, path@) {
            responds(a, access_forbidden())
        } else if !exists {
            responds(a, not_found())
        } else if !is_file {
            responds(a, forbidden())
        } else {
            a is ReadFile
        },
    }
}

/// What happens with a request for a file.
pub open spec fn file_request(
    base: Seq<char>,
    prefix: Option<Seq<char>>,
    text: Seq<char>,
    a: PluginAction,
) -> bool {
    match request_words(text) {
        None => fails(a, "invalid HTTP request"@),
        Some(w) => if w.len() < 3 {
            fails(a, "invalid HTTP request line"@)
        } else if w[0] == "GET"@ {
            a matches PluginAction::FindFile { path, base: b } && path@ == file_of(
                base,
                prefix,
                w[1],
            ) && b@ == base
        } else {
            responds(a, not_allowed())
        },
    }
}

/// What happens with a request for a tunnel.
pub open spec fn tunnel_request(text: Seq<char>, a: PluginAction) -> bool {
    match request_words(text) {
        None => fails(a, "invalid HTTP request"@),
        Some(w) => if w.len() < 3 || w[0] != "CONNECT"@ {
            fails(a, "invalid HTTP CONNECT request"@)
        } else {
            a matches PluginAction::ConnectAddr { target } && target@ == w[1]
        },
    }
}

/// Four bytes as an address.
pub open spec fn dotted(a: u8, b: u8, c: u8, d: u8) -> Seq<char> {
    decimal(a as nat) + "."@ + decimal(b as nat) + "."@ + decimal(c as nat) + "."@ + decimal(
        d as nat,
    )
}

/// Two bytes as a port, the higher first.
pub open spec fn port_of(high: u8, low: u8) -> u16 {
    (high * 256 + low) as u16
}

/// What happens with a SOCKS5 request.
pub open spec fn socks_request(b: Seq<u8>, a: PluginAction) -> bool {
    if b.len() < 4 || b[0] != 5 {
        fails(a, "invalid SOCKS5 request"@)
    } else if b[1] != 1 {
        fails(a, "unsupported SOCKS5 command"@)
    } else if b[3] == 1 {
        if b.len() < 10 {
            fails(a, "invalid SOCKS5 IPv4 address"@)
        } else {
            a matches PluginAction::Connect { target } && target@ == host_port(
                dotted(b[4], b[5], b[6], b[7]),
                port_of(b[8], b[9]),
            )
        }
    } else if b[3] == 3 {
        if b.len() < 5 || b.len() < 7 + b[4] {
            fails(a, "invalid SOCKS5 domain address"@)
        } else {
            let n = b[4] as int;
            a matches PluginAction::Connect { target } && target@ == host_port(
                lossy_text_of(b.subrange(5, 5 + n)),
                port_of(b[5 + n], b[6 + n]),
            )
        }
    } else if b[3] == 4 {
        fails(a, "IPv6 not supported"@)
    } else {
        fails(a, "invalid SOCKS5 address type"@)
    }
}

fn join_port(high: u8, low: u8) -> (p: u16)
    ensures
        p == port_of(high, low),
{
    high as u16 * 256 + low as u16
}

/// Reads a SOCKS5 request.
pub fn parse_socks_request(b: &Vec<u8>) -> (a: PluginAction)
    ensures
        socks_request(b@, a),
{
    if b.len() < 4 || b[0] != 5 {
        return fail("invalid SOCKS5 request");
    }
    if b[1] != 1 {
        return fail("unsupported SOCKS5 command");
    }
    if b[3] == 1 {
        if b.len() < 10 {
            return fail("invalid SOCKS5 IPv4 address");
        }
        let mut host: String = String::new();
        push_decimal(&mut host, b[4] as u64);
        host.append(".");
        push_decimal(&mut host, b[5] as u64);
        host.append(".");
        push_decimal(&mut host, b[6] as u64);
        host.append(".");
        push_decimal(&mut host, b[7] as u64);
        assert(host@ =~= dotted(b[4], b[5], b[6], b[7]));
        return PluginAction::Connect {
            target: join_host_port(host.as_str(), join_port(b[8], b[9])),
        };
    }
    if b[3] == 3 {
        if b.len() < 5 || b.len() < 7 + b[4] as usize {
            return fail("invalid SOCKS5 domain address");
        }
        let n: usize = b[4] as usize;
        let host: String = lossy_text(slice_subrange(b.as_slice(), 5, 5 + n));
        return PluginAction::Connect {
            target: join_host_port(host.as_str(), join_port(b[5 + n], b[6 + n])),
        };
    }
    if b[3] == 4 {
        return fail("IPv6 not supported");
    }
    fail("invalid SOCKS5 address type")
}

/// What handles the connections of a proxy.
pub trait Plugin {
    /// `a` is what the plugin asks for after `e`.
    spec fn reacts(&self, e: PluginEvent, a: PluginAction) -> bool;

    /// What the plugin asks for after an event.
    fn handle(&self, e: PluginEvent) -> (a: PluginAction)
        ensures
            self.reacts(e, a),
    ;
}

/// What makes plugins of one kind.
pub trait PluginFactory {
    type Made: Plugin;

    /// `r` is what the factory makes of these settings.
    spec fn makes(&self, config: PluginConfig, r: Result<Self::Made, PluginError>) -> bool;

    /// Makes a plugin.
    fn create(&self, config: &PluginConfig) -> (r: Result<Self::Made, PluginError>)
        ensures
            self.makes(*config, r),
    ;
}

/// What a plugin for a Unix domain socket does: connections are carried to the
/// socket.
pub open spec fn unix_reacts(path: Seq<char>, e: PluginEvent, a: PluginAction) -> bool {
    match e {
        PluginEvent::Accepted => a matches PluginAction::ConnectUnix { path: p } && p@ == path,
        PluginEvent::Connected => a is Bridge,
        _ => a is Close,
    }
}

/// What a plugin for static files does: files under a directory are sent.
pub open spec fn static_reacts(
    base: Seq<char>,
    prefix: Option<Seq<char>>,
    e: PluginEvent,
    a: PluginAction,
) -> bool {
    match e {
        PluginEvent::Accepted => a == (PluginAction::Read { max: 1024 }),
        PluginEvent::FirstData(data) => file_request(base, prefix, lossy_text_of(data@), a),
        PluginEvent::FileFound(found) => file_outcome(found, a),
        PluginEvent::FileRead { len } => a matches PluginAction::SendFile { header } && header@
            == file_header(len as nat),
        _ => a is Close,
    }
}

/// What a plugin for tunnels over HTTP does.
pub open spec fn http_proxy_reacts(e: PluginEvent, a: PluginAction) -> bool {
    match e {
        PluginEvent::Accepted => a == (PluginAction::Read { max: 1024 }),
        PluginEvent::FirstData(data) => tunnel_request(lossy_text_of(data@), a),
        PluginEvent::Connected => a matches PluginAction::RespondAndBridge { text } && text@
            == "HTTP/1.1 200 Connection Established\r\n\r\n"@,
        _ => a is Close,
    }
}

/// What a plugin for SOCKS5 does: no client has to authenticate itself.
pub open spec fn socks5_reacts(e: PluginEvent, a: PluginAction) -> bool {
    match e {
        PluginEvent::Accepted => a == (PluginAction::Read { max: 256 }),
        PluginEvent::FirstData(data) => if data@.len() < 2 || data@[0] != 5 {
            fails(a, "invalid SOCKS5 version"@)
        } else {
            a matches PluginAction::SendAndRead { data: d, max } && d@ == seq![5u8, 0u8] && max
                == 256
        },
        PluginEvent::NextData(data) => socks_request(data@, a),
        PluginEvent::Connected => a matches PluginAction::SendAndBridge { data } && data@ == seq![
            5u8, 0u8, 0u8, 1u8, 0u8, 0u8, 0u8, 0u8, 0u8, 0u8,
        ],
        _ => a is Close,
    }
}

/// What a plugin that ends TLS does: what is inside is carried on, in the clear or
/// encrypted anew.
pub open spec fn tls_reacts(
    target: Seq<char>,
    certificate: TlsSource,
    again: bool,
    e: PluginEvent,
    a: PluginAction,
) -> bool {
    match e {
        PluginEvent::Accepted => a == (PluginAction::AcceptTls { certificate }),
        PluginEvent::Secured => a matches PluginAction::Connect { target: t } && t@ == target,
        PluginEvent::Connected => if again {
            a is SecureTarget
        } else {
            a is Bridge
        },
        PluginEvent::TargetSecured => if again {
            a is Bridge
        } else {
            a is Close
        },
        _ => a is Close,
    }
}

/// The settings are refused with this text.
pub open spec fn refused<T>(r: Result<T, PluginError>, text: Seq<char>) -> bool {
    r matches Err(PluginError::InvalidInput(t)) && t@ == text
}

/// Carries connections to a Unix domain socket.
pub struct UnixDomainSocketPlugin {
    unix_path: String,
}

impl UnixDomainSocketPlugin {
    pub closed spec fn path(self) -> Seq<char> {
        self.unix_path@
    }

    pub fn new(config: &PluginConfig) -> (r: Result<Self, PluginError>)
        ensures
            match config.unix_path {
                Some(p) => r matches Ok(plugin) && plugin.path() == p@,
                None => refused(r, "unix_path is required for unix_domain_socket plugin"@),
            },
    {
        match &config.unix_path {
            Some(p) => Ok(UnixDomainSocketPlugin { unix_path: p.clone() }),
            None => Err(
                PluginError::InvalidInput(
                    "unix_path is required for unix_domain_socket plugin".to_string(),
                ),
            ),
        }
    }
}

impl Plugin for UnixDomainSocketPlugin {
    open spec fn reacts(&self, e: PluginEvent, a: PluginAction) -> bool {
        unix_reacts(self.path(), e, a)
    }

    fn handle(&self, e: PluginEvent) -> (a: PluginAction) {
        match e {
            PluginEvent::Accepted => PluginAction::ConnectUnix { path: self.unix_path.clone() },
            PluginEvent::Connected => PluginAction::Bridge,
            _ => PluginAction::Close,
        }
    }
}

/// Sends files under a directory.
pub struct StaticFilePlugin {
    local_path: String,
    strip_prefix: Option<String>,
}

impl StaticFilePlugin {
    pub closed spec fn base(self) -> Seq<char> {
        self.local_path@
    }

    pub closed spec fn prefix(self) -> Option<Seq<char>> {
        optional_chars(self.strip_prefix)
    }

    pub fn new(config: &PluginConfig) -> (r: Result<Self, PluginError>)
        ensures
            match config.local_path {
                Some(p) => r matches Ok(plugin) && plugin.base() == p@ && plugin.prefix()
                    == optional_chars(config.strip_prefix),
                None => refused(r, "local_path is required for static_file plugin"@),
            },
    {
        match &config.local_path {
            Some(p) => Ok(
                StaticFilePlugin {
                    local_path: p.clone(),
                    strip_prefix: match &config.strip_prefix {
                        Some(x) => Some(x.clone()),
                        None => None,
                    },
                },
            ),
            None => Err(
                PluginError::InvalidInput(
                    "local_path is required for static_file plugin".to_string(),
                ),
            ),
        }
    }

    /// The file that a requested path stands for.
    pub fn build_file_path(&self, path: &str) -> (f: String)
        ensures
            f@ == file_of(self.base(), self.prefix(), path@),
    {
        let chars: Vec<char> = chars_of(path);
        let end: usize = find_from(&chars, '?', 0);
        assert(chars@.skip(0) == chars@);
        let mut p: String = string_of(&chars, 0, end);
        assert(p@ == without_query(path@));
        if let Some(x) = &self.strip_prefix {
            let head: String = if starts_with(x.as_str(), "/") {
                x.clone()
            } else {
                "/".to_string().concat(x.as_str())
            };
            if starts_with(p.as_str(), head.as_str()) {
                let all: Vec<char> = chars_of(p.as_str());
                let skip: Vec<char> = chars_of(head.as_str());
                p = string_of(&all, skip.len(), all.len());
                assert(p@ =~= all@.skip(skip.len() as int));
            }
        }
        let mut f: String = self.local_path.clone();
        if !same(p.as_str(), "/") {
            f.append(p.as_str());
        }
        f
    }

    /// Reads a request for a file.
    pub fn handle_http_request(&self, text: &str) -> (a: PluginAction)
        ensures
            file_request(self.base(), self.prefix(), text@, a),
    {
        match words_of_request(text) {
            None => fail("invalid HTTP request"),
            Some(parts) => {
                if parts.len() < 3 {
                    return fail("invalid HTTP request line");
                }
                assert(texts(parts@)[0] == parts[0]@ && texts(parts@)[1] == parts[1]@);
                if same(parts[0].as_str(), "GET") {
                    PluginAction::FindFile {
                        path: self.build_file_path(parts[1].as_str()),
                        base: self.local_path.clone(),
                    }
                } else {
                    PluginAction::Respond {
                        text:
                            "HTTP/1.1 405 Method Not Allowed\r\nContent-Type: text/plain\r\n\r\nMethod not allowed".to_string(),
                    }
                }
            },
        }
    }

    /// Decides what is sent of what was found.
    pub fn serve_file(found: &FileLookup) -> (a: PluginAction)
        ensures
            file_outcome(*found, a),
    {
        let missing: bool = match found {
            FileLookup::Unresolved => true,
            FileLookup::Resolved { path, base, exists, is_file } => {
                if !is_under(base, path) {
                    return PluginAction::Respond {
                        text:
                            "HTTP/1.1 403 Forbidden\r\nContent-Type: text/plain\r\n\r\nAccess forbidden".to_string(),
                    };
                }
                if *exists && !*is_file {
                    return PluginAction::Respond {
                        text:
                            "HTTP/1.1 403 Forbidden\r\nContent-Type: text/plain\r\n\r\nForbidden".to_string(),
                    };
                }
                !*exists
            },
        };
        if missing {
            PluginAction::Respond {
                text:
                    "HTTP/1.1 404 Not Found\r\nContent-Type: text/plain\r\n\r\nFile not found".to_string(),
            }
        } else {
            PluginAction::ReadFile
        }
    }
}

impl Plugin for StaticFilePlugin {
    open spec fn reacts(&self, e: PluginEvent, a: PluginAction) -> bool {
        static_reacts(self.base(), self.prefix(), e, a)
    }

    fn handle(&self, e: PluginEvent) -> (a: PluginAction) {
        match e {
            PluginEvent::Accepted => PluginAction::Read { max: 1024 },
            PluginEvent::FirstData(data) => {
                let text: String = lossy_text(data.as_slice());
                self.handle_http_request(text.as_str())
            },
            PluginEvent::FileFound(found) => Self::serve_file(&found),
            PluginEvent::FileRead { len } => {
                let mut header: String =
                    "HTTP/1.1 200 OK\r\nContent-Type: application/octet-stream\r\nContent-Length: ".to_string();
                push_decimal(&mut header, len as u64);
                header.append("\r\n\r\n");
                PluginAction::SendFile { header }
            },
            _ => PluginAction::Close,
        }
    }
}

/// Opens tunnels over HTTP.
pub struct HttpProxyPlugin {}

impl HttpProxyPlugin {
    /// The plugin, which needs no settings.
    pub fn new(_config: &PluginConfig) -> (r: Result<Self, PluginError>)
        ensures
            r is Ok,
    {
        Ok(HttpProxyPlugin {  })
    }

    /// Reads a request for a tunnel.
    pub fn handle_http_proxy_request(&self, text: &str) -> (a: PluginAction)
        ensures
            tunnel_request(text@, a),
    {
        match words_of_request(text) {
            None => fail("invalid HTTP request"),
            Some(parts) => {
                if parts.len() < 3 {
                    return fail("invalid HTTP CONNECT request");
                }
                assert(texts(parts@)[0] == parts[0]@ && texts(parts@)[1] == parts[1]@);
                if !same(parts[0].as_str(), "CONNECT") {
                    return fail("invalid HTTP CONNECT request");
                }
                PluginAction::ConnectAddr { target: parts[1].clone() }
            },
        }
    }
}

impl Plugin for HttpProxyPlugin {
    open spec fn reacts(&self, e: PluginEvent, a: PluginAction) -> bool {
        http_proxy_reacts(e, a)
    }

    fn handle(&self, e: PluginEvent) -> (a: PluginAction) {
        match e {
            PluginEvent::Accepted => PluginAction::Read { max: 1024 },
            PluginEvent::FirstData(data) => {
                let text: String = lossy_text(data.as_slice());
                self.handle_http_proxy_request(text.as_str())
            },
            PluginEvent::Connected => PluginAction::RespondAndBridge {
                text: "HTTP/1.1 200 Connection Established\r\n\r\n".to_string(),
            },
            _ => PluginAction::Close,
        }
    }
}

/// Is a SOCKS5 server.
pub struct Socks5Plugin {}

impl Socks5Plugin {
    /// The plugin, which needs no settings.
    pub fn new(_config: &PluginConfig) -> (r: Result<Self, PluginError>)
        ensures
            r is Ok,
    {
        Ok(Socks5Plugin {  })
    }
}

impl Plugin for Socks5Plugin {
    open spec fn reacts(&self, e: PluginEvent, a: PluginAction) -> bool {
        socks5_reacts(e, a)
    }

    fn handle(&self, e: PluginEvent) -> (a: PluginAction) {
        match e {
            PluginEvent::Accepted => PluginAction::Read { max: 256 },
            PluginEvent::FirstData(data) => {
                if data.len() < 2 || data[0] != 5 {
                    return fail("invalid SOCKS5 version");
                }
                PluginAction::SendAndRead { data: vec![5, 0], max: 256 }
            },
            PluginEvent::NextData(data) => parse_socks_request(&data),
            PluginEvent::Connected => PluginAction::SendAndBridge {
                data: vec![5, 0, 0, 1, 0, 0, 0, 0, 0, 0],
            },
            _ => PluginAction::Close,
        }
    }
}

/// The settings of a plugin that ends TLS lack something.
pub open spec fn tls_settings_problem(config: PluginConfig) -> Option<Seq<char>> {
    if config.local_addr is None {
        Some("local_addr is required for "@ + config.kind@ + " plugin"@)
    } else if config.crt_path is Some != config.key_path is Some {
        Some("crt_path and key_path must be given together"@)
    } else {
        None
    }
}

/// The certificate of a plugin that ends TLS: from files, where they are given.
pub open spec fn plugin_certificate(config: PluginConfig) -> TlsSource {
    match (config.crt_path, config.key_path) {
        (Some(cert_file), Some(key_file)) => TlsSource::Files { cert_file, key_file },
        _ => TlsSource::Builtin,
    }
}

/// Where a plugin that ends TLS carries what is inside, and its certificate.
fn tls_settings(config: &PluginConfig) -> (r: Result<(String, TlsSource), PluginError>)
    ensures
        match tls_settings_problem(*config) {
            Some(text) => refused(r, text),
            None => r matches Ok(s) && Some(s.0) == config.local_addr && s.1 == plugin_certificate(
                *config,
            ),
        },
{
    let addr: String = match &config.local_addr {
        Some(a) => a.clone(),
        None => {
            let mut text: String = "local_addr is required for ".to_string();
            text.append(config.kind.as_str());
            text.append(" plugin");
            return Err(PluginError::InvalidInput(text));
        },
    };
    match (&config.crt_path, &config.key_path) {
        (Some(c), Some(k)) => Ok(
            (addr, TlsSource::Files { cert_file: c.clone(), key_file: k.clone() }),
        ),
        (None, None) => Ok((addr, TlsSource::Builtin)),
        _ => Err(
            PluginError::InvalidInput("crt_path and key_path must be given together".to_string()),
        ),
    }
}

fn clone_source(source: &TlsSource) -> (c: TlsSource)
    ensures
        c == *source,
{
    match source {
        TlsSource::Disabled => TlsSource::Disabled,
        TlsSource::Files { cert_file, key_file } => TlsSource::Files {
            cert_file: cert_file.clone(),
            key_file: key_file.clone(),
        },
        TlsSource::Builtin => TlsSource::Builtin,
    }
}

/// Ends TLS and carries what is inside to a local address, in the clear.
pub struct TlsOffloadPlugin {
    local_addr: String,
    certificate: TlsSource,
}

impl TlsOffloadPlugin {
    pub closed spec fn target(self) -> Seq<char> {
        self.local_addr@
    }

    pub closed spec fn certificate(self) -> TlsSource {
        self.certificate
    }

    pub fn new(config: &PluginConfig) -> (r: Result<Self, PluginError>)
        ensures
            match tls_settings_problem(*config) {
                Some(text) => refused(r, text),
                None => r matches Ok(p) && p.target() == config.local_addr->0@ && p.certificate()
                    == plugin_certificate(*config),
            },
    {
        match tls_settings(config) {
            Ok((local_addr, certificate)) => Ok(TlsOffloadPlugin { local_addr, certificate }),
            Err(e) => Err(e),
        }
    }
}

impl Plugin for TlsOffloadPlugin {
    open spec fn reacts(&self, e: PluginEvent, a: PluginAction) -> bool {
        tls_reacts(self.target(), self.certificate(), false, e, a)
    }

    fn handle(&self, e: PluginEvent) -> (a: PluginAction) {
        match e {
            PluginEvent::Accepted => PluginAction::AcceptTls {
                certificate: clone_source(&self.certificate),
            },
            PluginEvent::Secured => PluginAction::Connect { target: self.local_addr.clone() },
            PluginEvent::Connected => PluginAction::Bridge,
            _ => PluginAction::Close,
        }
    }
}

/// Ends TLS and carries what is inside to a local address, encrypted anew.
pub struct TlsBridgePlugin {
    local_addr: String,
    certificate: TlsSource,
}

impl TlsBridgePlugin {
    pub closed spec fn target(self) -> Seq<char> {
        self.local_addr@
    }

    pub closed spec fn certificate(self) -> TlsSource {
        self.certificate
    }

    pub fn new(config: &PluginConfig) -> (r: Result<Self, PluginError>)
        ensures
            match tls_settings_problem(*config) {
                Some(text) => refused(r, text),
                None => r matches Ok(p) && p.target() == config.local_addr->0@ && p.certificate()
                    == plugin_certificate(*config),
            },
    {
        match tls_settings(config) {
            Ok((local_addr, certificate)) => Ok(TlsBridgePlugin { local_addr, certificate }),
            Err(e) => Err(e),
        }
    }
}

impl Plugin for TlsBridgePlugin {
    open spec fn reacts(&self, e: PluginEvent, a: PluginAction) -> bool {
        tls_reacts(self.target(), self.certificate(), true, e, a)
    }

    fn handle(&self, e: PluginEvent) -> (a: PluginAction) {
        match e {
            PluginEvent::Accepted => PluginAction::AcceptTls {
                certificate: clone_source(&self.certificate),
            },
            PluginEvent::Secured => PluginAction::Connect { target: self.local_addr.clone() },
            PluginEvent::Connected => PluginAction::SecureTarget,
            PluginEvent::TargetSecured => PluginAction::Bridge,
            _ => PluginAction::Close,
        }
    }
}

/// The kinds of plugins that are built in.
#[derive(Clone, Copy, PartialEq, Eq, Structural)]
pub enum BuiltinKind {
    UnixDomainSocket,
    StaticFile,
    HttpProxy,
    Socks5,
    TlsOffload,
    TlsBridge,
}

/// The built-in plugin of a name.
pub open spec fn builtin_of(name: Seq<char>) -> Option<BuiltinKind> {
    if name == "unix_domain_socket"@ {
        Some(BuiltinKind::UnixDomainSocket)
    } else if name == "static_file"@ {
        Some(BuiltinKind::StaticFile)
    } else if name == "http_proxy"@ {
        Some(BuiltinKind::HttpProxy)
    } else if name == "socks5"@ {
        Some(BuiltinKind::Socks5)
    } else if name == "https2http"@ || name == "tls2raw"@ {
        Some(BuiltinKind::TlsOffload)
    } else if name == "https2https"@ {
        Some(BuiltinKind::TlsBridge)
    } else {
        None
    }
}

/// What a built-in plugin with these settings does.
pub open spec fn builtin_reacts(
    kind: BuiltinKind,
    config: PluginConfig,
    e: PluginEvent,
    a: PluginAction,
) -> bool {
    match kind {
        BuiltinKind::UnixDomainSocket => unix_reacts(config.unix_path->0@, e, a),
        BuiltinKind::StaticFile => static_reacts(
            config.local_path->0@,
            optional_chars(config.strip_prefix),
            e,
            a,
        ),
        BuiltinKind::HttpProxy => http_proxy_reacts(e, a),
        BuiltinKind::Socks5 => socks5_reacts(e, a),
        BuiltinKind::TlsOffload => tls_reacts(
            config.local_addr->0@,
            plugin_certificate(config),
            false,
            e,
            a,
        ),
        BuiltinKind::TlsBridge => tls_reacts(
            config.local_addr->0@,
            plugin_certificate(config),
            true,
            e,
            a,
        ),
    }
}

/// What is wrong with the settings of a built-in plugin.
pub open spec fn builtin_problem(kind: BuiltinKind, config: PluginConfig) -> Option<Seq<char>> {
    match kind {
        BuiltinKind::UnixDomainSocket => if config.unix_path is None {
            Some("unix_path is required for unix_domain_socket plugin"@)
        } else {
            None
        },
        BuiltinKind::StaticFile => if config.local_path is None {
            Some("local_path is required for static_file plugin"@)
        } else {
            None
        },
        BuiltinKind::HttpProxy => None,
        BuiltinKind::Socks5 => None,
        BuiltinKind::TlsOffload => tls_settings_problem(config),
        BuiltinKind::TlsBridge => tls_settings_problem(config),
    }
}

/// A built-in plugin.
pub enum BuiltinPlugin {
    UnixDomainSocket(UnixDomainSocketPlugin),
    StaticFile(StaticFilePlugin),
    HttpProxy(HttpProxyPlugin),
    Socks5(Socks5Plugin),
    TlsOffload(TlsOffloadPlugin),
    TlsBridge(TlsBridgePlugin),
}

impl Plugin for BuiltinPlugin {
    open spec fn reacts(&self, e: PluginEvent, a: PluginAction) -> bool {
        match self {
            BuiltinPlugin::UnixDomainSocket(p) => p.reacts(e, a),
            BuiltinPlugin::StaticFile(p) => p.reacts(e, a),
            BuiltinPlugin::HttpProxy(p) => p.reacts(e, a),
            BuiltinPlugin::Socks5(p) => p.reacts(e, a),
            BuiltinPlugin::TlsOffload(p) => p.reacts(e, a),
            BuiltinPlugin::TlsBridge(p) => p.reacts(e, a),
        }
    }

    fn handle(&self, e: PluginEvent) -> (a: PluginAction) {
        match self {
            BuiltinPlugin::UnixDomainSocket(p) => p.handle(e),
            BuiltinPlugin::StaticFile(p) => p.handle(e),
            BuiltinPlugin::HttpProxy(p) => p.handle(e),
            BuiltinPlugin::Socks5(p) => p.handle(e),
            BuiltinPlugin::TlsOffload(p) => p.handle(e),
            BuiltinPlugin::TlsBridge(p) => p.handle(e),
        }
    }
}

/// A plugin does what a built-in plugin with these settings does.
pub open spec fn behaves_as(p: BuiltinPlugin, kind: BuiltinKind, config: PluginConfig) -> bool {
    forall|e: PluginEvent, a: PluginAction| #[trigger]
        p.reacts(e, a) == builtin_reacts(kind, config, e, a)
}

/// `r` is what comes of making a built-in plugin with these settings.
pub open spec fn builtin_made(
    kind: BuiltinKind,
    config: PluginConfig,
    r: Result<BuiltinPlugin, PluginError>,
) -> bool {
    match builtin_problem(kind, config) {
        Some(text) => refused(r, text),
        None => r matches Ok(p) && behaves_as(p, kind, config),
    }
}

/// Makes built-in plugins of one kind.
pub struct BuiltinPluginFactory {
    pub kind: BuiltinKind,
}

impl PluginFactory for BuiltinPluginFactory {
    type Made = BuiltinPlugin;

    open spec fn makes(&self, config: PluginConfig, r: Result<BuiltinPlugin, PluginError>) -> bool {
        builtin_made(self.kind, config, r)
    }

    fn create(&self, config: &PluginConfig) -> (r: Result<BuiltinPlugin, PluginError>) {
        match self.kind {
            BuiltinKind::UnixDomainSocket => match UnixDomainSocketPlugin::new(config) {
                Ok(p) => Ok(BuiltinPlugin::UnixDomainSocket(p)),
                Err(e) => Err(e),
            },
            BuiltinKind::StaticFile => match StaticFilePlugin::new(config) {
                Ok(p) => Ok(BuiltinPlugin::StaticFile(p)),
                Err(e) => Err(e),
            },
            BuiltinKind::HttpProxy => match HttpProxyPlugin::new(config) {
                Ok(p) => Ok(BuiltinPlugin::HttpProxy(p)),
                Err(e) => Err(e),
            },
            BuiltinKind::Socks5 => match Socks5Plugin::new(config) {
                Ok(p) => Ok(BuiltinPlugin::Socks5(p)),
                Err(e) => Err(e),
            },
            BuiltinKind::TlsOffload => match TlsOffloadPlugin::new(config) {
                Ok(p) => Ok(BuiltinPlugin::TlsOffload(p)),
                Err(e) => Err(e),
            },
            BuiltinKind::TlsBridge => match TlsBridgePlugin::new(config) {
                Ok(p) => Ok(BuiltinPlugin::TlsBridge(p)),
                Err(e) => Err(e),
            },
        }
    }
}

/// A factory that is registered.
pub enum FactoryEntry<F> {
    Builtin(BuiltinKind),
    Custom(F),
}

/// A plugin that a registered factory made.
pub enum AnyPlugin<P> {
    Builtin(BuiltinPlugin),
    Custom(P),
}

impl<P: Plugin> Plugin for AnyPlugin<P> {
    open spec fn reacts(&self, e: PluginEvent, a: PluginAction) -> bool {
        match self {
            AnyPlugin::Builtin(p) => p.reacts(e, a),
            AnyPlugin::Custom(p) => p.reacts(e, a),
        }
    }

    fn handle(&self, e: PluginEvent) -> (a: PluginAction) {
        match self {
            AnyPlugin::Builtin(p) => p.handle(e),
            AnyPlugin::Custom(p) => p.handle(e),
        }
    }
}

/// The factories of plugins, by the kind of plugin that they make.
pub struct PluginManager<F> {
    factories: NameMap<FactoryEntry<F>>,
}

impl<F> View for PluginManager<F> {
    type V = Map<Seq<char>, FactoryEntry<F>>;

    closed spec fn view(&self) -> Map<Seq<char>, FactoryEntry<F>> {
        self.factories@
    }
}

/// The built-in plugins by their names.
pub open spec fn builtin_entries<F>() -> Map<Seq<char>, FactoryEntry<F>> {
    Map::new(
        |n: Seq<char>| builtin_of(n) is Some,
        |n: Seq<char>| FactoryEntry::Builtin(builtin_of(n)->0),
    )
}

impl<F: PluginFactory> PluginManager<F> {
    /// The built-in plugins.
    pub fn new() -> (m: Self)
        ensures
            m@ == builtin_entries::<F>(),
    {
        let mut factories: NameMap<FactoryEntry<F>> = NameMap::new();
        factories.insert(
            "unix_domain_socket".to_string(),
            FactoryEntry::Builtin(BuiltinKind::UnixDomainSocket),
        );
        factories.insert(
            "static_file".to_string(),
            FactoryEntry::Builtin(BuiltinKind::StaticFile),
        );
        factories.insert("http_proxy".to_string(), FactoryEntry::Builtin(BuiltinKind::HttpProxy));
        factories.insert("socks5".to_string(), FactoryEntry::Builtin(BuiltinKind::Socks5));
        factories.insert("https2http".to_string(), FactoryEntry::Builtin(BuiltinKind::TlsOffload));
        factories.insert("tls2raw".to_string(), FactoryEntry::Builtin(BuiltinKind::TlsOffload));
        factories.insert("https2https".to_string(), FactoryEntry::Builtin(BuiltinKind::TlsBridge));
        proof {
            reveal_strlit("unix_domain_socket");
            reveal_strlit("static_file");
            reveal_strlit("http_proxy");
            reveal_strlit("socks5");
            reveal_strlit("https2http");
            reveal_strlit("tls2raw");
            reveal_strlit("https2https");
            assert("http_proxy"@[4] != "https2http"@[4]);
            assert("static_file"@[0] != "https2https"@[0]);
            assert("unix_domain_socket"@.len() == 18);
            assert("static_file"@.len() == 11);
            assert("http_proxy"@.len() == 10);
            assert("socks5"@.len() == 6);
            assert("https2http"@.len() == 10);
            assert("tls2raw"@.len() == 7);
            assert("https2https"@.len() == 11);
        }
        assert(factories@ =~= builtin_entries::<F>());
        PluginManager { factories }
    }

    /// Makes the plugin that the settings ask for.
    pub fn create_plugin(&self, config: &PluginConfig) -> (r: Result<
        AnyPlugin<F::Made>,
        PluginError,
    >)
        ensures
            if self@.contains_key(config.kind@) {
                match self@[config.kind@] {
                    FactoryEntry::Builtin(kind) => match builtin_problem(kind, *config) {
                        Some(text) => refused(r, text),
                        None => r matches Ok(AnyPlugin::Builtin(p)) && behaves_as(p, kind, *config),
                    },
                    FactoryEntry::Custom(f) => match r {
                        Ok(AnyPlugin::Custom(p)) => f.makes(*config, Ok(p)),
                        Ok(_) => false,
                        Err(e) => f.makes(*config, Err(e)),
                    },
                }
            } else {
                refused(r, "unsupported plugin type: "@ + config.kind@)
            },
    {
        match self.factories.get(config.kind.as_str()) {
            Some(FactoryEntry::Builtin(kind)) => match (BuiltinPluginFactory {
                kind: *kind,
            }).create(config) {
                Ok(p) => Ok(AnyPlugin::Builtin(p)),
                Err(e) => Err(e),
            },
            Some(FactoryEntry::Custom(f)) => match f.create(config) {
                Ok(p) => Ok(AnyPlugin::Custom(p)),
                Err(e) => Err(e),
            },
            None => Err(
                PluginError::InvalidInput(
                    "unsupported plugin type: ".to_string().concat(config.kind.as_str()),
                ),
            ),
        }
    }

    /// Adds a kind of plugin, or replaces it.
    pub fn register_plugin(&mut self, name: &str, factory: F)
        ensures
            final(self)@ == old(self)@.insert(name@, FactoryEntry::Custom(factory)),
    {
        self.factories.insert(name.to_string(), FactoryEntry::Custom(factory));
    }

    /// Takes a kind of plugin away.
    pub fn unregister_plugin(&mut self, name: &str)
        ensures
            final(self)@ == old(self)@.remove(name@),
    {
        let _ = self.factories.remove(name);
    }
}

impl<F: PluginFactory> Default for PluginManager<F> {
    fn default() -> (m: Self)
        ensures
            m@ == builtin_entries::<F>(),
    {
        PluginManager::new()
    }
}

/// What a plugin for static files sends lies under the directory that it serves,
/// whatever was asked for.
pub proof fn law_only_files_under_the_base_are_served(found: FileLookup, a: PluginAction)
    requires
        file_outcome(found, a),
    ensures
        a is ReadFile ==> (found matches FileLookup::Resolved { path, base, exists, is_file }
            && lies_under(base@, path@) && exists && is_file),
{
}

} // verus!
