//! HTTP requests as far as they are read for routing: the request line, the
//! headers and the host.
use crate::codec::{
    base64_encode, base64_of, hashable, lossy_text, lossy_text_of, lowercase_of, sha1, sha1_of,
    to_lowercase,
};
use crate::config::text_values;
use crate::names::NameMap;
use crate::text::{
    chars_of, contains, find, find_from, lines, same, spec_contains, spec_lines, spec_trim,
    spec_words, split_whitespace, string_of, texts, trim,
};
use vstd::prelude::*;
use vstd::string::*;
use vstd::utf8::encode_utf8;

verus! {

/// What a request says of itself.
#[derive(Debug)]
pub struct HttpRequestInfo {
    pub method: String,
    pub path: String,
    pub version: String,
    /// The headers, by their names in lower case.
    pub headers: NameMap<String>,
    /// The host without its port.
    pub host: String,
}

/// The headers of a request and its host.
pub struct HeaderView {
    pub headers: Map<Seq<char>, Seq<char>>,
    pub host: Seq<char>,
}

/// What one header line adds. A line without a colon adds nothing; of two headers
/// with one name the later counts.
pub open spec fn add_header(v: HeaderView, line: Seq<char>) -> HeaderView {
    let i = find(line, ':') as int;
    if i < line.len() {
        let key = lowercase_of(spec_trim(line.take(i)));
        let value = spec_trim(line.skip(i + 1));
        HeaderView {
            headers: v.headers.insert(key, value),
            host: if key == "host"@ {
                value.take(find(value, ':') as int)
            } else {
                v.host
            },
        }
    } else {
        v
    }
}

/// What the lines up to the first empty line add.
pub open spec fn add_headers(v: HeaderView, lines: Seq<Seq<char>>) -> HeaderView
    decreases lines.len(),
{
    if lines.len() == 0 || lines[0].len() == 0 {
        v
    } else {
        add_headers(add_header(v, lines[0]), lines.drop_first())
    }
}

/// The headers of a request, from the lines after the first.
pub open spec fn request_headers(lines: Seq<Seq<char>>) -> HeaderView {
    add_headers(HeaderView { headers: Map::empty(), host: seq![] }, lines.drop_first())
}

/// Whether a text is a request: its first line has at least three words, and it
/// names a host.
pub open spec fn is_request(text: Seq<char>) -> bool {
    let lines = spec_lines(text);
    &&& lines.len() > 0
    &&& spec_words(lines[0]).len() >= 3
    &&& request_headers(lines).host.len() > 0
}

proof fn lemma_text_values_insert(m: Map<Seq<char>, String>, k: Seq<char>, v: String)
    ensures
        text_values(m.insert(k, v)) == text_values(m).insert(k, v@),
{
    assert(text_values(m.insert(k, v)) =~= text_values(m).insert(k, v@));
}

impl HttpRequestInfo {
    /// This is what the request `text` says of itself.
    pub open spec fn describes(self, text: Seq<char>) -> bool {
        let lines = spec_lines(text);
        let words = spec_words(lines[0]);
        let v = request_headers(lines);
        &&& self.method@ == words[0]
        &&& self.path@ == words[1]
        &&& self.version@ == words[2]
        &&& text_values(self.headers@) == v.headers
        &&& self.host@ == v.host
    }

    /// Reads a request from the bytes that were received.
    pub fn parse(data: &[u8]) -> (r: Option<Self>)
        ensures
            r is Some == is_request(lossy_text_of(data@)),
            r matches Some(info) ==> info.describes(lossy_text_of(data@)),
    {
        let text: String = lossy_text(data);
        Self::parse_text(text.as_str())
    }

    /// Reads a request from its text.
    pub fn parse_text(text: &str) -> (r: Option<Self>)
        ensures
            r is Some == is_request(text@),
            r matches Some(info) ==> info.describes(text@),
    {
        let all: Vec<String> = lines(text);
        let ghost ls = spec_lines(text@);
        assert(texts(all@).len() == all.len());
        if all.len() == 0 {
            return None;
        }
        assert(texts(all@)[0] == all[0]@);
        let parts: Vec<String> = split_whitespace(all[0].as_str());
        assert(texts(parts@).len() == parts.len());
        if parts.len() < 3 {
            return None;
        }
        assert(texts(parts@)[0] == parts[0]@);
        assert(texts(parts@)[1] == parts[1]@);
        assert(texts(parts@)[2] == parts[2]@);
        let mut headers: NameMap<String> = NameMap::new();
        let mut host: String = String::new();
        assert(text_values(headers@) =~= Map::<Seq<char>, Seq<char>>::empty());
        let mut i: usize = 1;
        assert(ls.drop_first() == ls.skip(1));
        while i < all.len() && !all[i].as_str().is_empty()
            invariant
                1 <= i <= all.len(),
                texts(all@) == ls,
                request_headers(ls) == add_headers(
                    (HeaderView { headers: text_values(headers@), host: host@ }),
                    ls.skip(i as int),
                ),
            decreases all.len() - i,
        {
            let line: &String = &all[i];
            let ghost v = HeaderView { headers: text_values(headers@), host: host@ };
            proof {
                assert(texts(all@)[i as int] == all[i as int]@);
                assert(ls.skip(i as int)[0] == line@);
                assert(ls.skip(i as int).drop_first() == ls.skip(i + 1));
            }
            let chars: Vec<char> = chars_of(line.as_str());
            let idx: usize = find_from(&chars, ':', 0);
            assert(chars@.skip(0) == line@);
            if idx < chars.len() {
                let raw_key: String = string_of(&chars, 0, idx);
                let raw_value: String = string_of(&chars, idx + 1, chars.len());
                assert(raw_key@ == line@.take(idx as int));
                assert(raw_value@ == line@.skip(idx + 1));
                let key: String = to_lowercase(trim(raw_key.as_str()).as_str());
                let value: String = trim(raw_value.as_str());
                if same(key.as_str(), "host") {
                    let vc: Vec<char> = chars_of(value.as_str());
                    let colon: usize = find_from(&vc, ':', 0);
                    assert(vc@.skip(0) == value@);
                    host = string_of(&vc, 0, colon);
                    assert(host@ == value@.take(colon as int));
                }
                proof {
                    lemma_text_values_insert(headers@, key@, value);
                }
                headers.insert(key, value);
            }
            assert(add_header(v, line@) == (HeaderView {
                headers: text_values(headers@),
                host: host@,
            }));
            i = i + 1;
        }
        proof {
            let rest = ls.skip(i as int);
            if i < all.len() {
                assert(texts(all@)[i as int] == all[i as int]@);
                assert(rest[0] == all[i as int]@);
            }
        }
        if host.as_str().is_empty() {
            return None;
        }
        Some(
            HttpRequestInfo {
                method: parts[0].clone(),
                path: parts[1].clone(),
                version: parts[2].clone(),
                headers,
                host,
            },
        )
    }

    /// The value of a header, by its name in lower case.
    pub open spec fn header(self, name: Seq<char>) -> Option<Seq<char>> {
        if self.headers@.contains_key(name) {
            Some(self.headers@[name]@)
        } else {
            None
        }
    }

    /// Whether the request asks for a WebSocket: its `Connection` header mentions
    /// `upgrade` and its `Upgrade` header is `websocket`, in any case.
    pub open spec fn spec_is_websocket_upgrade(self) -> bool {
        &&& self.header("connection"@) matches Some(c)
        &&& spec_contains(lowercase_of(c), "upgrade"@)
        &&& self.header("upgrade"@) matches Some(u)
        &&& lowercase_of(u) == "websocket"@
    }

    /// Whether the request asks for a WebSocket.
    pub fn is_websocket_upgrade(&self) -> (b: bool)
        ensures
            b == self.spec_is_websocket_upgrade(),
    {
        match self.headers.get("connection") {
            Some(connection) => {
                if !contains(to_lowercase(connection.as_str()).as_str(), "upgrade") {
                    return false;
                }
            },
            None => {
                return false;
            },
        }
        match self.headers.get("upgrade") {
            Some(upgrade) => same(to_lowercase(upgrade.as_str()).as_str(), "websocket"),
            None => false,
        }
    }

    /// The key of a WebSocket handshake.
    pub fn get_websocket_key(&self) -> (key: Option<&str>)
        ensures
            match key {
                Some(k) => self.header("sec-websocket-key"@) == Some(k@),
                None => self.header("sec-websocket-key"@) is None,
            },
    {
        match self.headers.get("sec-websocket-key") {
            Some(k) => Some(k.as_str()),
            None => None,
        }
    }

    /// The text whose digest answers a WebSocket handshake (RFC 6455).
    pub open spec fn accept_text(key: Seq<char>) -> Seq<char> {
        key + "258EAFA5-E914-47DA-95CA-C5AB0DC85B11"@
    }

    /// The answer to the key of a WebSocket handshake.
    pub fn generate_websocket_accept_key(key: &str) -> (accept: String)
        requires
            hashable(Self::accept_text(key@)),
        ensures
            accept@ == base64_of(sha1_of(encode_utf8(Self::accept_text(key@)))),
    {
        let combined: String = key.to_string().concat("258EAFA5-E914-47DA-95CA-C5AB0DC85B11");
        let digest: Vec<u8> = sha1(combined.as_str().as_bytes());
        base64_encode(digest.as_slice())
    }
}

} // verus!
