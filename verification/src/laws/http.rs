//! Requests over HTTP, and the status pages.
use crate::codec::{
    base64_decoded, base64_of, hashable, lossy_text_of, lowercase_of, percent_decoded, sha1_of,
};
use crate::config::{text_values, ProxyConfig};
use crate::control::ControlManager;
use crate::http::{add_header, add_headers, request_headers, HeaderView, HttpRequestInfo};
use crate::laws::text::{is_word, lemma_first_line, lemma_three_words};
use crate::names::NameMap;
use crate::text::{
    find, lemma_find, replace, spec_is_whitespace, spec_lines, spec_replace, spec_split, spec_trim,
    spec_trim_start, spec_words, texts,
};
use crate::vhost::{answer_vhost_request, HttpVhostRouter, VhostAnswer};
use crate::web::{
    answer_login, answer_reload, credentials_match, find_field, form_field, make_session,
    may_show_page, session_fits, session_valid, web_login, LoginAnswer, ReloadAnswer, WebLogin,
};
use std::sync::Arc;
use vstd::prelude::*;
use vstd::string::*;
use vstd::utf8::{encode_utf8, encode_utf8_decode_utf8, encode_utf8_valid_utf8};

verus! {

proof fn lemma_trim_word(w: Seq<char>)
    requires
        is_word(w),
    ensures
        spec_trim(w) == w,
        spec_trim(seq![' '] + w) == w,
{
    assert(!spec_is_whitespace(w[0]));
    assert(!spec_is_whitespace(w[w.len() - 1]));
    let s = seq![' '] + w;
    assert(s.drop_first() =~= w);
    assert(spec_trim_start(w) == w);
    assert(spec_trim_start(s) == w);
}

proof fn lemma_no_line_feed(w: Seq<char>)
    requires
        is_word(w),
    ensures
        !w.contains('\n'),
        w.last() != '\r',
{
    if w.contains('\n') {
        let k = w.index_of('\n');
        assert(!spec_is_whitespace(w[k]));
    }
    assert(!spec_is_whitespace(w[w.len() - 1]));
}

/// The first line of a request.
pub open spec fn request_line(method: Seq<char>, path: Seq<char>, version: Seq<char>) -> Seq<char> {
    method + seq![' '] + path + seq![' '] + version
}

/// The end of a line.
pub open spec fn crlf() -> Seq<char> {
    seq!['\r', '\n']
}

proof fn lemma_request_line(method: Seq<char>, path: Seq<char>, version: Seq<char>)
    requires
        is_word(method),
        is_word(path),
        is_word(version),
    ensures
        !request_line(method, path, version).contains('\n'),
        request_line(method, path, version).last() != '\r',
        spec_words(request_line(method, path, version)) == seq![method, path, version],
{
    lemma_no_line_feed(method);
    lemma_no_line_feed(path);
    lemma_no_line_feed(version);
    lemma_three_words(method, path, version);
    let l = request_line(method, path, version);
    if l.contains('\n') {
        let k = l.index_of('\n');
        let a = method.len();
        let b = a + 1 + path.len();
        if k < a {
            assert(method[k] == '\n');
        } else if k > a && k < b {
            assert(path[k - a - 1] == '\n');
        } else if k > b {
            assert(version[k - b - 1] == '\n');
        }
    }
    assert(l.last() == version.last());
}

/// A request that names a host, with a port or without, is read as it was written: the
/// three words of its first line, and the host without its port.
pub proof fn law_request_is_read(
    text: &str,
    method: Seq<char>,
    path: Seq<char>,
    version: Seq<char>,
    name: Seq<char>,
    host: Seq<char>,
    port: Seq<char>,
    rest: Seq<char>,
    r: Option<HttpRequestInfo>,
)
    requires
        is_word(method),
        is_word(path),
        is_word(version),
        is_word(name),
        !name.contains(':'),
        lowercase_of(name) == "host"@,
        is_word(host),
        !host.contains(':'),
        is_word(host + port),
        port.len() > 0 ==> port[0] == ':',
        text@ == request_line(method, path, version) + crlf() + (name + seq![':', ' '] + host + port)
            + crlf() + (crlf() + rest),
        call_ensures(HttpRequestInfo::parse_text, (text,), r),
    ensures
        r is Some,
        r->0.method@ == method,
        r->0.path@ == path,
        r->0.version@ == version,
        r->0.host@ == host,
        r->0.headers@.contains_key("host"@),
        r->0.headers@["host"@]@ == host + port,
        forall|k: Seq<char>| #[trigger] r->0.headers@.contains_key(k) ==> k == "host"@,
{
    let line = request_line(method, path, version);
    let value = host + port;
    let header = name + seq![':', ' '] + host + port;
    let tail = crlf() + rest;
    let second = header + crlf() + tail;
    lemma_request_line(method, path, version);
    lemma_no_line_feed(name);
    lemma_no_line_feed(value);
    assert(text@ =~= line + seq!['\r', '\n'] + second);
    lemma_first_line(line, true, second);
    assert(header =~= name + seq![':', ' '] + value);
    assert(header.last() == value.last());
    if header.contains('\n') {
        let k = header.index_of('\n');
        if k < name.len() {
            assert(name[k] == '\n');
        } else if k >= name.len() + 2 {
            assert(value[k - name.len() - 2] == '\n');
        }
    }
    lemma_first_line(header, true, tail);
    let none = Seq::<char>::empty();
    assert(tail =~= none + seq!['\r', '\n'] + rest);
    lemma_first_line(none, true, rest);
    let ls = spec_lines(text@);
    assert(ls =~= seq![line, header, none] + spec_lines(rest));
    let after = ls.drop_first();
    assert(after[0] == header);
    assert(after.drop_first()[0] == none);
    assert forall|j: int| 0 <= j < name.len() implies header[j] != ':' by {
        assert(name.contains(name[j]));
    }
    lemma_find(header, ':', name.len() as int);
    assert(header.take(name.len() as int) =~= name);
    assert(header.skip(name.len() as int + 1) =~= seq![' '] + value);
    lemma_trim_word(name);
    lemma_trim_word(value);
    assert forall|j: int| 0 <= j < host.len() implies value[j] != ':' by {
        assert(host.contains(host[j]));
    }
    lemma_find(value, ':', host.len() as int);
    assert(value.take(host.len() as int) =~= host);
    let start = HeaderView { headers: Map::<Seq<char>, Seq<char>>::empty(), host: seq![] };
    let v = add_header(start, header);
    assert(v.host == host);
    assert(add_headers(v, after.drop_first()) == v);
    assert(request_headers(ls) == v);
    let info = r->0;
    assert(text_values(info.headers@) == v.headers);
    assert(v.headers.contains_key("host"@));
    assert(text_values(info.headers@)["host"@] == info.headers@["host"@]@);
    assert forall|k: Seq<char>| #[trigger] info.headers@.contains_key(k) implies k == "host"@ by {
        assert(text_values(info.headers@).contains_key(k));
    }
}

/// What names no host is no request.
pub proof fn law_request_needs_a_host(
    text: &str,
    method: Seq<char>,
    path: Seq<char>,
    version: Seq<char>,
    rest: Seq<char>,
    r: Option<HttpRequestInfo>,
)
    requires
        is_word(method),
        is_word(path),
        is_word(version),
        text@ == request_line(method, path, version) + crlf() + (crlf() + rest),
        call_ensures(HttpRequestInfo::parse_text, (text,), r),
    ensures
        r is None,
{
    let line = request_line(method, path, version);
    let tail = crlf() + rest;
    lemma_request_line(method, path, version);
    assert(text@ =~= line + seq!['\r', '\n'] + tail);
    lemma_first_line(line, true, tail);
    let none = Seq::<char>::empty();
    assert(tail =~= none + seq!['\r', '\n'] + rest);
    lemma_first_line(none, true, rest);
    let ls = spec_lines(text@);
    assert(ls =~= seq![line, none] + spec_lines(rest));
    assert(ls.drop_first()[0] == none);
}

/// Bytes are read as the text that they stand for, and what the server does with them is
/// what it does with a request of that text; what is no request is told so, and nothing
/// is done where nothing came.
pub proof fn law_bytes_are_read_as_text<C>(
    data: &[u8],
    text: &str,
    from_bytes: Option<HttpRequestInfo>,
    from_text: Option<HttpRequestInfo>,
    router: HttpVhostRouter,
    owners: NameMap<String>,
    controls: ControlManager<C>,
    answer: VhostAnswer,
)
    requires
        text@ == lossy_text_of(data@),
        call_ensures(HttpRequestInfo::parse, (data,), from_bytes),
        call_ensures(HttpRequestInfo::parse_text, (text,), from_text),
        call_ensures(answer_vhost_request::<C>, (data, &router, &owners, &controls), answer),
    ensures
        from_bytes is Some == from_text is Some,
        from_bytes is Some ==> from_bytes->0.host@ == from_text->0.host@
            && from_bytes->0.method@ == from_text->0.method@ && from_bytes->0.path@
            == from_text->0.path@,
        data@.len() == 0 <==> answer is Closed,
        data@.len() > 0 && from_text is None ==> (answer matches VhostAnswer::Respond(t) && t@
            == "HTTP/1.1 400 Bad Request\r\nContent-Length: 0\r\n\r\n"@),
{
}

/// A request asks for a WebSocket exactly where its `Connection` header speaks of an
/// upgrade and its `Upgrade` header says `websocket`, in any case.
pub proof fn law_websocket_is_asked_for(info: HttpRequestInfo, b: bool, key: Option<&str>)
    requires
        call_ensures(HttpRequestInfo::is_websocket_upgrade, (&info,), b),
        call_ensures(HttpRequestInfo::get_websocket_key, (&info,), key),
    ensures
        b ==> info.headers@.contains_key("connection"@) && info.headers@.contains_key("upgrade"@)
            && lowercase_of(info.headers@["upgrade"@]@) == "websocket"@,
        info.headers@.contains_key("connection"@) && info.headers@.contains_key("upgrade"@)
            && lowercase_of(info.headers@["connection"@]@) == "upgrade"@ && lowercase_of(
            info.headers@["upgrade"@]@,
        ) == "websocket"@ ==> b,
        key is Some == info.headers@.contains_key("sec-websocket-key"@),
        key is Some ==> key->0@ == info.headers@["sec-websocket-key"@]@,
{
    let u = "upgrade"@;
    assert(u.subrange(0, 0int + u.len()) =~= u);
}

/// The answer to the key of a WebSocket is the SHA-1 digest, in base64, of the key and the
/// identifier that the protocol fixes.
pub proof fn law_websocket_is_answered(key: &str, accept: String)
    requires
        hashable(key@ + "258EAFA5-E914-47DA-95CA-C5AB0DC85B11"@),
        call_ensures(HttpRequestInfo::generate_websocket_accept_key, (key,), accept),
    ensures
        accept@ == base64_of(
            sha1_of(encode_utf8(key@ + "258EAFA5-E914-47DA-95CA-C5AB0DC85B11"@)),
        ),
{
}

proof fn lemma_split_in_two(a: Seq<char>, b: Seq<char>, c: char)
    requires
        !a.contains(c),
    ensures
        spec_split(a + seq![c] + b, c) == seq![a] + spec_split(b, c),
{
    let s = a + seq![c] + b;
    assert forall|j: int| 0 <= j < a.len() implies s[j] != c by {
        assert(a.contains(a[j]));
    }
    lemma_find(s, c, a.len() as int);
    assert(s.take(a.len() as int) =~= a);
    assert(s.skip(a.len() as int + 1) =~= b);
}

proof fn lemma_no_split(s: Seq<char>, c: char)
    requires
        !s.contains(c),
    ensures
        spec_split(s, c) == seq![s],
{
    assert forall|j: int| 0 <= j < s.len() implies s[j] != c by {
        assert(s.contains(s[j]));
    }
    lemma_find(s, c, s.len() as int);
}

proof fn lemma_nothing_replaced(s: Seq<char>, c: char, with: Seq<char>)
    requires
        !s.contains(c),
    ensures
        spec_replace(s, c, with) == s,
    decreases s.len(),
{
    if s.len() > 0 {
        assert(s.contains(s[s.len() - 1]));
        if s.drop_last().contains(c) {
            let k = s.drop_last().index_of(c);
            assert(s[k] == c);
        }
        lemma_nothing_replaced(s.drop_last(), c, with);
        assert(s =~= s.drop_last() + seq![s.last()]);
    }
}

/// The fields of a form are found by their names: the first one of a name counts, and each
/// has what stands behind its equals sign.
pub proof fn law_fields_are_found(
    body: &str,
    key: &str,
    first: Seq<char>,
    a: Seq<char>,
    second: Seq<char>,
    b: Seq<char>,
    found: Option<String>,
)
    requires
        body@ == (first + seq!['='] + a) + seq!['&'] + (second + seq!['='] + b),
        !first.contains('=') && !first.contains('&') && !first.contains('+'),
        !second.contains('=') && !second.contains('&') && !second.contains('+'),
        !a.contains('=') && !a.contains('&'),
        !b.contains('=') && !b.contains('&'),
        call_ensures(find_field, (body, key), found),
    ensures
        key@ == first ==> found is Some && found->0@ == a,
        key@ != first && key@ == second ==> found is Some && found->0@ == b,
        key@ != first && key@ != second ==> found is None,
{
    reveal_strlit(" ");
    let p = first + seq!['='] + a;
    let q = second + seq!['='] + b;
    assert(!p.contains('&')) by {
        if p.contains('&') {
            let k = p.index_of('&');
            if k < first.len() {
                assert(first[k] == '&');
            } else if k > first.len() {
                assert(a[k - first.len() - 1] == '&');
            }
        }
    }
    assert(!q.contains('&')) by {
        if q.contains('&') {
            let k = q.index_of('&');
            if k < second.len() {
                assert(second[k] == '&');
            } else if k > second.len() {
                assert(b[k - second.len() - 1] == '&');
            }
        }
    }
    lemma_split_in_two(p, q, '&');
    lemma_no_split(q, '&');
    let pieces = spec_split(body@, '&');
    assert(pieces =~= seq![p, q]);
    assert(pieces.drop_first() =~= seq![q]);
    assert(pieces.drop_first().drop_first() =~= Seq::<Seq<char>>::empty());
    lemma_split_in_two(first, a, '=');
    lemma_no_split(a, '=');
    lemma_split_in_two(second, b, '=');
    lemma_no_split(b, '=');
    assert(spec_split(p, '=') =~= seq![first, a]);
    assert(spec_split(q, '=') =~= seq![second, b]);
    lemma_nothing_replaced(first, '+', " "@);
    lemma_nothing_replaced(second, '+', " "@);
    reveal_with_fuel(crate::web::field_sent, 3);
}

/// The value of a field is what was sent, decoded, with plus signs for spaces; a field
/// that is missing or cannot be decoded is empty.
pub proof fn law_fields_are_decoded(
    body: &str,
    key: &str,
    found: Option<String>,
    sent: &str,
    spaced: String,
    value: String,
)
    requires
        call_ensures(find_field, (body, key), found),
        found is Some ==> sent@ == found->0@,
        call_ensures(replace, (sent, '+', " "), spaced),
        call_ensures(form_field, (body, key), value),
    ensures
        found is None ==> value@.len() == 0,
        found is Some && percent_decoded(spaced@) is Some ==> value@ == percent_decoded(
            spaced@,
        )->0,
        found is Some && percent_decoded(spaced@) is None ==> value@.len() == 0,
{
}

/// A visitor who sends the name and the password is let in, and nobody else is; the cookie
/// that comes with it shows every page, unless the name or the password holds a colon.
pub proof fn law_login_shows_the_pages(
    body: &str,
    user: &str,
    password: &str,
    name: String,
    word: String,
    session: String,
    answer: LoginAnswer,
    sent_back: &str,
    path: &str,
    shown: bool,
)
    requires
        session_fits(user@, password@),
        call_ensures(form_field, (body, "username"), name),
        call_ensures(form_field, (body, "password"), word),
        call_ensures(make_session, (user, password), session),
        call_ensures(answer_login, (body, user, password), answer),
        sent_back@ == "frp_session="@ + session@,
        call_ensures(may_show_page, (path, Some(sent_back), user, password), shown),
    ensures
        answer is Accepted == (name@ == user@ && word@ == password@),
        answer matches LoginAnswer::Accepted { cookie } ==> cookie@ == sent_back@
            + "; HttpOnly; Path=/"@,
        !user@.contains(':') && !password@.contains(':') ==> shown,
        session@ == base64_of(encode_utf8(user@ + ":"@ + password@)),
{
}

/// Without a cookie the login page and the metrics are shown, and no other page.
pub proof fn law_pages_without_a_cookie(path: &str, user: &str, password: &str, shown: bool)
    requires
        call_ensures(may_show_page, (path, None::<&str>, user, password), shown),
    ensures
        shown == (path@ == "/login"@ || path@ == "/metrics"@),
{
}

/// With a cookie exactly those pages are shown and the others where the session in it is
/// valid.
pub proof fn law_pages_with_a_cookie(
    path: &str,
    cookies: &str,
    user: &str,
    password: &str,
    valid: bool,
    shown: bool,
)
    requires
        call_ensures(session_valid, (cookies, user, password), valid),
        call_ensures(may_show_page, (path, Some(cookies), user, password), shown),
    ensures
        shown == (path@ == "/login"@ || path@ == "/metrics"@ || valid),
{
}

/// Decoded bytes are accepted exactly where they are the name and the password with a
/// colon between them.
pub proof fn law_credentials_decide(
    bytes: Vec<u8>,
    a: Seq<char>,
    b: Seq<char>,
    user: &str,
    password: &str,
    ok: bool,
    nothing: bool,
)
    requires
        bytes@ == encode_utf8(a + seq![':'] + b),
        !a.contains(':'),
        !b.contains(':'),
        call_ensures(credentials_match, (Some(bytes), user, password), ok),
        call_ensures(credentials_match, (None::<Vec<u8>>, user, password), nothing),
    ensures
        ok == (user@ == a && password@ == b),
        !nothing,
{
    let t = a + seq![':'] + b;
    encode_utf8_valid_utf8(t);
    encode_utf8_decode_utf8(t);
    lemma_split_in_two(a, b, ':');
    lemma_no_split(b, ':');
    assert(spec_split(t, ':') =~= seq![a, b]);
    if ok {
        assert(seq![user@, password@][0] == a);
        assert(seq![user@, password@][1] == b);
    }
}

/// A session in a cookie is valid exactly where it decodes to the name and the password;
/// other cookies before it do not matter.
pub proof fn law_session_decides(
    cookies: &str,
    other: Seq<char>,
    session: Seq<char>,
    decoded: Option<Vec<u8>>,
    user: &str,
    password: &str,
    matching: bool,
    valid: bool,
)
    requires
        cookies@ == other + seq![';', ' '] + "frp_session="@ + session,
        !other.contains(';'),
        is_word(other),
        !"frp_session="@.is_prefix_of(other),
        is_word(session),
        !session.contains(';'),
        !session.contains('='),
        base64_decoded(session) == (match decoded {
            Some(b) => Some(b@),
            None => None,
        }),
        call_ensures(credentials_match, (decoded, user, password), matching),
        call_ensures(session_valid, (cookies, user, password), valid),
    ensures
        valid == matching,
{
    reveal_strlit("frp_session=");
    let p = "frp_session="@;
    assert(p =~= seq!['f', 'r', 'p', '_', 's', 'e', 's', 's', 'i', 'o', 'n', '=']);
    let mine = p + session;
    let piece = seq![' '] + mine;
    assert(cookies@ =~= other + seq![';'] + piece);
    lemma_split_in_two(other, piece, ';');
    assert(!piece.contains(';')) by {
        if piece.contains(';') {
            let k = piece.index_of(';');
            if k > 12 {
                assert(session[k - 13] == ';');
            }
        }
    }
    lemma_no_split(piece, ';');
    let pieces = spec_split(cookies@, ';');
    assert(pieces =~= seq![other, piece]);
    lemma_trim_word(other);
    assert(is_word(mine)) by {
        assert forall|i: int| 0 <= i < mine.len() implies !spec_is_whitespace(
            #[trigger] mine[i],
        ) by {
            if i >= 12 {
                assert(mine[i] == session[i - 12]);
            }
        }
    }
    lemma_trim_word(mine);
    assert(mine.take(12) =~= p);
    assert(p.is_prefix_of(mine));
    let name = p.take(11);
    assert(mine =~= name + seq!['='] + session);
    assert(!name.contains('='));
    lemma_split_in_two(name, session, '=');
    lemma_no_split(session, '=');
    assert(spec_split(mine, '=') =~= seq![name, session]);
    assert(pieces.drop_first() =~= seq![piece]);
    assert(pieces.drop_first()[0] == piece);
    reveal_with_fuel(crate::web::first_session, 3);
    assert(crate::web::first_session(pieces) == Some(session));
}

/// The pages are closed exactly where the settings give a name and a password, which are
/// then asked for; otherwise what the environment gives is, and `admin` for want of that.
pub proof fn law_who_may_see_the_pages(
    user: Option<&str>,
    password: Option<&str>,
    env_user: Option<&str>,
    env_password: Option<&str>,
    login: WebLogin,
)
    requires
        call_ensures(web_login, (user, password, env_user, env_password), login),
    ensures
        login.required == (user is Some && password is Some),
        login.required ==> login.user@ == user->0@ && login.password@ == password->0@,
        !login.required && env_user is Some ==> login.user@ == env_user->0@,
        !login.required && env_user is None ==> login.user@ == "admin"@,
        !login.required && env_password is Some ==> login.password@ == env_password->0@,
        !login.required && env_password is None ==> login.password@ == "admin"@,
{
}

/// A request to read the settings anew succeeds exactly where there is a file to read and
/// the signal was sent.
pub proof fn law_reload_is_answered(configured: bool, sent: bool, answer: ReloadAnswer)
    requires
        call_ensures(answer_reload, (configured, sent), answer),
    ensures
        answer.success == (configured && sent),
        configured && sent ==> answer.status == 200,
        configured && !sent ==> answer.status == 500,
        !configured ==> answer.status == 503,
{
}

/// The headers of a request are read line by line, each by its name in lower case; the
/// host is found behind other headers.
pub proof fn law_headers_are_read(
    text: &str,
    method: Seq<char>,
    path: Seq<char>,
    version: Seq<char>,
    first: Seq<char>,
    value: Seq<char>,
    name: Seq<char>,
    host: Seq<char>,
    rest: Seq<char>,
    r: Option<HttpRequestInfo>,
)
    requires
        is_word(method) && is_word(path) && is_word(version),
        is_word(first) && !first.contains(':'),
        is_word(value),
        lowercase_of(first) != "host"@,
        is_word(name) && !name.contains(':'),
        lowercase_of(name) == "host"@,
        is_word(host) && !host.contains(':'),
        text@ == request_line(method, path, version) + crlf() + ((first + seq![':', ' '] + value)
            + crlf() + ((name + seq![':', ' '] + host) + crlf() + (crlf() + rest))),
        call_ensures(HttpRequestInfo::parse_text, (text,), r),
    ensures
        r is Some,
        r->0.host@ == host,
        r->0.headers@.contains_key(lowercase_of(first)),
        r->0.headers@[lowercase_of(first)]@ == value,
        r->0.headers@.contains_key("host"@),
        r->0.headers@["host"@]@ == host,
{
    let line = request_line(method, path, version);
    let a = first + seq![':', ' '] + value;
    let b = name + seq![':', ' '] + host;
    let none = Seq::<char>::empty();
    let t3 = crlf() + rest;
    let t2 = b + crlf() + t3;
    let t1 = a + crlf() + t2;
    lemma_request_line(method, path, version);
    lemma_first_line(line, true, t1);
    assert(text@ =~= line + seq!['\r', '\n'] + t1);
    lemma_header_line(first, value);
    lemma_header_line(name, host);
    lemma_first_line(a, true, t2);
    lemma_first_line(b, true, t3);
    assert(t3 =~= none + seq!['\r', '\n'] + rest);
    lemma_first_line(none, true, rest);
    let ls = spec_lines(text@);
    assert(ls =~= seq![line, a, b, none] + spec_lines(rest));
    let l1 = ls.drop_first();
    let l2 = l1.drop_first();
    let l3 = l2.drop_first();
    assert(l1[0] == a);
    assert(l2[0] == b);
    assert(l3[0] == none);
    let start = HeaderView { headers: Map::<Seq<char>, Seq<char>>::empty(), host: seq![] };
    let v1 = add_header(start, a);
    let v2 = add_header(v1, b);
    assert(v1.headers == start.headers.insert(lowercase_of(first), value));
    assert forall|j: int| 0 <= j < host.len() implies host[j] != ':' by {
        assert(host.contains(host[j]));
    }
    lemma_find(host, ':', host.len() as int);
    assert(host.take(host.len() as int) =~= host);
    assert(v2.host == host);
    assert(add_headers(v2, l3) == v2);
    assert(add_headers(v1, l2) == v2);
    assert(add_headers(start, l1) == v2);
    assert(request_headers(ls) == v2);
    let info = r->0;
    assert(text_values(info.headers@) == v2.headers);
    assert(v2.headers.contains_key(lowercase_of(first)));
    assert(v2.headers.contains_key("host"@));
    assert(text_values(info.headers@)[lowercase_of(first)] == info.headers@[lowercase_of(first)]@);
    assert(text_values(info.headers@)["host"@] == info.headers@["host"@]@);
}

proof fn lemma_header_line(name: Seq<char>, value: Seq<char>)
    requires
        is_word(name) && !name.contains(':'),
        is_word(value),
    ensures
        ({
            let l = name + seq![':', ' '] + value;
            &&& !l.contains('\n')
            &&& l.last() != '\r'
            &&& l.len() > 0
            &&& find(l, ':') == name.len()
            &&& spec_trim(l.take(name.len() as int)) == name
            &&& spec_trim(l.skip(name.len() as int + 1)) == value
        }),
{
    let l = name + seq![':', ' '] + value;
    lemma_no_line_feed(name);
    lemma_no_line_feed(value);
    if l.contains('\n') {
        let k = l.index_of('\n');
        if k < name.len() {
            assert(name[k] == '\n');
        } else if k >= name.len() + 2 {
            assert(value[k - name.len() - 2] == '\n');
        }
    }
    assert(l.last() == value.last());
    assert forall|j: int| 0 <= j < name.len() implies l[j] != ':' by {
        assert(name.contains(name[j]));
    }
    lemma_find(l, ':', name.len() as int);
    assert(l.take(name.len() as int) =~= name);
    assert(l.skip(name.len() as int + 1) =~= seq![' '] + value);
    lemma_trim_word(name);
    lemma_trim_word(value);
}

/// The bytes of a request for a domain that a proxy registered reach that proxy, by a work
/// connection of the run that registered it.
pub proof fn law_bytes_reach_the_proxy<C>(
    router: &mut HttpVhostRouter,
    name: String,
    domains: Vec<String>,
    config: Arc<ProxyConfig>,
    k: int,
    data: &[u8],
    info: HttpRequestInfo,
    owners: NameMap<String>,
    controls: ControlManager<C>,
    owner: &str,
    channel: Option<&C>,
    answer: VhostAnswer,
)
    requires
        call_ensures(HttpVhostRouter::register_proxy, (router, name, domains, config), ()),
        data@.len() > 0,
        call_ensures(HttpRequestInfo::parse, (data,), Some(info)),
        0 <= k < domains@.len(),
        info.host@ == domains@[k]@,
        owners@.contains_key(name@) ==> owner@ == owners@[name@]@,
        call_ensures(ControlManager::<C>::get_msg_tx, (&controls, owner), channel),
        call_ensures(
            answer_vhost_request::<C>,
            (data, &*final(router), &owners, &controls),
            answer,
        ),
    ensures
        owners@.contains_key(name@) && channel is Some ==> (answer matches VhostAnswer::Forward {
            proxy_name,
            run_id,
        } && proxy_name@ == name@ && run_id@ == owners@[name@]@),
        !(owners@.contains_key(name@) && channel is Some) ==> (
        answer matches VhostAnswer::Unreachable { proxy_name, .. } && proxy_name@ == name@),
{
    assert(text_values(owners@).dom() =~= owners@.dom());
    assert(texts(domains@)[k] == info.host@);
    assert(texts(domains@).contains(info.host@));
    let proxy = choose|proxy: Option<Seq<char>>| #[trigger]
        crate::vhost::routes_to(final(router).domains(), info.host@, proxy)
            && crate::vhost::answer_for(
            info.host@,
            proxy,
            text_values(owners@),
            controls.reachable(),
            answer,
        );
    crate::vhost::law_registered_domain_is_served(
        old(router).domains(),
        texts(domains@),
        name@,
        info.host@,
        proxy,
    );
}

} // verus!
