//! The status pages of a server: who may see them, and logging in to them.
use crate::codec::{
    base64_decode, base64_decoded, base64_encode, base64_len, base64_of, before_padding,
    is_base64_char, percent_decode, percent_decoded, utf8_text,
};
use crate::config::text_values;
use crate::control::ControlManager;
use crate::names::NameMap;
use crate::text::{
    find, lemma_find, lemma_find_bound, replace, same, spec_is_whitespace, spec_replace, spec_split,
    spec_trim, split, starts_with, texts, trim,
};
use vstd::prelude::*;
use vstd::string::*;
use vstd::utf8::{
    decode_utf8, encode_utf8, encode_utf8_decode_utf8, encode_utf8_valid_utf8, valid_utf8,
};

verus! {

/// The session among the pieces of a cookie header: the value of the first piece
/// that begins with `frp_session=`, up to an equals sign.
pub open spec fn first_session(pieces: Seq<Seq<char>>) -> Option<Seq<char>>
    decreases pieces.len(),
{
    if pieces.len() == 0 {
        None
    } else if "frp_session="@.is_prefix_of(spec_trim(pieces[0])) {
        Some(spec_split(spec_trim(pieces[0]), '=')[1])
    } else {
        first_session(pieces.drop_first())
    }
}

/// Whether decoded bytes are the name and the password, with a colon between them.
pub open spec fn names_user(decoded: Option<Seq<u8>>, user: Seq<char>, password: Seq<char>) -> bool {
    &&& decoded matches Some(b)
    &&& valid_utf8(b)
    &&& spec_split(decode_utf8(b), ':') == seq![user, password]
}

/// Whether a cookie header holds a session of this user.
pub open spec fn cookie_accepted(
    cookies: Seq<char>,
    user: Seq<char>,
    password: Seq<char>,
) -> bool {
    &&& first_session(spec_split(cookies, ';')) matches Some(session)
    &&& names_user(base64_decoded(session), user, password)
}

proof fn lemma_split_has_two(s: Seq<char>, c: char, i: int)
    requires
        0 <= i < s.len(),
        s[i] == c,
    ensures
        spec_split(s, c).len() >= 2,
        spec_split(s, c)[0] == s.take(find(s, c) as int),
        find(s, c) <= i,
{
    lemma_find_bound(s, c);
    let f = find(s, c) as int;
    if f > i {
        assert(s[i] != c);
    }
    let rest = s.skip(f + 1);
    assert(spec_split(rest, c).len() >= 1);
}

/// The session in a cookie header.
fn find_session(cookies: &str) -> (session: Option<String>)
    ensures
        match first_session(spec_split(cookies@, ';')) {
            Some(t) => session is Some && session->0@ == t,
            None => session is None,
        },
{
    let pieces: Vec<String> = split(cookies, ';');
    let ghost all = spec_split(cookies@, ';');
    assert(texts(pieces@) == all);
    let mut i: usize = 0;
    assert(all.skip(0) == all);
    while i < pieces.len()
        invariant
            i <= pieces.len(),
            texts(pieces@) == all,
            all == spec_split(cookies@, ';'),
            first_session(all) == first_session(all.skip(i as int)),
        decreases pieces.len() - i,
    {
        let ghost rest = all.skip(i as int);
        proof {
            assert(texts(pieces@)[i as int] == pieces[i as int]@);
            assert(rest[0] == pieces[i as int]@);
            assert(rest.drop_first() == all.skip(i + 1));
        }
        let piece: String = trim(pieces[i].as_str());
        if starts_with(piece.as_str(), "frp_session=") {
            let parts: Vec<String> = split(piece.as_str(), '=');
            proof {
                reveal_strlit("frp_session=");
                let p = "frp_session="@;
                assert(p.len() == 12 && p[11] == '=');
                assert(piece@[11] == piece@.take(12)[11]);
                lemma_split_has_two(piece@, '=', 11);
                assert(texts(parts@).len() == parts@.len());
                assert(texts(parts@)[1] == parts[1]@);
            }
            return Some(parts[1].clone());
        }
        i = i + 1;
    }
    assert(all.skip(i as int).len() == 0);
    None
}

/// Whether decoded bytes are the name and the password, with a colon between them.
pub fn credentials_match(decoded: Option<Vec<u8>>, user: &str, password: &str) -> (ok: bool)
    ensures
        ok == names_user(
            match decoded {
                Some(b) => Some(b@),
                None => None,
            },
            user@,
            password@,
        ),
{
    match decoded {
        None => false,
        Some(bytes) => match utf8_text(bytes) {
            None => false,
            Some(data) => {
                let parts: Vec<String> = split(data.as_str(), ':');
                proof {
                    assert(texts(parts@).len() == parts@.len());
                    if parts.len() == 2 {
                        assert(texts(parts@)[0] == parts[0]@);
                        assert(texts(parts@)[1] == parts[1]@);
                        if parts[0]@ == user@ && parts[1]@ == password@ {
                            assert(texts(parts@) =~= seq![user@, password@]);
                        }
                    }
                }
                parts.len() == 2 && same(parts[0].as_str(), user) && same(
                    parts[1].as_str(),
                    password,
                )
            },
        },
    }
}

/// Whether a cookie header holds a session of this user.
pub fn session_valid(cookies: &str, user: &str, password: &str) -> (ok: bool)
    ensures
        ok == cookie_accepted(cookies@, user@, password@),
{
    match find_session(cookies) {
        None => false,
        Some(session) => credentials_match(base64_decode(session.as_str()), user, password),
    }
}

/// Whether a page may be shown: the login page and the metrics to everyone, the
/// others to those with a session.
pub open spec fn page_shown(
    path: Seq<char>,
    cookies: Option<Seq<char>>,
    user: Seq<char>,
    password: Seq<char>,
) -> bool {
    ||| path == "/login"@
    ||| path == "/metrics"@
    ||| (cookies matches Some(c) && cookie_accepted(c, user, password))
}

/// Whether a page may be shown. A visitor that may not see it is sent to the login
/// page.
pub fn may_show_page(path: &str, cookies: Option<&str>, user: &str, password: &str) -> (ok: bool)
    ensures
        ok == page_shown(
            path@,
            match cookies {
                Some(c) => Some(c@),
                None => None,
            },
            user@,
            password@,
        ),
{
    if same(path, "/login") || same(path, "/metrics") {
        return true;
    }
    match cookies {
        Some(c) => session_valid(c, user, password),
        None => false,
    }
}

/// A form text with plus signs read as spaces.
pub open spec fn plus_as_space(s: Seq<char>) -> Seq<char> {
    spec_replace(s, '+', " "@)
}

/// A form text as it was typed; nothing where it cannot be decoded.
pub open spec fn form_text(s: Seq<char>) -> Seq<char> {
    match percent_decoded(plus_as_space(s)) {
        Some(t) => t,
        None => seq![],
    }
}

/// Whether a piece of a form is a field of this name.
pub open spec fn is_field(piece: Seq<char>, key: Seq<char>) -> bool {
    spec_split(piece, '=').len() >= 2 && plus_as_space(spec_split(piece, '=')[0]) == key
}

/// The value of the first field of this name among the pieces of a form, as it was
/// sent; nothing where there is no such field.
pub open spec fn field_sent(pieces: Seq<Seq<char>>, key: Seq<char>) -> Option<Seq<char>>
    decreases pieces.len(),
{
    if pieces.len() == 0 {
        None
    } else if is_field(pieces[0], key) {
        Some(spec_split(pieces[0], '=')[1])
    } else {
        field_sent(pieces.drop_first(), key)
    }
}

/// The value of a form field; empty where it is missing.
pub open spec fn field_value(body: Seq<char>, key: Seq<char>) -> Seq<char> {
    match field_sent(spec_split(body, '&'), key) {
        Some(v) => form_text(v),
        None => seq![],
    }
}

/// The value of a form field, as it was sent.
pub fn find_field(body: &str, key: &str) -> (v: Option<String>)
    ensures
        match field_sent(spec_split(body@, '&'), key@) {
            Some(t) => v is Some && v->0@ == t,
            None => v is None,
        },
{
    let pieces: Vec<String> = split(body, '&');
    let ghost all = spec_split(body@, '&');
    assert(texts(pieces@) == all);
    let mut i: usize = 0;
    assert(all.skip(0) == all);
    while i < pieces.len()
        invariant
            i <= pieces.len(),
            texts(pieces@) == all,
            all == spec_split(body@, '&'),
            field_sent(all, key@) == field_sent(all.skip(i as int), key@),
        decreases pieces.len() - i,
    {
        let ghost rest = all.skip(i as int);
        proof {
            assert(texts(pieces@)[i as int] == pieces[i as int]@);
            assert(rest[0] == pieces[i as int]@);
            assert(rest.drop_first() == all.skip(i + 1));
        }
        let parts: Vec<String> = split(pieces[i].as_str(), '=');
        assert(texts(parts@).len() == parts@.len());
        if parts.len() >= 2 {
            assert(texts(parts@)[0] == parts[0]@);
            assert(texts(parts@)[1] == parts[1]@);
            let name: String = replace(parts[0].as_str(), '+', " ");
            if same(name.as_str(), key) {
                return Some(parts[1].clone());
            }
        }
        i = i + 1;
    }
    assert(all.skip(i as int).len() == 0);
    None
}

/// The value of a form field; empty where it is missing or cannot be decoded.
pub fn form_field(body: &str, key: &str) -> (v: String)
    ensures
        v@ == field_value(body@, key@),
{
    match find_field(body, key) {
        None => String::new(),
        Some(sent) => {
            let spaced: String = replace(sent.as_str(), '+', " ");
            match percent_decode(spaced.as_str()) {
                Some(t) => t,
                None => String::new(),
            }
        },
    }
}

/// The text of a session: the name and the password, with a colon between them.
pub open spec fn session_text(user: Seq<char>, password: Seq<char>) -> Seq<char> {
    user + ":"@ + password
}

/// Whether a name and a password are short enough for a session: it has to fit in an
/// allocation.
pub open spec fn session_fits(user: Seq<char>, password: Seq<char>) -> bool {
    base64_len(encode_utf8(session_text(user, password)).len()) <= isize::MAX
}

proof fn lemma_no_split(s: Seq<char>, c: char)
    requires
        forall|i: int| 0 <= i < s.len() ==> s[i] != c,
    ensures
        spec_split(s, c) == seq![s],
        find(s, c) == s.len(),
{
    lemma_find(s, c, s.len() as int);
}

proof fn lemma_split_in_two(a: Seq<char>, b: Seq<char>, c: char)
    requires
        forall|i: int| 0 <= i < a.len() ==> a[i] != c,
    ensures
        spec_split(a + seq![c] + b, c) == seq![a] + spec_split(b, c),
{
    let s = a + seq![c] + b;
    lemma_find(s, c, a.len() as int);
    assert(s.take(a.len() as int) =~= a);
    assert(s.skip(a.len() as int + 1) =~= b);
}

proof fn lemma_trim_of_solid(s: Seq<char>)
    requires
        s.len() > 0,
        !spec_is_whitespace(s[0]),
        !spec_is_whitespace(s.last()),
    ensures
        spec_trim(s) == s,
{
}

proof fn lemma_session_is_accepted(user: Seq<char>, password: Seq<char>, session: Seq<char>)
    requires
        forall|i: int| 0 <= i < user.len() ==> user[i] != ':',
        forall|i: int| 0 <= i < password.len() ==> password[i] != ':',
        session.len() > 0,
        forall|i: int| 0 <= i < session.len() ==> is_base64_char(#[trigger] session[i]),
        base64_decoded(before_padding(session)) == Some(encode_utf8(session_text(user, password))),
    ensures
        cookie_accepted("frp_session="@ + session, user, password),
{
    reveal_strlit("frp_session=");
    reveal_strlit(":");
    let p = "frp_session="@;
    let cookie = p + session;
    assert(p.len() == 12);
    assert(p =~= seq!['f', 'r', 'p', '_', 's', 'e', 's', 's', 'i', 'o', 'n', '=']);
    assert forall|i: int| 0 <= i < cookie.len() implies cookie[i] != ';' by {
        if i >= 12 {
            assert(cookie[i] == session[i - 12]);
            assert(is_base64_char(session[i - 12]));
        }
    }
    lemma_no_split(cookie, ';');
    assert(cookie.last() == session.last());
    assert(is_base64_char(session[session.len() - 1]));
    lemma_trim_of_solid(cookie);
    assert(cookie.take(12) =~= p);
    assert(p.is_prefix_of(cookie));
    let name = p.take(11);
    assert(cookie =~= name + seq!['='] + session);
    lemma_split_in_two(name, session, '=');
    lemma_find_bound(session, '=');
    assert(spec_split(session, '=')[0] =~= before_padding(session)) by {
        if find(session, '=') == session.len() {
            assert(session.take(session.len() as int) =~= session);
        }
    }
    let pieces = spec_split(cookie, ';');
    assert(pieces[0] == cookie);
    assert(spec_split(cookie, '=')[1] == before_padding(session));
    assert(first_session(pieces) == Some(before_padding(session)));
    let t = session_text(user, password);
    encode_utf8_valid_utf8(t);
    encode_utf8_decode_utf8(t);
    assert(t =~= user + seq![':'] + password);
    lemma_split_in_two(user, password, ':');
    lemma_no_split(password, ':');
    assert(seq![user] + seq![password] =~= seq![user, password]);
}

/// A new session for a user. The status pages accept it as a cookie, unless the name
/// or the password holds a colon.
pub fn make_session(user: &str, password: &str) -> (session: String)
    requires
        session_fits(user@, password@),
    ensures
        session@ == base64_of(encode_utf8(session_text(user@, password@))),
        !user@.contains(':') && !password@.contains(':') ==> cookie_accepted(
            "frp_session="@ + session@,
            user@,
            password@,
        ),
{
    let mut plain: String = user.to_string();
    plain.append(":");
    plain.append(password);
    let session: String = base64_encode(plain.as_str().as_bytes());
    proof {
        reveal_strlit(":");
        if !user@.contains(':') && !password@.contains(':') {
            encode_utf8_decode_utf8(plain@);
            if encode_utf8(plain@).len() == 0 {
                assert(plain@.len() == 0) by {
                    reveal_with_fuel(decode_utf8, 1);
                }
                assert(plain@[user@.len() as int] == ':');
            }
            lemma_session_is_accepted(user@, password@, session@);
        }
    }
    session
}

/// What is answered to a login form.
#[derive(Debug)]
pub enum LoginAnswer {
    /// The visitor is sent to the status page with this cookie.
    Accepted { cookie: String },
    Unauthorized,
}

/// The cookie of a session.
pub open spec fn session_cookie(session: Seq<char>) -> Seq<char> {
    "frp_session="@ + session + "; HttpOnly; Path=/"@
}

/// Answers a login form: accepted where it holds the name and the password.
pub fn answer_login(body: &str, user: &str, password: &str) -> (answer: LoginAnswer)
    requires
        session_fits(user@, password@),
    ensures
        match answer {
            LoginAnswer::Accepted { cookie } => {
                &&& field_value(body@, "username"@) == user@
                &&& field_value(body@, "password"@) == password@
                &&& cookie@ == session_cookie(
                    base64_of(encode_utf8(session_text(user@, password@))),
                )
            },
            LoginAnswer::Unauthorized => !(field_value(body@, "username"@) == user@ && field_value(
                body@,
                "password"@,
            ) == password@),
        },
{
    let name: String = form_field(body, "username");
    let word: String = form_field(body, "password");
    if same(name.as_str(), user) && same(word.as_str(), password) {
        let session: String = make_session(user, password);
        let mut cookie: String = "frp_session=".to_string();
        cookie.append(session.as_str());
        cookie.append("; HttpOnly; Path=/");
        LoginAnswer::Accepted { cookie }
    } else {
        LoginAnswer::Unauthorized
    }
}

/// The client that a proxy belongs to, for the list of proxies; a dash where it is
/// not known.
pub open spec fn spec_proxy_client<T>(
    owners: Map<Seq<char>, Seq<char>>,
    controls: ControlManager<T>,
    name: Seq<char>,
) -> Seq<char> {
    if owners.contains_key(name) && controls.clients().contains_key(owners[name]) {
        controls.clients()[owners[name]].client_id@
    } else {
        "-"@
    }
}

/// The client that a proxy belongs to, for the list of proxies.
pub fn proxy_client<T>(owners: &NameMap<String>, controls: &ControlManager<T>, name: &str) -> (id:
    String)
    ensures
        id@ == spec_proxy_client(text_values(owners@), *controls, name@),
{
    match owners.get(name) {
        None => "-".to_string(),
        Some(run_id) => match controls.get_client(run_id.as_str()) {
            Some(info) => info.client_id.clone(),
            None => "-".to_string(),
        },
    }
}

/// Who may log in to the status pages.
#[derive(Debug)]
pub struct WebLogin {
    pub user: String,
    pub password: String,
    /// Whether the pages are shown only to those who logged in.
    pub required: bool,
}

fn given_or_admin(t: Option<&str>) -> (r: String)
    ensures
        r@ == (match t {
            Some(t) => t@,
            None => "admin"@,
        }),
{
    match t {
        Some(t) => t.to_string(),
        None => "admin".to_string(),
    }
}

/// Who may log in to the status pages: the user of the settings, where they give a
/// name and a password. Otherwise the pages are open, and the login page goes by
/// what the environment gives, else by `admin`.
pub fn web_login(
    user: Option<&str>,
    password: Option<&str>,
    env_user: Option<&str>,
    env_password: Option<&str>,
) -> (login: WebLogin)
    ensures
        login.required == (user is Some && password is Some),
        login.user@ == (if login.required {
            user->0@
        } else {
            match env_user {
                Some(t) => t@,
                None => "admin"@,
            }
        }),
        login.password@ == (if login.required {
            password->0@
        } else {
            match env_password {
                Some(t) => t@,
                None => "admin"@,
            }
        }),
{
    match (user, password) {
        (Some(user), Some(password)) => WebLogin {
            user: user.to_string(),
            password: password.to_string(),
            required: true,
        },
        _ => WebLogin {
            user: given_or_admin(env_user),
            password: given_or_admin(env_password),
            required: false,
        },
    }
}

/// What is answered to a request to read the settings anew.
#[derive(Debug)]
pub struct ReloadAnswer {
    pub status: u16,
    pub success: bool,
    /// What happened, or what went wrong.
    pub text: String,
}

/// What is answered to a request to read the settings anew: it needs a file to read
/// from, and a server that listens to the signal.
pub fn answer_reload(configured: bool, sent: bool) -> (a: ReloadAnswer)
    ensures
        a.success == (configured && sent),
        a.status == (if !configured {
            503
        } else if sent {
            200
        } else {
            500int
        }),
        a.text@ == (if !configured {
            "Hot reload not configured (config_path not set)"@
        } else if sent {
            "Reload signal sent"@
        } else {
            "Failed to send reload signal"@
        }),
{
    if !configured {
        ReloadAnswer {
            status: 503,
            success: false,
            text: "Hot reload not configured (config_path not set)".to_string(),
        }
    } else if sent {
        ReloadAnswer { status: 200, success: true, text: "Reload signal sent".to_string() }
    } else {
        ReloadAnswer {
            status: 500,
            success: false,
            text: "Failed to send reload signal".to_string(),
        }
    }
}

/// A page other than the login page and the metrics is not shown without a cookie.
pub proof fn law_no_cookie_no_page(path: Seq<char>, user: Seq<char>, password: Seq<char>)
    requires
        path != "/login"@,
        path != "/metrics"@,
    ensures
        !page_shown(path, None, user, password),
{
}

} // verus!
