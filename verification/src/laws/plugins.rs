//! Plugins: what the settings ask for is what they do.
use crate::codec::lossy_text_of;
use crate::config::PluginConfig;
use crate::laws::http::{crlf, request_line};
use crate::laws::text::{is_word, lemma_first_line, lemma_three_words};
use crate::plugin::{
    is_under, parse_socks_request, AnyPlugin, BuiltinPlugin, BuiltinPluginFactory, FileLookup,
    HttpProxyPlugin, Plugin, PluginAction, PluginError, PluginEvent, PluginFactory, PluginManager,
    StaticFilePlugin,
};
use crate::server::TlsSource;
use crate::text::{decimal, lemma_find, spec_is_whitespace, spec_lines};
use vstd::prelude::*;
use vstd::string::*;

verus! {

/// The plugin for Unix domain sockets needs the path of one, connects to it and carries
/// bytes.
pub proof fn law_unix_socket_plugin<F: PluginFactory>(
    manager: PluginManager<F>,
    config: PluginConfig,
    made: Result<AnyPlugin<F::Made>, PluginError>,
    first: PluginAction,
    second: PluginAction,
)
    requires
        call_ensures(PluginManager::<F>::new, (), manager),
        config.kind@ == "unix_domain_socket"@,
        call_ensures(PluginManager::<F>::create_plugin, (&manager, &config), made),
        made is Ok ==> call_ensures(
            <AnyPlugin<F::Made> as Plugin>::handle,
            (&made->Ok_0, PluginEvent::Accepted),
            first,
        ),
        made is Ok ==> call_ensures(
            <AnyPlugin<F::Made> as Plugin>::handle,
            (&made->Ok_0, PluginEvent::Connected),
            second,
        ),
    ensures
        made is Ok == config.unix_path is Some,
        made is Ok ==> (first matches PluginAction::ConnectUnix { path } && path@
            == config.unix_path->0@) && second is Bridge,
{
    if made is Ok {
        let p = made->Ok_0->Builtin_0;
        assert(p.reacts(PluginEvent::Accepted, first));
        assert(p.reacts(PluginEvent::Connected, second));
    }
}

/// The plugins that end TLS need the address to connect to, and a certificate with its key
/// or neither. They encrypt with that certificate, or with the built-in one, and connect
/// to that address; `https2https` encrypts the connection to it, and `https2http` and
/// `tls2raw` do not.
pub proof fn law_tls_plugins<F: PluginFactory>(
    manager: PluginManager<F>,
    config: PluginConfig,
    made: Result<AnyPlugin<F::Made>, PluginError>,
    first: PluginAction,
    second: PluginAction,
    third: PluginAction,
)
    requires
        call_ensures(PluginManager::<F>::new, (), manager),
        config.kind@ == "https2http"@ || config.kind@ == "tls2raw"@ || config.kind@
            == "https2https"@,
        call_ensures(PluginManager::<F>::create_plugin, (&manager, &config), made),
        made is Ok ==> call_ensures(
            <AnyPlugin<F::Made> as Plugin>::handle,
            (&made->Ok_0, PluginEvent::Accepted),
            first,
        ),
        made is Ok ==> call_ensures(
            <AnyPlugin<F::Made> as Plugin>::handle,
            (&made->Ok_0, PluginEvent::Secured),
            second,
        ),
        made is Ok ==> call_ensures(
            <AnyPlugin<F::Made> as Plugin>::handle,
            (&made->Ok_0, PluginEvent::Connected),
            third,
        ),
    ensures
        made is Ok == (config.local_addr is Some && (config.crt_path is Some
            == config.key_path is Some)),
        made is Ok && config.crt_path is Some ==> (first matches PluginAction::AcceptTls {
            certificate: TlsSource::Files { cert_file, key_file },
        } && cert_file@ == config.crt_path->0@ && key_file@ == config.key_path->0@),
        made is Ok && config.crt_path is None ==> (first matches PluginAction::AcceptTls {
            certificate: TlsSource::Builtin,
        }),
        made is Ok ==> (second matches PluginAction::Connect { target } && target@
            == config.local_addr->0@),
        made is Ok && config.kind@ == "https2https"@ ==> third is SecureTarget,
        made is Ok && config.kind@ != "https2https"@ ==> third is Bridge,
{
    reveal_strlit("unix_domain_socket");
    reveal_strlit("static_file");
    reveal_strlit("http_proxy");
    reveal_strlit("socks5");
    reveal_strlit("https2http");
    reveal_strlit("tls2raw");
    reveal_strlit("https2https");
    assert("http_proxy"@[4] != "https2http"@[4]);
    assert("static_file"@[0] != "https2https"@[0]);
    assert("https2https"@.len() == 11 && "https2http"@.len() == 10 && "tls2raw"@.len() == 7);
    assert("unix_domain_socket"@.len() == 18 && "static_file"@.len() == 11);
    assert("http_proxy"@.len() == 10 && "socks5"@.len() == 6);
    if made is Ok {
        let p = made->Ok_0->Builtin_0;
        assert(p.reacts(PluginEvent::Accepted, first));
        assert(p.reacts(PluginEvent::Secured, second));
        assert(p.reacts(PluginEvent::Connected, third));
    }
}

proof fn lemma_words_of_request(
    text: Seq<char>,
    method: Seq<char>,
    path: Seq<char>,
    version: Seq<char>,
    rest: Seq<char>,
)
    requires
        is_word(method),
        is_word(path),
        is_word(version),
        text == request_line(method, path, version) + crlf() + rest,
    ensures
        crate::plugin::request_words(text) == Some(seq![method, path, version]),
{
    let line = request_line(method, path, version);
    lemma_three_words(method, path, version);
    assert(!line.contains('\n')) by {
        if line.contains('\n') {
            let k = line.index_of('\n');
            let a = method.len();
            let b = a + 1 + path.len();
            if k < a {
                assert(!spec_is_whitespace(method[k]));
            } else if k > a && k < b {
                assert(!spec_is_whitespace(path[k - a - 1]));
            } else if k > b {
                assert(!spec_is_whitespace(version[k - b - 1]));
            }
        }
    }
    assert(line.last() == version.last());
    assert(!spec_is_whitespace(version[version.len() - 1]));
    assert(text =~= line + seq!['\r', '\n'] + rest);
    lemma_first_line(line, true, rest);
    assert(spec_lines(text)[0] == line);
}

/// The plugin for static files needs a directory. It looks for the file that is asked for
/// below it, where the request is to read, and refuses others.
pub proof fn law_static_file_plugin<F: PluginFactory>(
    manager: PluginManager<F>,
    config: PluginConfig,
    made: Result<AnyPlugin<F::Made>, PluginError>,
    data: Vec<u8>,
    method: Seq<char>,
    path: Seq<char>,
    version: Seq<char>,
    rest: Seq<char>,
    action: PluginAction,
)
    requires
        call_ensures(PluginManager::<F>::new, (), manager),
        config.kind@ == "static_file"@,
        call_ensures(PluginManager::<F>::create_plugin, (&manager, &config), made),
        is_word(method) && is_word(path) && is_word(version),
        lossy_text_of(data@) == request_line(method, path, version) + crlf() + rest,
        !path.contains('?'),
        path.len() > 1,
        config.strip_prefix is None,
        made is Ok ==> call_ensures(
            <AnyPlugin<F::Made> as Plugin>::handle,
            (&made->Ok_0, PluginEvent::FirstData(data)),
            action,
        ),
    ensures
        made is Ok == config.local_path is Some,
        made is Ok && method == "GET"@ ==> (action matches PluginAction::FindFile {
            path: p,
            base,
        } && p@ == config.local_path->0@ + path && base@ == config.local_path->0@),
        made is Ok && method != "GET"@ ==> action is Respond,
{
    reveal_strlit("unix_domain_socket");
    reveal_strlit("static_file");
    reveal_strlit("/");
    assert("unix_domain_socket"@.len() != "static_file"@.len());
    if made is Ok {
        let p = made->Ok_0->Builtin_0;
        assert(p.reacts(PluginEvent::FirstData(data), action));
        lemma_words_of_request(lossy_text_of(data@), method, path, version, rest);
        assert forall|j: int| 0 <= j < path.len() implies path[j] != '?' by {
            assert(path.contains(path[j]));
        }
        lemma_find(path, '?', path.len() as int);
        assert(path.take(path.len() as int) =~= path);
        assert("/"@.len() == 1);
    }
}

/// The file of a path is below the directory: what follows a question mark does not
/// matter, the root is the directory itself, and a prefix that is to be left out is, with
/// its leading slash or without.
pub proof fn law_file_of_a_path(
    config: PluginConfig,
    plugin: StaticFilePlugin,
    path: &str,
    plain: Seq<char>,
    query: Seq<char>,
    file: String,
)
    requires
        config.local_path is Some,
        call_ensures(StaticFilePlugin::new, (&config,), Ok(plugin)),
        !plain.contains('?'),
        query.len() > 0 ==> query[0] == '?',
        path@ == plain + query,
        call_ensures(StaticFilePlugin::build_file_path, (&plugin, path), file),
    ensures
        ({
            let base = config.local_path->0@;
            &&& config.strip_prefix is None && plain == seq!['/'] ==> file@ == base
            &&& config.strip_prefix is None && plain != seq!['/'] ==> file@ == base + plain
            &&& config.strip_prefix matches Some(x) ==> {
                let prefix = if x@.len() > 0 && x@[0] == '/' {
                    x@
                } else {
                    seq!['/'] + x@
                };
                &&& forall|tail: Seq<char>|
                    plain == #[trigger] (prefix + tail) && tail != seq!['/'] ==> file@ == base
                        + tail
                &&& !prefix.is_prefix_of(plain) && plain != seq!['/'] ==> file@ == base + plain
            }
        }),
{
    reveal_strlit("/");
    assert("/"@ =~= seq!['/']);
    assert forall|j: int| 0 <= j < plain.len() implies path@[j] != '?' by {
        assert(plain.contains(plain[j]));
    }
    lemma_find(path@, '?', plain.len() as int);
    assert(path@.take(plain.len() as int) =~= plain);
    if config.strip_prefix is Some {
        let x = config.strip_prefix->0;
        let prefix = if x@.len() > 0 && x@[0] == '/' {
            x@
        } else {
            seq!['/'] + x@
        };
        if x@.len() > 0 && x@[0] == '/' {
            assert(x@.take(1) =~= "/"@);
        } else if "/"@.is_prefix_of(x@) {
            assert(x@.take(1)[0] == x@[0]);
            assert("/"@[0] == '/');
        }
        assert(crate::plugin::path_prefix(x@) =~= prefix);
        assert forall|tail: Seq<char>|
            plain == #[trigger] (prefix + tail) && tail != seq!['/'] implies file@
            == config.local_path->0@ + tail by {
            assert(plain.take(prefix.len() as int) =~= prefix);
            assert(plain.skip(prefix.len() as int) =~= tail);
        }
    }
}

/// A file is read exactly where it is there, is a file and lies below the directory that
/// is served. What lies outside is forbidden; what is not there is not found.
pub proof fn law_only_files_below_are_read(
    path: Vec<Vec<u8>>,
    base: Vec<Vec<u8>>,
    exists_there: bool,
    is_file: bool,
    under: bool,
    action: PluginAction,
    nowhere: PluginAction,
)
    requires
        call_ensures(is_under, (&base, &path), under),
        call_ensures(
            StaticFilePlugin::serve_file,
            (&FileLookup::Resolved { path, base, exists: exists_there, is_file },),
            action,
        ),
        call_ensures(StaticFilePlugin::serve_file, (&FileLookup::Unresolved,), nowhere),
    ensures
        under == (base@.len() <= path@.len() && forall|i: int|
            0 <= i < base@.len() ==> (#[trigger] base@[i])@ == path@[i]@),
        action is ReadFile == (under && exists_there && is_file),
        !under ==> (action matches PluginAction::Respond { text }
            && "HTTP/1.1 403 Forbidden\r\n"@.is_prefix_of(text@)),
        under && !exists_there ==> (action matches PluginAction::Respond { text }
            && "HTTP/1.1 404 Not Found\r\n"@.is_prefix_of(text@)),
        under && exists_there && !is_file ==> (action matches PluginAction::Respond { text }
            && "HTTP/1.1 403 Forbidden\r\n"@.is_prefix_of(text@)),
        nowhere matches PluginAction::Respond { text } && "HTTP/1.1 404 Not Found\r\n"@.is_prefix_of(
            text@,
        ),
{
    reveal_strlit("HTTP/1.1 403 Forbidden\r\n");
    reveal_strlit("HTTP/1.1 404 Not Found\r\n");
    reveal_strlit("HTTP/1.1 404 Not Found\r\nContent-Type: text/plain\r\n\r\nFile not found");
    reveal_strlit("HTTP/1.1 403 Forbidden\r\nContent-Type: text/plain\r\n\r\nAccess forbidden");
    reveal_strlit("HTTP/1.1 403 Forbidden\r\nContent-Type: text/plain\r\n\r\nForbidden");
    assert(crate::plugin::not_found().take(24) =~= "HTTP/1.1 404 Not Found\r\n"@);
    assert(crate::plugin::access_forbidden().take(24) =~= "HTTP/1.1 403 Forbidden\r\n"@);
    assert(crate::plugin::forbidden().take(24) =~= "HTTP/1.1 403 Forbidden\r\n"@);
    assert("HTTP/1.1 404 Not Found\r\n"@.is_prefix_of(crate::plugin::not_found()));
    assert("HTTP/1.1 403 Forbidden\r\n"@.is_prefix_of(crate::plugin::access_forbidden()));
    assert("HTTP/1.1 403 Forbidden\r\n"@.is_prefix_of(crate::plugin::forbidden()));
}

/// A file is sent with its length.
pub proof fn law_file_is_sent_with_its_length(
    plugin: StaticFilePlugin,
    len: usize,
    action: PluginAction,
)
    requires
        call_ensures(
            <StaticFilePlugin as Plugin>::handle,
            (&plugin, PluginEvent::FileRead { len }),
            action,
        ),
    ensures
        action matches PluginAction::SendFile { header } && header@
            == "HTTP/1.1 200 OK\r\nContent-Type: application/octet-stream\r\nContent-Length: "@
            + decimal(len as nat) + "\r\n\r\n"@,
{
}

/// The plugin for tunnels connects to the target of a `CONNECT` request, tells the other
/// end that it did, and fails for any other request.
pub proof fn law_http_proxy_plugin<F: PluginFactory>(
    manager: PluginManager<F>,
    config: PluginConfig,
    made: Result<AnyPlugin<F::Made>, PluginError>,
    data: Vec<u8>,
    method: Seq<char>,
    target: Seq<char>,
    version: Seq<char>,
    rest: Seq<char>,
    action: PluginAction,
    connected: PluginAction,
)
    requires
        call_ensures(PluginManager::<F>::new, (), manager),
        config.kind@ == "http_proxy"@,
        call_ensures(PluginManager::<F>::create_plugin, (&manager, &config), made),
        is_word(method) && is_word(target) && is_word(version),
        lossy_text_of(data@) == request_line(method, target, version) + crlf() + rest,
        made is Ok ==> call_ensures(
            <AnyPlugin<F::Made> as Plugin>::handle,
            (&made->Ok_0, PluginEvent::FirstData(data)),
            action,
        ),
        made is Ok ==> call_ensures(
            <AnyPlugin<F::Made> as Plugin>::handle,
            (&made->Ok_0, PluginEvent::Connected),
            connected,
        ),
    ensures
        made is Ok,
        method == "CONNECT"@ ==> (action matches PluginAction::ConnectAddr { target: t } && t@
            == target),
        method != "CONNECT"@ ==> action is Fail,
        connected matches PluginAction::RespondAndBridge { text } && text@
            == "HTTP/1.1 200 Connection Established\r\n\r\n"@,
{
    reveal_strlit("unix_domain_socket");
    reveal_strlit("static_file");
    reveal_strlit("http_proxy");
    assert("unix_domain_socket"@.len() != "http_proxy"@.len());
    assert("static_file"@.len() != "http_proxy"@.len());
    let p = made->Ok_0->Builtin_0;
    assert(p.reacts(PluginEvent::FirstData(data), action));
    assert(p.reacts(PluginEvent::Connected, connected));
    lemma_words_of_request(lossy_text_of(data@), method, target, version, rest);
}

/// The SOCKS5 plugin greets those that speak version 5 and asks for no password, and tells
/// the other end when it is connected.
pub proof fn law_socks5_plugin<F: PluginFactory>(
    manager: PluginManager<F>,
    config: PluginConfig,
    made: Result<AnyPlugin<F::Made>, PluginError>,
    hello: Vec<u8>,
    request: Vec<u8>,
    greeted: PluginAction,
    asked: PluginAction,
    parsed: PluginAction,
    connected: PluginAction,
)
    requires
        call_ensures(PluginManager::<F>::new, (), manager),
        config.kind@ == "socks5"@,
        call_ensures(PluginManager::<F>::create_plugin, (&manager, &config), made),
        made is Ok ==> call_ensures(
            <AnyPlugin<F::Made> as Plugin>::handle,
            (&made->Ok_0, PluginEvent::FirstData(hello)),
            greeted,
        ),
        made is Ok ==> call_ensures(
            <AnyPlugin<F::Made> as Plugin>::handle,
            (&made->Ok_0, PluginEvent::NextData(request)),
            asked,
        ),
        call_ensures(parse_socks_request, (&request,), parsed),
        made is Ok ==> call_ensures(
            <AnyPlugin<F::Made> as Plugin>::handle,
            (&made->Ok_0, PluginEvent::Connected),
            connected,
        ),
    ensures
        made is Ok,
        hello@.len() >= 2 && hello@[0] == 5 ==> (greeted matches PluginAction::SendAndRead {
            data,
            ..
        } && data@ == seq![5u8, 0u8]),
        hello@.len() < 2 || hello@[0] != 5 ==> greeted is Fail,
        parsed matches PluginAction::Connect { target } ==> (asked matches PluginAction::Connect {
            target: t,
        } && t@ == target@),
        parsed is Fail ==> asked is Fail,
        connected matches PluginAction::SendAndBridge { data } && data@.len() == 10 && data@[0] == 5
            && data@[1] == 0 && data@[3] == 1,
{
    reveal_strlit("unix_domain_socket");
    reveal_strlit("static_file");
    reveal_strlit("http_proxy");
    reveal_strlit("socks5");
    assert("unix_domain_socket"@.len() != "socks5"@.len());
    assert("static_file"@.len() != "socks5"@.len());
    assert("http_proxy"@.len() != "socks5"@.len());
    let p = made->Ok_0->Builtin_0;
    assert(p.reacts(PluginEvent::FirstData(hello), greeted));
    assert(p.reacts(PluginEvent::NextData(request), asked));
    assert(p.reacts(PluginEvent::Connected, connected));
}

/// A SOCKS5 request to connect names an address of four bytes or a domain, and a port of
/// two bytes, the higher first; that is where it is connected to.
pub proof fn law_socks5_request(
    a: u8,
    b: u8,
    c: u8,
    d: u8,
    port: u16,
    name: Seq<u8>,
    reserved: u8,
    to_addr: Vec<u8>,
    to_name: Vec<u8>,
    by_addr: PluginAction,
    by_name: PluginAction,
)
    requires
        to_addr@ == seq![
            5u8,
            1u8,
            reserved,
            1u8,
            a,
            b,
            c,
            d,
            (port / 256) as u8,
            (port % 256) as u8,
        ],
        name.len() < 256,
        to_name@ == seq![5u8, 1u8, reserved, 3u8, name.len() as u8] + name + seq![
            (port / 256) as u8,
            (port % 256) as u8,
        ],
        call_ensures(parse_socks_request, (&to_addr,), by_addr),
        call_ensures(parse_socks_request, (&to_name,), by_name),
    ensures
        by_addr matches PluginAction::Connect { target } && target@ == decimal(a as nat) + "."@
            + decimal(b as nat) + "."@ + decimal(c as nat) + "."@ + decimal(d as nat) + ":"@
            + decimal(port as nat),
        by_name matches PluginAction::Connect { target } && target@ == lossy_text_of(name) + ":"@
            + decimal(port as nat),
{
    let n = name.len() as int;
    let s = to_name@;
    assert(s.len() == 7 + n);
    assert(s[4] == n);
    assert(s.subrange(5, 5 + n) =~= name);
    assert(s[5 + n] == (port / 256) as u8);
    assert(s[6 + n] == (port % 256) as u8);
    let hi = (port / 256) as u8;
    let lo = (port % 256) as u8;
    assert(crate::plugin::port_of(hi, lo) == port);
}

/// Other SOCKS5 requests fail: of another version, to do something else than to connect,
/// to an address of another kind, and those that are cut short.
pub proof fn law_socks5_refuses(request: Vec<u8>, action: PluginAction)
    requires
        call_ensures(parse_socks_request, (&request,), action),
    ensures
        ({
            let b = request@;
            b.len() < 4 || b[0] != 5 || b[1] != 1 || (b[3] != 1 && b[3] != 3) || (b[3] == 1
                && b.len() < 10) || (b[3] == 3 && (b.len() < 5 || b.len() < 7 + b[4]))
        }) == (action is Fail),
{
}

/// A kind of plugin that nobody registered is refused by its name, and one that was taken
/// away is too.
pub proof fn law_unknown_plugins_are_refused<F: PluginFactory>(
    manager: &mut PluginManager<F>,
    name: &str,
    config: PluginConfig,
    made: Result<AnyPlugin<F::Made>, PluginError>,
)
    requires
        call_ensures(PluginManager::<F>::unregister_plugin, (manager, name), ()),
        config.kind@ == name@,
        call_ensures(PluginManager::<F>::create_plugin, (&*final(manager), &config), made),
    ensures
        made matches Err(PluginError::InvalidInput(t)) && t@ == "unsupported plugin type: "@
            + name@,
{
}

/// A kind of plugin that was registered is made by its own factory, also where a built-in
/// one had its name.
pub proof fn law_registered_plugins_are_made<F: PluginFactory>(
    manager: &mut PluginManager<F>,
    name: &str,
    factory: F,
    config: PluginConfig,
    made: Result<AnyPlugin<F::Made>, PluginError>,
)
    requires
        call_ensures(PluginManager::<F>::register_plugin, (manager, name, factory), ()),
        config.kind@ == name@,
        call_ensures(PluginManager::<F>::create_plugin, (&*final(manager), &config), made),
    ensures
        match made {
            Ok(AnyPlugin::Custom(p)) => factory.makes(config, Ok(p)),
            Ok(_) => false,
            Err(e) => factory.makes(config, Err(e)),
        },
{
}

/// A request without a line is no request for a file and none for a tunnel.
pub proof fn law_empty_requests_fail(
    files: StaticFilePlugin,
    tunnels: HttpProxyPlugin,
    text: &str,
    a: PluginAction,
    b: PluginAction,
)
    requires
        text@.len() == 0,
        call_ensures(StaticFilePlugin::handle_http_request, (&files, text), a),
        call_ensures(HttpProxyPlugin::handle_http_proxy_request, (&tunnels, text), b),
    ensures
        a matches PluginAction::Fail(PluginError::InvalidData(t)) && t@ == "invalid HTTP request"@,
        b matches PluginAction::Fail(PluginError::InvalidData(t)) && t@ == "invalid HTTP request"@,
{
}

/// A built-in factory makes what the manager makes of the same settings.
pub proof fn law_factories_make_the_builtin_plugins<F: PluginFactory>(
    manager: PluginManager<F>,
    config: PluginConfig,
    factory: BuiltinPluginFactory,
    made: Result<AnyPlugin<F::Made>, PluginError>,
    direct: Result<BuiltinPlugin, PluginError>,
    a: PluginAction,
)
    requires
        call_ensures(PluginManager::<F>::new, (), manager),
        config.kind@ == "unix_domain_socket"@,
        factory.kind is UnixDomainSocket,
        call_ensures(PluginManager::<F>::create_plugin, (&manager, &config), made),
        call_ensures(<BuiltinPluginFactory as PluginFactory>::create, (&factory, &config), direct),
        direct is Ok ==> call_ensures(
            <BuiltinPlugin as Plugin>::handle,
            (&direct->Ok_0, PluginEvent::Accepted),
            a,
        ),
    ensures
        made is Ok == direct is Ok,
        direct is Ok ==> (a matches PluginAction::ConnectUnix { path } && path@
            == config.unix_path->0@),
{
    if direct is Ok {
        assert(direct->Ok_0.reacts(PluginEvent::Accepted, a));
    }
}

} // verus!
