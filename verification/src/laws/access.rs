//! Who is let in: logins, work connections and visitors of secret proxies.
use crate::auth::{
    admits_visitor, can_sign, config_hashable, constant_time_compare, generate_visitor_sign,
    generate_work_conn_sign_key, sign_work_conn, AuthError, AuthManager, AuthSetupError,
    OidcAuthVerifier, TokenAuthVerifier, TokenClaims,
};
use crate::client::ClientError;
use crate::codec::{
    base64_of, base64url_decoded, hashable, hmac_sha256_of, json_int_of, json_list_of, json_text_of,
    sha256_of,
};
use crate::config::{text_values, AuthConfig, ClientConfig, OidcConfig, ServerConfig, VisitorConfig};
use crate::control::{ClientInfo, ControlManager};
use crate::link::{
    check_login_answer, check_start_answer, login_message, stcp_visitor_message, work_conn_message,
    LoggedIn, Visitor,
};
use crate::message::{
    LoginMsg, LoginRespMsg, Message, NewWorkConnMsg, PingMsg, PongMsg, StartWorkConnMsg,
    StcpVisitorMsg,
};
use crate::proxies::ServerProxyManager;
use crate::server::{make_auth_manager, Server, ServerError};
use crate::session::{Control, ControlAction, ControlStep, LoginRefusal, ServerState};
use crate::text::{find, lemma_find, lemma_find_bound, signed_decimal, spec_split};
use crate::work::{admit_work_conn, check_work_conn, StcpBridgeManager, WorkConnRefusal};
use vstd::prelude::*;
use vstd::string::*;
use vstd::utf8::encode_utf8;

verus! {

/// With the method `token` exactly the token of the settings is accepted, for logins and
/// for work connections, whoever brings it and at any time.
pub proof fn law_token_decides(
    config: AuthConfig,
    manager: AuthManager,
    user: &str,
    token: &str,
    now: i64,
    login: Result<(), AuthError>,
    work: Result<(), AuthError>,
)
    requires
        config_hashable(config),
        hashable(token@),
        call_ensures(AuthManager::new, (&config,), Ok(manager)),
        config.method@ == "token"@,
        call_ensures(AuthManager::verify_login, (&manager, user, token, now), login),
        call_ensures(AuthManager::verify_work_conn, (&manager, user, token, now), work),
    ensures
        config.token is Some,
        login is Ok == (token@ == config.token->0@),
        work is Ok == (token@ == config.token->0@),
        login is Err ==> login->Err_0 is InvalidToken,
        work is Err ==> work->Err_0 is InvalidToken,
{
    reveal_strlit("token");
    reveal_strlit("oidc");
    assert("token"@.len() != "oidc"@.len());
}

/// There are two ways to log in, each with settings that it needs; what is missing is
/// named.
pub proof fn law_ways_to_log_in(config: AuthConfig, made: Result<AuthManager, AuthSetupError>)
    requires
        config_hashable(config),
        call_ensures(AuthManager::new, (&config,), made),
    ensures
        config.method@ == "token"@ ==> made is Ok == config.token is Some && (made is Err ==> made
            == Err::<AuthManager, AuthSetupError>(AuthSetupError::TokenRequired)),
        config.method@ == "oidc"@ ==> made is Ok == config.oidc is Some && (made is Err ==> made
            == Err::<AuthManager, AuthSetupError>(AuthSetupError::OidcConfigRequired)),
        config.method@ != "token"@ && config.method@ != "oidc"@ ==> (made matches Err(
            AuthSetupError::UnsupportedMethod(m),
        ) && m@ == config.method@),
{
    reveal_strlit("token");
    reveal_strlit("oidc");
    assert("token"@.len() != "oidc"@.len());
}

/// Claims are accepted exactly where they name the algorithm HS256, the issuer and the
/// audience, alone or in a list, where they have not expired, and where they were not
/// issued after `now`.
pub proof fn law_claims_are_checked(
    claims: TokenClaims,
    issuer: &str,
    audience: &str,
    now: i64,
    ok: bool,
)
    requires
        call_ensures(TokenClaims::check, (&claims, issuer, audience, now), ok),
    ensures
        ok == ({
            &&& claims.alg is Some && claims.alg->0@ == "HS256"@
            &&& claims.iss is Some && claims.iss->0@ == issuer@
            &&& (claims.aud is Some && claims.aud->0@ == audience@) || (claims.aud_list is Some
                && exists|i: int|
                #![trigger claims.aud_list->0@[i]]
                0 <= i < claims.aud_list->0@.len() && (claims.aud_list->0@[i] is Some
                    && claims.aud_list->0@[i]->0@ == audience@))
            &&& claims.exp is Some && now < claims.exp->0
            &&& claims.iat is Some ==> claims.iat->0 <= now
        }),
{
    if let Some(list) = claims.aud_list {
        let items = crate::codec::optional_texts(list@);
        assert(items.len() == list@.len());
        assert forall|i: int| 0 <= i < items.len() implies #[trigger] items[i] == (
        match list@[i] {
            Some(t) => Some(t@),
            None => None,
        }) by {}
        if items.contains(Some(audience@)) {
            let i = items.index_of(Some(audience@));
            assert(items[i] == Some(audience@));
            assert(list@[i] is Some);
        }
        assert forall|i: int|
            #![trigger list@[i]]
            0 <= i < list@.len() && list@[i] is Some && list@[i]->0@
                == audience@ implies items.contains(Some(audience@)) by {
            assert(items[i] == Some(audience@));
        }
    }
}

proof fn lemma_three_parts(token: Seq<char>, a: Seq<char>, b: Seq<char>, c: Seq<char>)
    requires
        token == a + seq!['.'] + b + seq!['.'] + c,
        !a.contains('.'),
        !b.contains('.'),
        !c.contains('.'),
    ensures
        spec_split(token, '.') == seq![a, b, c],
{
    let rest = b + seq!['.'] + c;
    assert forall|j: int| 0 <= j < a.len() implies token[j] != '.' by {
        assert(token[j] == a[j]);
        assert(a.contains(a[j]));
    }
    lemma_find(token, '.', a.len() as int);
    assert(token.take(a.len() as int) =~= a);
    assert(token.skip(a.len() as int + 1) =~= rest);
    assert forall|j: int| 0 <= j < b.len() implies rest[j] != '.' by {
        assert(rest[j] == b[j]);
        assert(b.contains(b[j]));
    }
    lemma_find(rest, '.', b.len() as int);
    assert(rest.take(b.len() as int) =~= b);
    assert(rest.skip(b.len() as int + 1) =~= c);
    assert forall|j: int| 0 <= j < c.len() implies c[j] != '.' by {
        assert(c.contains(c[j]));
    }
    lemma_find(c, '.', c.len() as int);
    assert(spec_split(c, '.') =~= seq![c]);
    assert(spec_split(rest, '.') =~= seq![b, c]);
    assert(spec_split(token, '.') =~= seq![a, b, c]);
}

proof fn lemma_parts_joined(token: Seq<char>)
    requires
        spec_split(token, '.').len() == 3,
    ensures
        ({
            let p = spec_split(token, '.');
            token == p[0] + seq!['.'] + p[1] + seq!['.'] + p[2]
        }),
{
    reveal_with_fuel(spec_split, 4);
    let i = find(token, '.') as int;
    let rest = token.skip(i + 1);
    let j = find(rest, '.') as int;
    let last = rest.skip(j + 1);
    lemma_find_bound(token, '.');
    lemma_find_bound(rest, '.');
    assert(i < token.len());
    assert(j < rest.len());
    assert(spec_split(token, '.') == seq![token.take(i)] + spec_split(rest, '.'));
    assert(spec_split(rest, '.') == seq![rest.take(j)] + spec_split(last, '.'));
    assert(spec_split(last, '.').len() == 1);
    assert(spec_split(last, '.') =~= seq![last]);
    assert(token =~= token.take(i) + seq!['.'] + rest.take(j) + seq!['.'] + last);
}

/// A token of a provider is accepted exactly where its third part is the tag of the two
/// others under the secret of the settings, and where it names HS256, the issuer and the
/// audience of the settings, has not expired and was not issued in the future.
pub proof fn law_signed_token_decides(
    config: OidcConfig,
    verifier: OidcAuthVerifier,
    token: &str,
    now: i64,
    r: Result<(), AuthError>,
    head: Seq<char>,
    body: Seq<char>,
    tag: Seq<char>,
)
    requires
        hashable(config.client_secret@),
        hashable(token@),
        call_ensures(OidcAuthVerifier::new, (&config,), verifier),
        call_ensures(OidcAuthVerifier::verify_token, (&verifier, token, now), r),
        token@ == head + seq!['.'] + body + seq!['.'] + tag,
        !head.contains('.'),
        !body.contains('.'),
        !tag.contains('.'),
    ensures
        r is Ok == ({
            let header = base64url_decoded(head);
            let claims = base64url_decoded(body);
            &&& header is Some
            &&& claims is Some
            &&& base64url_decoded(tag) == Some(
                hmac_sha256_of(
                    encode_utf8(config.client_secret@),
                    encode_utf8(head + seq!['.'] + body),
                ),
            )
            &&& json_text_of(header->0, "alg"@) == Some("HS256"@)
            &&& json_text_of(claims->0, "iss"@) == Some(config.issuer@)
            &&& json_text_of(claims->0, "aud"@) == Some(config.audience@) || (json_list_of(
                claims->0,
                "aud"@,
            ) is Some && json_list_of(claims->0, "aud"@)->0.contains(Some(config.audience@)))
            &&& json_int_of(claims->0, "exp"@) is Some && now < json_int_of(claims->0, "exp"@)->0
            &&& json_int_of(claims->0, "iat"@) is Some ==> json_int_of(claims->0, "iat"@)->0 <= now
        }),
        r is Err ==> r->Err_0 is InvalidToken,
{
    lemma_three_parts(token@, head, body, tag);
}

/// What is not made of three parts with a dot between two parts is no token of a
/// provider.
pub proof fn law_signed_token_has_three_parts(
    verifier: OidcAuthVerifier,
    token: &str,
    now: i64,
    r: Result<(), AuthError>,
)
    requires
        call_ensures(OidcAuthVerifier::verify_token, (&verifier, token, now), r),
        r is Ok,
    ensures
        exists|head: Seq<char>, body: Seq<char>, tag: Seq<char>|
            token@ == #[trigger] (head + seq!['.'] + body + seq!['.'] + tag),
{
    lemma_parts_joined(token@);
    let p = spec_split(token@, '.');
    assert(token@ == p[0] + seq!['.'] + p[1] + seq!['.'] + p[2]);
}

/// With the method `oidc` logins are checked as the provider's tokens are.
pub proof fn law_provider_decides(
    config: AuthConfig,
    manager: AuthManager,
    verifier: OidcAuthVerifier,
    user: &str,
    token: &str,
    now: i64,
    login: Result<(), AuthError>,
    checked: Result<(), AuthError>,
)
    requires
        config_hashable(config),
        hashable(token@),
        config.method@ == "oidc"@,
        call_ensures(AuthManager::new, (&config,), Ok(manager)),
        call_ensures(AuthManager::verify_login, (&manager, user, token, now), login),
        call_ensures(OidcAuthVerifier::new, (&config.oidc->0,), verifier),
        call_ensures(OidcAuthVerifier::verify_token, (&verifier, token, now), checked),
    ensures
        config.oidc is Some,
        login is Ok == checked is Ok,
{
    reveal_strlit("token");
    reveal_strlit("oidc");
    assert("token"@.len() != "oidc"@.len());
}

/// A client with the token of the server is logged in under the run, the user and the
/// name that it gave, and understands the answer so; the server then knows the client.
pub proof fn law_client_logs_in<C, T>(
    config: ClientConfig,
    arch: &str,
    os: &str,
    hostname: &str,
    run_id: &str,
    timestamp: i64,
    login: Message,
    server_auth: AuthConfig,
    manager: AuthManager,
    control: &mut Control,
    state: &mut ServerState<C, T>,
    unix_time: i64,
    now: u64,
    answer: Result<Message, LoginRefusal>,
    outcome: Result<LoggedIn, ClientError>,
    info: Option<&ClientInfo>,
)
    requires
        call_ensures(
            login_message,
            (&config, arch, os, hostname, run_id, timestamp),
            login,
        ),
        config_hashable(server_auth),
        call_ensures(AuthManager::new, (&server_auth,), Ok(manager)),
        server_auth.method@ == "token"@,
        config.auth.token is Some,
        server_auth.token is Some,
        config.auth.token->0@ == server_auth.token->0@,
        call_ensures(
            Control::login::<C, T>,
            (control, state, login, &manager, unix_time, now),
            answer,
        ),
        answer is Ok ==> call_ensures(check_login_answer, (answer->Ok_0,), outcome),
        call_ensures(
            ControlManager::<T>::get_client,
            (&final(state).controls, run_id),
            info,
        ),
    ensures
        answer is Ok,
        outcome matches Ok(l) && l.run_id@ == run_id@ && l.work_conn_tls
            == old(control).work_conn_tls,
        final(control).run_id@ == run_id@,
        config.user is Some ==> final(control).user@ == config.user->0@,
        config.client_id is Some ==> final(control).client_id@ == config.client_id->0@,
        config.client_id is None ==> final(control).client_id@ == hostname@,
        final(control).pool_count == config.transport.pool_count,
        info matches Some(i) && i.run_id@ == run_id@ && i.user@ == final(control).user@
            && i.client_id@ == final(control).client_id@ && i.connected_at == now
            && i.last_heartbeat == now,
        final(state).metrics.counters().login_successes == old(state).metrics.counters().login_successes.wrapping_add(1),
{
    reveal_strlit("token");
    reveal_strlit("oidc");
    assert("token"@.len() != "oidc"@.len());
}

/// A client with another token is refused, told that its token is not valid, and leaves
/// no trace but the count of failed logins.
pub proof fn law_wrong_token_is_refused<C, T>(
    login: LoginMsg,
    server_auth: AuthConfig,
    manager: AuthManager,
    control: &mut Control,
    state: &mut ServerState<C, T>,
    unix_time: i64,
    now: u64,
    answer: Result<Message, LoginRefusal>,
    reply: Option<Message>,
)
    requires
        config_hashable(server_auth),
        hashable(login.token@),
        call_ensures(AuthManager::new, (&server_auth,), Ok(manager)),
        server_auth.method@ == "token"@,
        login.token@ != server_auth.token->0@,
        call_ensures(
            Control::login::<C, T>,
            (control, state, Message::Login(login), &manager, unix_time, now),
            answer,
        ),
        answer is Err ==> call_ensures(LoginRefusal::reply, (&answer->Err_0,), reply),
    ensures
        answer is Err,
        reply matches Some(Message::LoginResp(m)) && m.error@ == "invalid token"@,
        *final(control) == *old(control),
        final(state).controls == old(state).controls,
        final(state).proxies == old(state).proxies,
        final(state).owners == old(state).owners,
        final(state).metrics.counters().login_failures == old(state).metrics.counters().login_failures.wrapping_add(1),
        final(state).metrics.counters().login_successes == old(state).metrics.counters().login_successes,
{
    reveal_strlit("token");
    reveal_strlit("oidc");
    assert("token"@.len() != "oidc"@.len());
}

/// The signature of a work connection is the tag of the run under the digest of the
/// token, in base64; the server makes the same from the same token.
pub proof fn law_work_signature(
    auth: AuthConfig,
    manager: AuthManager,
    token: &str,
    run_id: &str,
    client: String,
    server: Result<String, AuthError>,
)
    requires
        config_hashable(auth),
        hashable(token@),
        hashable("work_conn:"@ + run_id@),
        call_ensures(AuthManager::new, (&auth,), Ok(manager)),
        call_ensures(generate_work_conn_sign_key, (token, run_id), client),
        call_ensures(AuthManager::generate_work_conn_sign_key, (&manager, run_id), server),
    ensures
        client@ == base64_of(
            hmac_sha256_of(sha256_of(encode_utf8(token@)), encode_utf8("work_conn:"@ + run_id@)),
        ),
        auth.token is Some && auth.token->0@ == token@ ==> (server matches Ok(s) && s@ == client@),
        auth.token is None ==> server is Err,
{
}

/// A work connection that a client announces is admitted where the server has the same
/// token and the run is logged in; where the run is not, it is refused as unknown.
pub proof fn law_announced_work_conn_is_admitted<T>(
    config: ClientConfig,
    proxy_name: &str,
    run_id: &str,
    timestamp: i64,
    message: Message,
    auth: AuthConfig,
    manager: AuthManager,
    controls: ControlManager<T>,
    channel: Option<&T>,
    r: Result<(), WorkConnRefusal>,
)
    requires
        config_hashable(config.auth),
        config_hashable(auth),
        hashable("work_conn:"@ + run_id@),
        call_ensures(work_conn_message, (&config, proxy_name, run_id, timestamp), message),
        call_ensures(AuthManager::new, (&auth,), Ok(manager)),
        config.auth.token is Some,
        auth.token is Some,
        config.auth.token->0@ == auth.token->0@,
        call_ensures(ControlManager::<T>::get_msg_tx, (&controls, run_id), channel),
        call_ensures(
            admit_work_conn::<T>,
            (&message->NewWorkConn_0, &controls, &manager),
            r,
        ),
    ensures
        message matches Message::NewWorkConn(m) && m.proxy_name@ == proxy_name@ && m.run_id@
            == run_id@ && m.timestamp == timestamp,
        channel is Some ==> r is Ok,
        channel is None ==> r == Err::<(), WorkConnRefusal>(WorkConnRefusal::UnknownRunId),
{
}

/// Where the server has a token, a work connection of a client that is logged in is
/// admitted with no other signature than the one that the token gives.
pub proof fn law_other_signature_is_refused<T>(
    message: NewWorkConnMsg,
    auth: AuthConfig,
    manager: AuthManager,
    controls: ControlManager<T>,
    run_id: &str,
    channel: Option<&T>,
    r: Result<(), WorkConnRefusal>,
)
    requires
        config_hashable(auth),
        hashable("work_conn:"@ + run_id@),
        run_id@ == message.run_id@,
        call_ensures(AuthManager::new, (&auth,), Ok(manager)),
        call_ensures(ControlManager::<T>::get_msg_tx, (&controls, run_id), channel),
        channel is Some,
        call_ensures(admit_work_conn::<T>, (&message, &controls, &manager), r),
    ensures
        auth.token matches Some(token) && message.sign_key@ != base64_of(
            hmac_sha256_of(sha256_of(encode_utf8(token@)), encode_utf8("work_conn:"@ + run_id@)),
        ) ==> r == Err::<(), WorkConnRefusal>(WorkConnRefusal::SignKeyMismatch),
        auth.token is None ==> r is Ok,
{
}

/// What a visitor signs with a secret opens the proxies with that secret, and a proxy
/// with a secret is open to nothing else; a proxy without one is open to all. The
/// signature is the tag of the run and the time under the digest of the secret.
pub proof fn law_secret_opens(
    secret: &str,
    run_id: &str,
    timestamp: i64,
    signed: String,
    sign: &str,
    admitted: bool,
    open: bool,
)
    requires
        hashable(secret@),
        hashable("stcp_visitor:"@ + run_id@ + ":"@ + signed_decimal(timestamp as int)),
        call_ensures(generate_visitor_sign, (Some(secret), run_id, timestamp), signed),
        call_ensures(admits_visitor, (Some(secret), run_id, timestamp, sign), admitted),
        call_ensures(admits_visitor, (None::<&str>, run_id, timestamp, sign), open),
    ensures
        admitted == (sign@ == signed@),
        open,
        signed@ == base64_of(
            hmac_sha256_of(
                sha256_of(encode_utf8(secret@)),
                encode_utf8(
                    "stcp_visitor:"@ + run_id@ + ":"@ + signed_decimal(timestamp as int),
                ),
            ),
        ),
{
}

/// A visitor that shares the secret of a proxy is joined with it: the client of the proxy
/// and the visitor are asked for a work connection each, for that proxy, and the visitor
/// is told that nothing went wrong.
pub proof fn law_visitor_with_the_secret_is_joined<C, T>(
    config: ClientConfig,
    i: int,
    name: &str,
    run_id: &str,
    timestamp: i64,
    message: Message,
    control: &mut Control,
    state: &mut ServerState<C, T>,
    secret: Option<&str>,
    now: u64,
    step: ControlStep,
)
    requires
        0 <= i < config.visitors@.len(),
        config.visitors@[i].server_name@ == name@,
        forall|j: int| 0 <= j < i ==> (#[trigger] config.visitors@[j]).server_name@ != name@,
        call_ensures(stcp_visitor_message, (&config, name, run_id, timestamp), message),
        old(control).run_id@ == run_id@,
        old(state).wf(),
        old(state).owners@.contains_key(name@),
        call_ensures(ServerProxyManager::secret_of, (&old(state).proxies, name), secret),
        secret matches Some(s) ==> config.visitors@[i].secret_key is Some
            && config.visitors@[i].secret_key->0@ == s@ && hashable(s@) && hashable(
            "stcp_visitor:"@ + run_id@ + ":"@ + signed_decimal(timestamp as int),
        ),
        call_ensures(Control::handle_message::<C, T>, (control, state, message, now), step),
    ensures
        step.actions@.len() == 3,
        step.actions@[0] matches ControlAction::Relay {
            run_id: r,
            message: Message::ReqWorkConn(m),
        } && r@ == old(state).owners@[name@]@ && m.proxy_name@ == name@,
        step.actions@[1] matches ControlAction::Relay {
            run_id: r,
            message: Message::ReqWorkConn(m),
        } && r@ == run_id@ && m.proxy_name@ == name@,
        step.actions@[2] matches ControlAction::Send { message: Message::StcpVisitorResp(m) }
            && m.proxy_name@ == name@ && m.error@.len() == 0 && m.visitor_run_id@ == run_id@,
{
    lemma_first_visitor(config.visitors@, name@, i);
    assert(text_values(old(state).owners@)[name@] == old(state).owners@[name@]@);
    assert(crate::proxies::text_of(secret) == old(state).proxies.secret(name@));
    if let Message::StcpVisitor(m) = message {
        assert(m.proxy_name@ == name@);
        if let Some(s) = secret {
            assert(old(state).proxies.secret(name@) == Some(s@));
            assert(can_sign(s@, run_id@, timestamp));
        }
    }
}

proof fn lemma_first_visitor(visitors: Seq<VisitorConfig>, name: Seq<char>, i: int)
    requires
        0 <= i < visitors.len(),
        visitors[i].server_name@ == name,
        forall|j: int| 0 <= j < i ==> (#[trigger] visitors[j]).server_name@ != name,
    ensures
        crate::link::visitor_index(visitors, name) == i,
    decreases visitors.len(),
{
    if i > 0 {
        assert(visitors[0].server_name@ != name);
        assert forall|j: int| 0 <= j < i - 1 implies (
        #[trigger] visitors.drop_first()[j]).server_name@ != name by {
            assert(visitors[j + 1].server_name@ != name);
        }
        lemma_first_visitor(visitors.drop_first(), name, i - 1);
    }
}

/// A visitor without the secret of a proxy is told so, and nobody is asked for a work
/// connection; neither is one of a proxy that nobody registered.
pub proof fn law_visitor_without_the_secret_is_refused<C, T>(
    visitor: StcpVisitorMsg,
    name: &str,
    control: &mut Control,
    state: &mut ServerState<C, T>,
    secret: Option<&str>,
    run_id: &str,
    sign: &str,
    admitted: bool,
    now: u64,
    step: ControlStep,
)
    requires
        visitor.proxy_name@ == name@,
        old(control).run_id@ == run_id@,
        visitor.sign_key@ == sign@,
        old(state).wf(),
        call_ensures(ServerProxyManager::secret_of, (&old(state).proxies, name), secret),
        call_ensures(admits_visitor, (secret, run_id, visitor.timestamp, sign), admitted),
        !admitted || !old(state).owners@.contains_key(name@),
        call_ensures(
            Control::handle_message::<C, T>,
            (control, state, Message::StcpVisitor(visitor), now),
            step,
        ),
    ensures
        step.actions@.len() == 1,
        step.actions@[0] matches ControlAction::Send { message: Message::StcpVisitorResp(m) }
            && m.proxy_name@ == name@ && m.visitor_run_id@ == run_id@ && m.error@ == (if old(state).owners@.contains_key(name@) {
            "secret key mismatch"@
        } else {
            "proxy not found"@
        }),
        final(state).bridges.bridges() == old(state).bridges.bridges(),
{
    assert(text_values(old(state).owners@).dom() =~= old(state).owners@.dom());
    assert(crate::proxies::text_of(secret) == old(state).proxies.secret(name@));
}

/// What was encrypted is given back by decrypting it, and without a token there is no
/// encryption.
pub proof fn law_decrypting_gives_back(
    config: AuthConfig,
    manager: AuthManager,
    data: &[u8],
    sealed: Result<Vec<u8>, AuthError>,
    between: &[u8],
    opened: Result<Vec<u8>, AuthError>,
)
    requires
        config_hashable(config),
        call_ensures(AuthManager::new, (&config,), Ok(manager)),
        call_ensures(AuthManager::encrypt, (&manager, data), sealed),
        sealed is Ok ==> between@ == sealed->Ok_0@,
        call_ensures(AuthManager::decrypt, (&manager, between), opened),
    ensures
        sealed is Ok == config.token is Some,
        opened is Ok == config.token is Some,
        config.token is Some ==> opened->Ok_0@ == data@,
        config.token is None ==> sealed->Err_0 is EncryptionKeyNotSet,
{
}

/// The signature of a time is the tag, under the token, of the token and the time.
pub proof fn law_time_is_signed_with_the_token(
    token: &str,
    verifier: TokenAuthVerifier,
    timestamp: i64,
    sign: String,
)
    requires
        hashable(token@),
        hashable(token@ + signed_decimal(timestamp as int)),
        call_ensures(TokenAuthVerifier::new, (token,), verifier),
        call_ensures(TokenAuthVerifier::generate_sign, (&verifier, timestamp), sign),
    ensures
        sign@ == base64_of(
            hmac_sha256_of(
                encode_utf8(token@),
                encode_utf8(token@ + signed_decimal(timestamp as int)),
            ),
        ),
{
}

/// A server lets in by the token of its own settings.
pub proof fn law_server_lets_in_by_its_settings(
    config: ServerConfig,
    path: Option<String>,
    server: Server,
    manager: &AuthManager,
    user: &str,
    token: &str,
    now: i64,
    login: Result<(), AuthError>,
)
    requires
        config_hashable(config.auth),
        hashable(token@),
        config.auth.method@ == "token"@,
        call_ensures(Server::new, (config, path), Ok(server)),
        call_ensures(Server::auth_manager, (&server,), manager),
        call_ensures(AuthManager::verify_login, (manager, user, token, now), login),
    ensures
        config.auth.token is Some,
        login is Ok == (token@ == config.auth.token->0@),
{
    reveal_strlit("token");
    reveal_strlit("oidc");
    assert("token"@.len() != "oidc"@.len());
}

/// A client says of itself what it was told and what its settings give: its user, its
/// name or else that of its host, its token, and how many work connections it keeps.
pub proof fn law_client_introduces_itself(
    config: ClientConfig,
    arch: &str,
    os: &str,
    hostname: &str,
    run_id: &str,
    timestamp: i64,
    message: Message,
)
    requires
        call_ensures(
            login_message,
            (&config, arch, os, hostname, run_id, timestamp),
            message,
        ),
    ensures
        message matches Message::Login(m) && {
            &&& m.arch@ == arch@ && m.os@ == os@ && m.hostname@ == hostname@ && m.run_id@ == run_id@
            &&& m.timestamp == timestamp && m.version@ == "0.1.0"@
            &&& m.pool_count == config.transport.pool_count
            &&& config.user is Some ==> m.user@ == config.user->0@
            &&& config.user is None ==> m.user@.len() == 0
            &&& config.client_id is Some ==> m.client_id@ == config.client_id->0@
            &&& config.client_id is None ==> m.client_id@ == hostname@
            &&& config.auth.token is Some ==> m.token@ == config.auth.token->0@
            &&& config.auth.token is None ==> m.token@.len() == 0
        },
{
}

/// A client takes an answer for a login exactly where it is one without an error, and
/// otherwise knows the error.
pub proof fn law_login_answers_are_understood(
    answer: LoginRespMsg,
    r: Result<LoggedIn, ClientError>,
    other: PongMsg,
    unexpected: Result<LoggedIn, ClientError>,
)
    requires
        call_ensures(check_login_answer, (Message::LoginResp(answer),), r),
        call_ensures(check_login_answer, (Message::Pong(other),), unexpected),
    ensures
        answer.error@.len() == 0 ==> (r matches Ok(l) && l.run_id@ == answer.run_id@
            && l.work_conn_tls == answer.work_conn_tls),
        answer.error@.len() > 0 ==> (r matches Err(ClientError::Other(t)) && t@ == answer.error@),
        unexpected is Err,
{
}

/// A work connection is started for the visitor that the server names, and not where the
/// server names an error.
pub proof fn law_start_answers_are_understood(
    answer: StartWorkConnMsg,
    r: Result<Visitor, ClientError>,
)
    requires
        call_ensures(check_start_answer, (Message::StartWorkConn(answer),), r),
    ensures
        answer.error@.len() == 0 ==> (r matches Ok(v) && v.addr@ == answer.src_addr@ && v.port
            == answer.src_port),
        answer.error@.len() > 0 ==> (r matches Err(ClientError::Other(t)) && t@
            == "Server error: "@ + answer.error@),
{
}

/// The connection of a client that has not logged in belongs to nobody; nothing but a
/// login is taken from it.
pub proof fn law_nothing_comes_before_a_login<C, T>(
    secure: bool,
    now: u64,
    fresh: Control,
    control: &mut Control,
    state: &mut ServerState<C, T>,
    ping: PingMsg,
    manager: AuthManager,
    unix_time: i64,
    answer: Result<Message, LoginRefusal>,
)
    requires
        call_ensures(Control::new, (secure, now), fresh),
        *old(control) == fresh,
        manager.wf(),
        call_ensures(
            Control::login::<C, T>,
            (control, state, Message::Ping(ping), &manager, unix_time, now),
            answer,
        ),
    ensures
        fresh.run_id@.len() == 0 && fresh.user@.len() == 0 && fresh.registered_proxies@.len() == 0,
        fresh.work_conn_tls == secure && fresh.last_heartbeat == now,
        answer matches Err(LoginRefusal::UnexpectedMessage),
        *final(state) == *old(state),
{
}

/// Once a visitor may enter a secret proxy, the next two work connections of that proxy
/// are joined; before, and where the visitor may not enter, a bridge is as it was.
pub proof fn law_bridge_waits_for_the_visitor<C, T>(
    visitor: StcpVisitorMsg,
    name: &str,
    control: &mut Control,
    state: &mut ServerState<C, T>,
    secret: Option<&str>,
    run_id: &str,
    sign: &str,
    admitted: bool,
    now: u64,
    step: ControlStep,
    b0: &mut StcpBridgeManager<C>,
    b1: &mut StcpBridgeManager<C>,
    first: C,
    second: C,
    r1: Result<Option<(C, C)>, C>,
    r2: Result<Option<(C, C)>, C>,
)
    requires
        visitor.proxy_name@ == name@,
        old(control).run_id@ == run_id@,
        visitor.sign_key@ == sign@,
        old(state).wf(),
        call_ensures(ServerProxyManager::secret_of, (&old(state).proxies, name), secret),
        call_ensures(admits_visitor, (secret, run_id, visitor.timestamp, sign), admitted),
        admitted,
        old(state).owners@.contains_key(name@),
        call_ensures(
            Control::handle_message::<C, T>,
            (control, state, Message::StcpVisitor(visitor), now),
            step,
        ),
        *old(b0) == final(state).bridges,
        call_ensures(StcpBridgeManager::<C>::add_conn_and_try_bridge, (b0, name, first), r1),
        *old(b1) == *final(b0),
        call_ensures(StcpBridgeManager::<C>::add_conn_and_try_bridge, (b1, name, second), r2),
    ensures
        r1 == Ok::<Option<(C, C)>, C>(None),
        r2 == Ok::<Option<(C, C)>, C>(Some((first, second))),
        final(state).proxies == old(state).proxies,
        final(state).owners == old(state).owners,
        final(state).pools == old(state).pools,
{
    assert(text_values(old(state).owners@).contains_key(name@));
    assert(crate::proxies::text_of(secret) == old(state).proxies.secret(name@));
}

/// A work connection is admitted where its run is known and it carries the signature that
/// is expected, where one is; a run that is not known is refused before that.
pub proof fn law_work_connections_are_checked(
    sign: &str,
    known: bool,
    expected: Option<&str>,
    r: Result<(), WorkConnRefusal>,
)
    requires
        call_ensures(check_work_conn, (sign, known, expected), r),
    ensures
        !known ==> r == Err::<(), WorkConnRefusal>(WorkConnRefusal::UnknownRunId),
        known && expected is None ==> r is Ok,
        known && expected is Some && expected->0@ == sign@ ==> r is Ok,
        known && expected is Some && expected->0@ != sign@ ==> r == Err::<(), WorkConnRefusal>(
            WorkConnRefusal::SignKeyMismatch,
        ),
{
}

/// The key that is derived from the token is its SHA-256 digest; without a token there is
/// none.
pub proof fn law_key_is_the_digest_of_the_token(
    config: AuthConfig,
    manager: AuthManager,
    key: Option<&[u8]>,
    token: &str,
    made: Vec<u8>,
)
    requires
        config_hashable(config),
        hashable(token@),
        call_ensures(AuthManager::new, (&config,), Ok(manager)),
        call_ensures(AuthManager::encryption_key, (&manager,), key),
        call_ensures(AuthManager::generate_encryption_key, (token,), made),
    ensures
        key is Some == config.token is Some,
        key is Some ==> key->0@ == sha256_of(encode_utf8(config.token->0@)),
        made@ == sha256_of(encode_utf8(token@)),
{
}

/// Bytes are the same where they do not differ, however they are compared.
pub proof fn law_bytes_are_compared(a: &[u8], b: &[u8], equal: bool)
    requires
        call_ensures(constant_time_compare, (a, b), equal),
    ensures
        equal == (a@.len() == b@.len() && forall|i: int| 0 <= i < a@.len() ==> a@[i] == b@[i]),
{
    if a@.len() == b@.len() && (forall|i: int| 0 <= i < a@.len() ==> a@[i] == b@[i]) {
        assert(a@ =~= b@);
    }
}

/// A work connection is signed alike with the token and with the key that the token gives;
/// the audience of claims is one of those that they name.
pub proof fn law_signing_with_the_key(
    token: &str,
    run_id: &str,
    key: Vec<u8>,
    bytes: &[u8],
    with_token: String,
    with_key: String,
    claims: TokenClaims,
    audience: &str,
    named: bool,
)
    requires
        hashable(token@),
        hashable("work_conn:"@ + run_id@),
        call_ensures(AuthManager::generate_encryption_key, (token,), key),
        bytes@ == key@,
        call_ensures(generate_work_conn_sign_key, (token, run_id), with_token),
        call_ensures(sign_work_conn, (bytes, run_id), with_key),
        call_ensures(TokenClaims::names_audience, (&claims, audience), named),
    ensures
        with_token@ == with_key@,
        claims.aud is Some && claims.aud->0@ == audience@ ==> named,
        claims.aud is None && claims.aud_list is None ==> !named,
        claims.aud_list is None && claims.aud is Some && claims.aud->0@ != audience@ ==> !named,
{
}

/// A manager is made where the settings give what their method needs, and the error says
/// what is missing or that there is no such method.
pub proof fn law_missing_settings_are_named(
    config: AuthConfig,
    made: Result<AuthManager, ServerError>,
)
    requires
        config_hashable(config),
        call_ensures(make_auth_manager, (&config,), made),
    ensures
        config.method@ == "token"@ ==> made is Ok == config.token is Some && (made is Err ==> (
        made->Err_0 matches ServerError::Other(t) && t@ == "token is required for token auth"@)),
        config.method@ == "oidc"@ ==> made is Ok == config.oidc is Some && (made is Err ==> (
        made->Err_0 matches ServerError::Other(t) && t@
            == "oidc config is required for oidc auth"@)),
        config.method@ != "token"@ && config.method@ != "oidc"@ ==> (made matches Err(
            ServerError::Other(t),
        ) && t@ == "unsupported auth method: "@ + config.method@),
{
    reveal_strlit("token");
    reveal_strlit("oidc");
    assert("token"@.len() != "oidc"@.len());
}

} // verus!
