# rust_frp

A reverse proxy that makes services behind a NAT or a firewall reachable from
outside. A client keeps a control connection to a public server and offers proxies;
visitors of the server's ports are joined with work connections that the client opens
to its local services.

The library under `src/` holds what the server and the client decide, as verified Rust:
every function has a contract that Verus proves. The program under `app/` holds what
they do: sockets, TLS, files, signals and web pages.

## The library

| Module | What it holds |
| --- | --- |
| `config` | settings: defaults, merging, validation |
| `environment` | references to the environment in the settings |
| `message` | messages between client and server, and how they are framed |
| `auth` | tokens, signed OIDC tokens, signatures of work connections |
| `session` | the control connection of a client, as the server sees it |
| `control` | the clients that are logged in |
| `proxies`, `groups` | the proxies of a server: ports, quotas, load balancing |
| `work` | work connections: admission, pools, secret TCP bridges |
| `vhost`, `http` | routing by host name |
| `server` | what a server listens on, and where its visitors go |
| `metrics` | counters, and their text for Prometheus |
| `web` | the login to the status pages |
| `client`, `link` | the proxies of a client, and its connections to the server |
| `health` | checks of local services |
| `plugin` | Unix sockets, static files, HTTP and SOCKS5 proxies, TLS |
| `tls` | certificates and keys from PEM, and whom a client trusts |
| `pool` | idle connections |
| `streams`, `mux` | streams over packets, and many streams over one connection |
| `stun` | public addresses behind NATs |
| `rate`, `retry` | bandwidth limits, and trying again |
| `random`, `text`, `names`, `codec` | identifiers, text, maps by name, encodings |

Proof functions whose names begin with `law_` state what holds of the library as a
whole: that a message that was written is read back, that no user exceeds a quota, that
no proxy that is refused or cannot listen leaves anything behind, that each member of a group has its turn.

What other crates compute (digests, base64, PEM, percent encoding, JSON values, random
numbers) is called through small wrappers in `codec` and `random`. Their contracts are
not proved.

## Time, chance and the outside

The library reads no clock: times are passed in, in milliseconds on a clock that never
runs back, or in Unix seconds. Connections and channels are type parameters. Functions
that would do I/O return what has to be done, and take what came of it.

## The program

    rust_frps -c frps.toml
    rust_frpc -c frpc.toml

One program does both: its name says whether it is the server or the client. Under
another name its first argument says so: `server` or `client`.

A server whose settings name no certificate uses `cert/frp.crt` and `cert/frp.key`; its
status pages are read from `web_ui.html` and `login.html`.
