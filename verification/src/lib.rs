pub mod auth;
pub mod client;
pub mod codec;
pub mod config;
pub mod control;
pub mod environment;
pub mod groups;
pub mod health;
pub mod http;
pub mod laws;
pub mod link;
pub mod message;
pub mod metrics;
pub mod mux;
pub mod names;
pub mod plugin;
pub mod pool;
pub mod proxies;
pub mod random;
pub mod rate;
pub mod retry;
pub mod server;
pub mod session;
pub mod streams;
pub mod stun;
pub mod text;
pub mod tls;
pub mod vhost;
pub mod web;
pub mod work;
