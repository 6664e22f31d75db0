//! What holds of several operations together, whatever they are given.
pub mod access;
pub mod certificates;
pub mod framing;
pub mod groups;
pub mod health;
pub mod http;
pub mod links;
pub mod listening;
pub mod metrics;
pub mod plugins;
pub mod pools;
pub mod relay;
pub mod routing;
pub mod session;
pub mod settings;
pub mod text;
pub mod wording;
pub mod work;
