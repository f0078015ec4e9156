//! Client configuration for the Apache Iggy message streaming platform, as the
//! Python binding exposes it: credentials replayed on connect, the TCP
//! reconnection policy, and the TCP and HTTP transport settings, each with the
//! validation and the textual representation that Python callers see.

pub mod text;
pub mod error;
pub mod duration;
pub mod auto_login;
pub mod reconnection;
pub mod tcp;
pub mod http;
pub mod client_config;
pub mod laws;

pub use auto_login::AutoLogin;
pub use client_config::PyClientConfig;
pub use duration::{duration_repr, reject_zero, TimeDelta, Timespan};
pub use error::{u32_arg, ConfigError, Parameter};
pub use http::HttpConfig;
pub use reconnection::TcpReconnectionConfig;
pub use tcp::TcpConfig;
pub use text::python_bool;
pub mod setting_laws;
