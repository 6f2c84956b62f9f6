//! Single-use builders for the configuration of a ledger network client.
//!
//! A [`ClientBuilder`] collects nodes, synchronisation, proof-of-work and
//! timeout settings, and optionally the options that a [`BrokerOptions`]
//! handle has collected for the message broker. Each setter hands back a
//! successor and leaves the handle it was called on spent; `build` checks
//! the configuration as a whole and hands out the finished
//! [`ClientOptions`].

pub mod api;
pub mod api_timeouts;
pub mod broker;
pub mod builder;
pub mod config;
pub mod error;
pub mod handle;
pub mod model;
pub mod node_url;
pub mod theorems;
pub mod time;

pub use crate::api::Api;
pub use crate::api_timeouts::ApiTimeouts;
pub use crate::broker::{BrokerConfig, BrokerOptions};
pub use crate::builder::ClientBuilder;
pub use crate::config::{ClientConfig, ClientOptions};
pub use crate::error::{ConfigError, TimedSetting};
pub use crate::node_url::ParsedUrl;
pub use crate::time::TimeSpan;
