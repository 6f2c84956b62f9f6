//! The ways in which a configuration step can fail.

use crate::api::Api;
use vstd::prelude::*;

verus! {

/// A setting that only accepts a strictly positive duration.
#[derive(Clone, Copy, Debug, PartialEq, Eq, Structural)]
pub enum TimedSetting {
    NodeSyncInterval,
    RequestTimeout,
    /// The timeout of one API category.
    ApiTimeout(Api),
}

/// Why a setter or `build` refused to go on.
///
/// Every failure names the input that caused it, so that the caller can
/// correct that one call and continue the chain.
#[derive(Debug, PartialEq, Eq)]
pub enum ConfigError {
    /// The handle had already given its state to a successor or to a
    /// finished configuration.
    AlreadyConsumed,
    /// The given text is not an absolute URL with a host.
    InvalidNodeUrl(String),
    /// The duration given for this setting was zero.
    InvalidDuration(TimedSetting),
    /// `build` was called before any node was added.
    NoNodesConfigured,
    /// The network that the primary node reports differs from the one that
    /// was configured.
    ConflictingNetwork { configured: String, reported: String },
    /// The given name is not one of the known API categories.
    UnrecognizedApiCategory(String),
}

/// The mathematical content of a [`ConfigError`].
pub enum ConfigErrorView {
    AlreadyConsumed,
    InvalidNodeUrl(Seq<char>),
    InvalidDuration(TimedSetting),
    NoNodesConfigured,
    ConflictingNetwork { configured: Seq<char>, reported: Seq<char> },
    UnrecognizedApiCategory(Seq<char>),
}

impl View for ConfigError {
    type V = ConfigErrorView;

    open spec fn view(&self) -> ConfigErrorView {
        match *self {
            ConfigError::AlreadyConsumed => ConfigErrorView::AlreadyConsumed,
            ConfigError::InvalidNodeUrl(url) => ConfigErrorView::InvalidNodeUrl(url@),
            ConfigError::InvalidDuration(setting) => ConfigErrorView::InvalidDuration(setting),
            ConfigError::NoNodesConfigured => ConfigErrorView::NoNodesConfigured,
            ConfigError::ConflictingNetwork { configured, reported } => {
                ConfigErrorView::ConflictingNetwork { configured: configured@, reported: reported@ }
            },
            ConfigError::UnrecognizedApiCategory(name) => {
                ConfigErrorView::UnrecognizedApiCategory(name@)
            },
        }
    }
}

} // verus!
