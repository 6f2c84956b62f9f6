//! Options for the connection to the message broker, and the single-use
//! handle that collects them.

use crate::error::{ConfigError, ConfigErrorView};
use crate::handle::stepped;
use crate::time::TimeSpan;
use vstd::prelude::*;

verus! {

/// A snapshot of broker options. A field that is `None` was never set: the
/// networking layer then uses its own default.
#[derive(Clone, Copy, Debug, PartialEq, Eq)]
pub struct BrokerConfig {
    /// Whether the connection closes by itself when idle.
    pub automatic_disconnect: Option<bool>,
    /// The connection timeout.
    pub timeout: Option<TimeSpan>,
    /// Which transport the connection uses: the secure one or the plain
    /// one.
    pub use_ws: Option<bool>,
    /// The port of the broker.
    pub port: Option<u16>,
    /// How often a lost connection is tried again.
    pub max_reconnection_attempts: Option<usize>,
}

impl BrokerConfig {
    /// The snapshot in which nothing is set.
    pub open spec fn unset() -> BrokerConfig {
        BrokerConfig {
            automatic_disconnect: None,
            timeout: None,
            use_ws: None,
            port: None,
            max_reconnection_attempts: None,
        }
    }

    /// The snapshot with one field set and the others as they were; the
    /// same holds of the four functions that follow.
    pub open spec fn with_automatic_disconnect(self, disconnect: bool) -> BrokerConfig {
        BrokerConfig { automatic_disconnect: Some(disconnect), ..self }
    }

    pub open spec fn with_timeout(self, timeout: TimeSpan) -> BrokerConfig {
        BrokerConfig { timeout: Some(timeout), ..self }
    }

    pub open spec fn with_use_ws(self, use_ws: bool) -> BrokerConfig {
        BrokerConfig { use_ws: Some(use_ws), ..self }
    }

    pub open spec fn with_port(self, port: u16) -> BrokerConfig {
        BrokerConfig { port: Some(port), ..self }
    }

    pub open spec fn with_max_reconnection_attempts(self, attempts: usize) -> BrokerConfig {
        BrokerConfig { max_reconnection_attempts: Some(attempts), ..self }
    }
}

/// A single-use handle on broker options in the making.
#[derive(Debug)]
pub struct BrokerOptions {
    builder: Option<BrokerConfig>,
}

impl View for BrokerOptions {
    type V = Option<BrokerConfig>;

    closed spec fn view(&self) -> Option<BrokerConfig> {
        self.builder
    }
}

impl BrokerOptions {
    /// A live handle with nothing set.
    pub fn new() -> (handle: BrokerOptions)
        ensures
            handle@ == Some(BrokerConfig::unset()),
    {
        BrokerOptions {
            builder: Some(
                BrokerConfig {
                    automatic_disconnect: None,
                    timeout: None,
                    use_ws: None,
                    port: None,
                    max_reconnection_attempts: None,
                },
            ),
        }
    }

    /// A live handle that holds `options`.
    pub fn new_with(options: BrokerConfig) -> (handle: BrokerOptions)
        ensures
            handle@ == Some(options),
    {
        BrokerOptions { builder: Some(options) }
    }

    /// Whether the handle has given its state away.
    pub fn is_consumed(&self) -> (consumed: bool)
        ensures
            consumed == (self@ is None),
    {
        self.builder.is_none()
    }

    /// Takes the options out of the handle, which is spent afterwards.
    pub fn take(&mut self) -> (taken: Result<BrokerConfig, ConfigError>)
        ensures
            final(self)@ is None,
            match old(self)@ {
                Some(options) => taken == Ok::<BrokerConfig, ConfigError>(options),
                None => taken matches Err(e) && e@ == ConfigErrorView::AlreadyConsumed,
            },
    {
        match self.builder.take() {
            Some(options) => Ok(options),
            None => Err(ConfigError::AlreadyConsumed),
        }
    }

    /// Says whether the connection closes by itself when idle.
    pub fn automatic_disconnect(&mut self, disconnect: bool) -> (next: Result<
        BrokerOptions,
        ConfigError,
    >)
        ensures
            stepped(
                old(self)@,
                final(self)@,
                next,
                |c: BrokerConfig| Ok(c.with_automatic_disconnect(disconnect)),
            ),
    {
        let mut options = self.take()?;
        options.automatic_disconnect = Some(disconnect);
        Ok(BrokerOptions::new_with(options))
    }

    /// Sets the connection timeout. Any span is taken, also an empty one.
    pub fn timeout(&mut self, timeout: TimeSpan) -> (next: Result<BrokerOptions, ConfigError>)
        ensures
            stepped(
                old(self)@,
                final(self)@,
                next,
                |c: BrokerConfig| Ok(c.with_timeout(timeout)),
            ),
    {
        let mut options = self.take()?;
        options.timeout = Some(timeout);
        Ok(BrokerOptions::new_with(options))
    }

    /// Selects the transport.
    pub fn use_ws(&mut self, use_ws: bool) -> (next: Result<BrokerOptions, ConfigError>)
        ensures
            stepped(old(self)@, final(self)@, next, |c: BrokerConfig| Ok(c.with_use_ws(use_ws))),
    {
        let mut options = self.take()?;
        options.use_ws = Some(use_ws);
        Ok(BrokerOptions::new_with(options))
    }

    /// Sets the port of the broker.
    pub fn port(&mut self, port: u16) -> (next: Result<BrokerOptions, ConfigError>)
        ensures
            stepped(old(self)@, final(self)@, next, |c: BrokerConfig| Ok(c.with_port(port))),
    {
        let mut options = self.take()?;
        options.port = Some(port);
        Ok(BrokerOptions::new_with(options))
    }

    /// Sets how often a lost connection is tried again.
    pub fn max_reconnection_attempts(&mut self, max_reconnection_attempts: usize) -> (next: Result<
        BrokerOptions,
        ConfigError,
    >)
        ensures
            stepped(
                old(self)@,
                final(self)@,
                next,
                |c: BrokerConfig| Ok(c.with_max_reconnection_attempts(max_reconnection_attempts)),
            ),
    {
        let mut options = self.take()?;
        options.max_reconnection_attempts = Some(max_reconnection_attempts);
        Ok(BrokerOptions::new_with(options))
    }
}

} // verus!
