//! The single-use handle that collects a client configuration.
//!
//! Every setter follows the life of a handle as the `handle` module
//! describes it, with the update that the model of the configuration
//! prescribes for it. Setters check their argument at once; what concerns
//! the configuration as a whole is checked by `build`.

use crate::api::Api;
use crate::broker::BrokerOptions;
use crate::config::{pool_nodes, ClientConfig, ClientOptions};
use crate::error::{ConfigError, ConfigErrorView, TimedSetting};
use crate::handle::{step, stepped};
use crate::model::{ClientConfigView, ParsedAddress};
use crate::node_url::{accept, parse_url, url_parse, ParsedUrl};
use crate::time::TimeSpan;
use vstd::prelude::*;

verus! {

/// A single-use handle on a client configuration in the making.
#[derive(Debug)]
pub struct ClientBuilder {
    builder: Option<ClientConfig>,
}

impl View for ClientBuilder {
    type V = Option<ClientConfigView>;

    closed spec fn view(&self) -> Option<ClientConfigView> {
        match self.builder {
            Some(config) => Some(config@),
            None => None,
        }
    }
}

/// The addresses of a pool, each with what the URL parser makes of it.
pub open spec fn parsed_pool(inputs: Seq<Seq<char>>) -> Seq<ParsedAddress> {
    Seq::new(inputs.len(), |i: int| (inputs[i], url_parse(inputs[i])))
}

/// Whether `built` is what a caller of `build` gets for `outcome`: the
/// finished configuration, or the error.
pub open spec fn finishes(
    built: Result<ClientOptions, ConfigError>,
    outcome: Result<ClientConfigView, ConfigErrorView>,
) -> bool {
    match outcome {
        Ok(config) => built matches Ok(finished) && finished@ == config,
        Err(error) => built matches Err(e) && e@ == error,
    }
}

impl Default for ClientBuilder {
    fn default() -> (handle: ClientBuilder)
        ensures
            handle@ == Some(ClientConfigView::initial()),
    {
        ClientBuilder { builder: Some(ClientConfig::new()) }
    }
}

impl ClientBuilder {
    /// A live handle on the initial configuration.
    pub fn new() -> (handle: ClientBuilder)
        ensures
            handle@ == Some(ClientConfigView::initial()),
    {
        ClientBuilder { builder: Some(ClientConfig::new()) }
    }

    fn new_with_builder(builder: ClientConfig) -> (handle: ClientBuilder)
        ensures
            handle@ == Some(builder@),
    {
        ClientBuilder { builder: Some(builder) }
    }

    /// Whether the handle has given its state away.
    pub fn is_consumed(&self) -> (consumed: bool)
        ensures
            consumed == (self@ is None),
    {
        self.builder.is_none()
    }

    /// Takes the state out of the handle, which is spent afterwards.
    fn take(&mut self) -> (taken: Result<ClientConfig, ConfigError>)
        ensures
            final(self)@ is None,
            match old(self)@ {
                Some(state) => taken matches Ok(config) && config@ == state,
                None => taken matches Err(e) && e@ == ConfigErrorView::AlreadyConsumed,
            },
    {
        match self.builder.take() {
            Some(config) => Ok(config),
            None => Err(ConfigError::AlreadyConsumed),
        }
    }

    /// Adds the nodes of a pool whose addresses have been parsed already:
    /// all of them, or none where one of the addresses names no node.
    pub fn with_parsed_node_pool(&mut self, pool: &Vec<(String, Option<ParsedUrl>)>) -> (next:
        Result<ClientBuilder, ConfigError>)
        ensures
            stepped(
                old(self)@,
                final(self)@,
                next,
                |c: ClientConfigView| c.with_node_pool(pool.deep_view()),
            ),
    {
        if self.builder.is_none() {
            return Err(ConfigError::AlreadyConsumed);
        }
        let endpoints = pool_nodes(pool)?;
        let config = self.take()?;
        Ok(ClientBuilder::new_with_builder(config.add_nodes(&endpoints)))
    }

    /// Adds the nodes of a pool: all of them, or none where one of the
    /// addresses names no node.
    pub fn with_node_pool_urls(&mut self, node_pool_urls: Vec<String>) -> (next: Result<
        ClientBuilder,
        ConfigError,
    >)
        ensures
            stepped(
                old(self)@,
                final(self)@,
                next,
                |c: ClientConfigView| c.with_node_pool(parsed_pool(node_pool_urls.deep_view())),
            ),
    {
        let mut pool: Vec<(String, Option<ParsedUrl>)> = Vec::new();
        let mut index: usize = 0;
        while index < node_pool_urls.len()
            invariant
                index <= node_pool_urls.len(),
                pool.len() == index,
                forall|i: int|
                    0 <= i < index ==> pool.deep_view()[i] == parsed_pool(
                        node_pool_urls.deep_view(),
                    )[i],
            decreases node_pool_urls.len() - index,
        {
            let input = node_pool_urls[index].clone();
            let parsed = parse_url(input.as_str());
            let ghost before = pool.deep_view();
            pool.push((input, parsed));
            assert(pool.deep_view() =~= before.push((input@, parsed.deep_view())));
            index = index + 1;
        }
        assert(pool.deep_view() =~= parsed_pool(node_pool_urls.deep_view()));
        self.with_parsed_node_pool(&pool)
    }

    /// Names the primary node by an address that has been parsed already.
    pub fn with_parsed_primary_node(&mut self, node: &str, parsed: &Option<ParsedUrl>) -> (next:
        Result<ClientBuilder, ConfigError>)
        ensures
            stepped(
                old(self)@,
                final(self)@,
                next,
                |c: ClientConfigView| c.with_primary_node(node@, parsed.deep_view()),
            ),
    {
        if self.builder.is_none() {
            return Err(ConfigError::AlreadyConsumed);
        }
        match accept(parsed) {
            Some(endpoint) => {
                let config = self.take()?;
                Ok(ClientBuilder::new_with_builder(config.set_primary_node(endpoint)))
            },
            None => Err(ConfigError::InvalidNodeUrl(node.to_owned())),
        }
    }

    /// Names the primary node. It takes the place of any that was named
    /// before, which stays among the nodes.
    pub fn with_primary_node(&mut self, node: &str) -> (next: Result<ClientBuilder, ConfigError>)
        ensures
            stepped(
                old(self)@,
                final(self)@,
                next,
                |c: ClientConfigView| c.with_primary_node(node@, url_parse(node@)),
            ),
    {
        let parsed = parse_url(node);
        self.with_parsed_primary_node(node, &parsed)
    }

    /// Names the node that does proof of work for the client, by an address
    /// that has been parsed already.
    pub fn with_parsed_primary_pow_node(
        &mut self,
        node: &str,
        parsed: &Option<ParsedUrl>,
    ) -> (next: Result<ClientBuilder, ConfigError>)
        ensures
            stepped(
                old(self)@,
                final(self)@,
                next,
                |c: ClientConfigView| c.with_primary_pow_node(node@, parsed.deep_view()),
            ),
    {
        if self.builder.is_none() {
            return Err(ConfigError::AlreadyConsumed);
        }
        match accept(parsed) {
            Some(endpoint) => {
                let config = self.take()?;
                Ok(ClientBuilder::new_with_builder(config.set_primary_pow_node(endpoint)))
            },
            None => Err(ConfigError::InvalidNodeUrl(node.to_owned())),
        }
    }

    /// Names the node that does proof of work for the client. It takes the
    /// place of any that was named before.
    pub fn with_primary_pow_node(&mut self, node: &str) -> (next: Result<
        ClientBuilder,
        ConfigError,
    >)
        ensures
            stepped(
                old(self)@,
                final(self)@,
                next,
                |c: ClientConfigView| c.with_primary_pow_node(node@, url_parse(node@)),
            ),
    {
        let parsed = parse_url(node);
        self.with_parsed_primary_pow_node(node, &parsed)
    }

    /// Adds a node by an address that has been parsed already.
    pub fn with_parsed_node(&mut self, node: &str, parsed: &Option<ParsedUrl>) -> (next: Result<
        ClientBuilder,
        ConfigError,
    >)
        ensures
            stepped(
                old(self)@,
                final(self)@,
                next,
                |c: ClientConfigView| c.with_node(node@, parsed.deep_view()),
            ),
    {
        if self.builder.is_none() {
            return Err(ConfigError::AlreadyConsumed);
        }
        match accept(parsed) {
            Some(endpoint) => {
                let config = self.take()?;
                Ok(ClientBuilder::new_with_builder(config.add_node(endpoint)))
            },
            None => Err(ConfigError::InvalidNodeUrl(node.to_owned())),
        }
    }

    /// Adds a node. A node that is there already is not added again.
    pub fn with_node(&mut self, node: &str) -> (next: Result<ClientBuilder, ConfigError>)
        ensures
            stepped(
                old(self)@,
                final(self)@,
                next,
                |c: ClientConfigView| c.with_node(node@, url_parse(node@)),
            ),
    {
        let parsed = parse_url(node);
        self.with_parsed_node(node, &parsed)
    }

    /// Sets the name of the network. Any text is taken as it is.
    pub fn with_network(&mut self, network: String) -> (next: Result<ClientBuilder, ConfigError>)
        ensures
            stepped(
                old(self)@,
                final(self)@,
                next,
                |c: ClientConfigView| Ok(c.with_network(network@)),
            ),
    {
        let config = self.take()?;
        Ok(ClientBuilder::new_with_builder(config.set_network(network)))
    }

    /// Sets the interval of node synchronisation, which must not be zero.
    pub fn with_node_sync_interval(&mut self, node_sync_interval: TimeSpan) -> (next: Result<
        ClientBuilder,
        ConfigError,
    >)
        ensures
            stepped(
                old(self)@,
                final(self)@,
                next,
                |c: ClientConfigView| c.with_node_sync_interval(node_sync_interval),
            ),
    {
        if self.builder.is_none() {
            return Err(ConfigError::AlreadyConsumed);
        }
        if node_sync_interval.is_zero() {
            return Err(ConfigError::InvalidDuration(TimedSetting::NodeSyncInterval));
        }
        let config = self.take()?;
        Ok(ClientBuilder::new_with_builder(config.set_node_sync_interval(node_sync_interval)))
    }

    /// Switches node synchronisation off.
    pub fn with_node_sync_disabled(&mut self) -> (next: Result<ClientBuilder, ConfigError>)
        ensures
            stepped(
                old(self)@,
                final(self)@,
                next,
                |c: ClientConfigView| Ok(c.with_node_sync_disabled()),
            ),
    {
        let config = self.take()?;
        Ok(ClientBuilder::new_with_builder(config.disable_node_sync()))
    }

    /// Switches MQTT off.
    pub fn with_mqtt_disabled(&mut self) -> (next: Result<ClientBuilder, ConfigError>)
        ensures
            stepped(
                old(self)@,
                final(self)@,
                next,
                |c: ClientConfigView| Ok(c.with_mqtt_disabled()),
            ),
    {
        let config = self.take()?;
        Ok(ClientBuilder::new_with_builder(config.disable_mqtt()))
    }

    /// Sets the MQTT broker options to those that the handle `options`
    /// holds, and leaves that handle spent. A spent broker handle has none
    /// to give: the step then fails like one on a spent handle. Where the
    /// step fails, both handles stay as they were.
    pub fn with_broker_options_of(&mut self, options: &mut BrokerOptions) -> (next: Result<
        ClientBuilder,
        ConfigError,
    >)
        ensures
            stepped(
                old(self)@,
                final(self)@,
                next,
                |c: ClientConfigView| c.with_broker_handle(old(options)@),
            ),
            final(options)@ == if next is Ok {
                None
            } else {
                old(options)@
            },
    {
        if self.builder.is_none() {
            return Err(ConfigError::AlreadyConsumed);
        }
        let broker = options.take()?;
        let config = self.take()?;
        Ok(ClientBuilder::new_with_builder(config.set_broker_options(broker)))
    }

    /// Sets the MQTT broker options to those that `options` holds. A spent
    /// broker handle has none to give: the step then fails like one on a
    /// spent handle.
    pub fn with_mqtt_mqtt_broker_options(&mut self, options: BrokerOptions) -> (next: Result<
        ClientBuilder,
        ConfigError,
    >)
        ensures
            stepped(
                old(self)@,
                final(self)@,
                next,
                |c: ClientConfigView| c.with_broker_handle(options@),
            ),
    {
        let mut options = options;
        self.with_broker_options_of(&mut options)
    }

    /// Says whether the client does proof of work itself.
    pub fn with_local_pow(&mut self, local: bool) -> (next: Result<ClientBuilder, ConfigError>)
        ensures
            stepped(
                old(self)@,
                final(self)@,
                next,
                |c: ClientConfigView| Ok(c.with_local_pow(local)),
            ),
    {
        let config = self.take()?;
        Ok(ClientBuilder::new_with_builder(config.set_local_pow(local)))
    }

    /// Sets the timeout of requests in general, which must not be zero.
    pub fn with_request_timeout(&mut self, timeout: TimeSpan) -> (next: Result<
        ClientBuilder,
        ConfigError,
    >)
        ensures
            stepped(
                old(self)@,
                final(self)@,
                next,
                |c: ClientConfigView| c.with_request_timeout(timeout),
            ),
    {
        if self.builder.is_none() {
            return Err(ConfigError::AlreadyConsumed);
        }
        if timeout.is_zero() {
            return Err(ConfigError::InvalidDuration(TimedSetting::RequestTimeout));
        }
        let config = self.take()?;
        Ok(ClientBuilder::new_with_builder(config.set_request_timeout(timeout)))
    }

    /// Sets the timeout of one API category, which must not be zero. It
    /// takes the place of any timeout that the category had.
    pub fn with_api_timeout(&mut self, api: Api, timeout: TimeSpan) -> (next: Result<
        ClientBuilder,
        ConfigError,
    >)
        ensures
            stepped(
                old(self)@,
                final(self)@,
                next,
                |c: ClientConfigView| c.with_api_timeout(api, timeout),
            ),
    {
        if self.builder.is_none() {
            return Err(ConfigError::AlreadyConsumed);
        }
        if timeout.is_zero() {
            return Err(ConfigError::InvalidDuration(TimedSetting::ApiTimeout(api)));
        }
        let config = self.take()?;
        Ok(ClientBuilder::new_with_builder(config.set_api_timeout(api, timeout)))
    }

    /// Sets the timeout of the API category that `category` names. The name
    /// is looked at first, then the timeout.
    pub fn with_named_api_timeout(&mut self, category: &str, timeout: TimeSpan) -> (next: Result<
        ClientBuilder,
        ConfigError,
    >)
        ensures
            stepped(
                old(self)@,
                final(self)@,
                next,
                |c: ClientConfigView| c.with_named_api_timeout(category@, timeout),
            ),
    {
        if self.builder.is_none() {
            return Err(ConfigError::AlreadyConsumed);
        }
        let api = Api::from_name(category)?;
        self.with_api_timeout(api, timeout)
    }

    /// Finishes the configuration, given the network that the primary node
    /// reports where that is known. On success the handle is spent; on
    /// failure it stays as it was.
    pub fn build_with_reported_network(&mut self, reported_network: Option<&str>) -> (built:
        Result<ClientOptions, ConfigError>)
        ensures
            final(self)@ == step(
                old(self)@,
                |c: ClientConfigView| c.build(reported_network.deep_view()),
            ).handle,
            finishes(
                built,
                step(
                    old(self)@,
                    |c: ClientConfigView| c.build(reported_network.deep_view()),
                ).outcome,
            ),
    {
        match &self.builder {
            None => {
                return Err(ConfigError::AlreadyConsumed);
            },
            Some(config) => {
                config.check(reported_network)?;
            },
        }
        let config = self.take()?;
        Ok(ClientOptions::new(config))
    }

    /// Finishes the configuration where nothing is known of the network
    /// that the nodes are on.
    pub fn build(&mut self) -> (built: Result<ClientOptions, ConfigError>)
        ensures
            final(self)@ == step(old(self)@, |c: ClientConfigView| c.build(None)).handle,
            finishes(built, step(old(self)@, |c: ClientConfigView| c.build(None)).outcome),
    {
        self.build_with_reported_network(None)
    }
}

} // verus!
