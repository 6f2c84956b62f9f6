//! Client configurations as values: the configuration that a builder
//! accumulates, and the finished one that `build` hands out.

use crate::api::Api;
use crate::api_timeouts::ApiTimeouts;
use crate::broker::BrokerConfig;
use crate::error::{ConfigError, ConfigErrorView};
use crate::model::{
    first_rejected, is_first_rejected, pool_accepted, pool_endpoints, ClientConfigView,
};
use crate::node_url::{accept, endpoint_of, ParsedUrl};
use crate::time::TimeSpan;
use vstd::prelude::*;

verus! {

/// A client configuration.
///
/// Values of this type come out of the builder only, so each of them
/// satisfies [`ClientConfigView::wf`].
#[derive(Debug)]
pub struct ClientConfig {
    nodes: Vec<String>,
    primary_node: Option<String>,
    primary_pow_node: Option<String>,
    network_id: Option<String>,
    node_sync_interval: Option<TimeSpan>,
    node_sync_enabled: bool,
    mqtt_enabled: bool,
    broker_options: Option<BrokerConfig>,
    local_pow_enabled: Option<bool>,
    request_timeout: Option<TimeSpan>,
    api_timeouts: ApiTimeouts,
}

impl View for ClientConfig {
    type V = ClientConfigView;

    closed spec fn view(&self) -> ClientConfigView {
        ClientConfigView {
            nodes: self.nodes.deep_view(),
            primary_node: self.primary_node.deep_view(),
            primary_pow_node: self.primary_pow_node.deep_view(),
            network_id: self.network_id.deep_view(),
            node_sync_interval: self.node_sync_interval,
            node_sync_enabled: self.node_sync_enabled,
            mqtt_enabled: self.mqtt_enabled,
            broker_options: self.broker_options,
            local_pow_enabled: self.local_pow_enabled,
            request_timeout: self.request_timeout,
            api_timeouts: self.api_timeouts@,
        }
    }
}

/// Whether `text` is one of `list`.
fn contains_text(list: &Vec<String>, text: &String) -> (found: bool)
    ensures
        found == list.deep_view().contains(text@),
{
    let mut index: usize = 0;
    while index < list.len()
        invariant
            index <= list.len(),
            forall|i: int| 0 <= i < index ==> list.deep_view()[i] != text@,
        decreases list.len() - index,
    {
        if list[index] == *text {
            assert(list.deep_view()[index as int] == text@);
            return true;
        }
        index = index + 1;
    }
    false
}

impl ClientConfig {
    #[verifier::type_invariant]
    spec fn inv(self) -> bool {
        self@.wf()
    }

    pub(crate) fn new() -> (config: ClientConfig)
        ensures
            config@ == ClientConfigView::initial(),
    {
        let config = ClientConfig {
            nodes: Vec::new(),
            primary_node: None,
            primary_pow_node: None,
            network_id: None,
            node_sync_interval: None,
            node_sync_enabled: true,
            mqtt_enabled: true,
            broker_options: None,
            local_pow_enabled: None,
            request_timeout: None,
            api_timeouts: ApiTimeouts::new(),
        };
        assert(config.nodes.deep_view() =~= Seq::<Seq<char>>::empty());
        config
    }

    /// The nodes, in the order in which they were first added. None of them
    /// is listed twice.
    pub fn nodes(&self) -> (nodes: &Vec<String>)
        ensures
            nodes.deep_view() == self@.nodes,
            self@.wf(),
    {
        proof {
            use_type_invariant(self);
        }
        &self.nodes
    }

    /// Whether `node` is one of the nodes, under the spelling that it was
    /// remembered by.
    pub fn has_node(&self, node: &str) -> (found: bool)
        ensures
            found == self@.node_set().contains(node@),
    {
        let text = node.to_owned();
        contains_text(&self.nodes, &text)
    }

    pub fn primary_node(&self) -> (primary: Option<&String>)
        ensures
            primary.deep_view() == self@.primary_node,
    {
        self.primary_node.as_ref()
    }

    pub fn primary_pow_node(&self) -> (primary: Option<&String>)
        ensures
            primary.deep_view() == self@.primary_pow_node,
    {
        self.primary_pow_node.as_ref()
    }

    pub fn network_id(&self) -> (network: Option<&String>)
        ensures
            network.deep_view() == self@.network_id,
    {
        self.network_id.as_ref()
    }

    /// The interval that was set for node synchronisation. It stays on
    /// record when synchronisation is switched off.
    pub fn node_sync_interval(&self) -> (interval: Option<TimeSpan>)
        ensures
            interval == self@.node_sync_interval,
            interval matches Some(span) ==> !span.spec_is_zero(),
    {
        proof {
            use_type_invariant(self);
        }
        self.node_sync_interval
    }

    pub fn node_sync_enabled(&self) -> (enabled: bool)
        ensures
            enabled == self@.node_sync_enabled,
    {
        self.node_sync_enabled
    }

    pub fn mqtt_enabled(&self) -> (enabled: bool)
        ensures
            enabled == self@.mqtt_enabled,
    {
        self.mqtt_enabled
    }

    /// The broker options that were attached. They stay on record when MQTT
    /// is switched off.
    pub fn broker_options(&self) -> (options: Option<BrokerConfig>)
        ensures
            options == self@.broker_options,
    {
        self.broker_options
    }

    pub fn local_pow_enabled(&self) -> (local: Option<bool>)
        ensures
            local == self@.local_pow_enabled,
    {
        self.local_pow_enabled
    }

    pub fn request_timeout(&self) -> (timeout: Option<TimeSpan>)
        ensures
            timeout == self@.request_timeout,
            timeout matches Some(span) ==> !span.spec_is_zero(),
    {
        proof {
            use_type_invariant(self);
        }
        self.request_timeout
    }

    /// The timeout that was set for `api`, if any.
    pub fn api_timeout(&self, api: Api) -> (timeout: Option<TimeSpan>)
        ensures
            timeout == if self@.api_timeouts.contains_key(api) {
                Some(self@.api_timeouts[api])
            } else {
                None::<TimeSpan>
            },
            timeout matches Some(span) ==> !span.spec_is_zero(),
    {
        proof {
            use_type_invariant(self);
            assert(self@.api_timeouts.contains_key(api) ==> !self@.api_timeouts[api].spec_is_zero());
        }
        self.api_timeouts.get(api)
    }

    /// The timeouts that were set for single API categories.
    pub fn api_timeouts(&self) -> (table: &ApiTimeouts)
        ensures
            table@ == self@.api_timeouts,
    {
        &self.api_timeouts
    }

    pub(crate) fn add_node(self, endpoint: String) -> (config: ClientConfig)
        ensures
            config@ == self@.add_node(endpoint@),
    {
        proof {
            use_type_invariant(&self);
        }
        if contains_text(&self.nodes, &endpoint) {
            self
        } else {
            let ghost before = self.nodes.deep_view();
            let mut nodes = self.nodes;
            nodes.push(endpoint);
            proof {
                assert(nodes.deep_view() =~= before.push(endpoint@));
                self@.lemma_add_node(endpoint@);
            }
            ClientConfig { nodes, ..self }
        }
    }

    pub(crate) fn add_nodes(self, endpoints: &Vec<String>) -> (config: ClientConfig)
        ensures
            config@ == self@.add_nodes(endpoints.deep_view()),
    {
        let ghost all = endpoints.deep_view();
        let ghost start = self@;
        let mut config = self;
        let mut index: usize = 0;
        while index < endpoints.len()
            invariant
                index <= endpoints.len(),
                all == endpoints.deep_view(),
                config@ == start.add_nodes(all.take(index as int)),
            decreases endpoints.len() - index,
        {
            let endpoint = endpoints[index].clone();
            proof {
                let longer = all.take(index + 1);
                assert(longer.drop_last() =~= all.take(index as int));
            }
            config = config.add_node(endpoint);
            index = index + 1;
        }
        assert(all.take(index as int) =~= all);
        config
    }

    pub(crate) fn set_primary_node(self, endpoint: String) -> (config: ClientConfig)
        ensures
            config@ == (ClientConfigView {
                primary_node: Some(endpoint@),
                ..self@.add_node(endpoint@)
            }),
    {
        proof {
            use_type_invariant(&self);
            self@.lemma_add_node(endpoint@);
        }
        let primary = endpoint.clone();
        let added = self.add_node(endpoint);
        proof {
            use_type_invariant(&added);
            assert(added@.node_set().contains(primary@));
        }
        ClientConfig { primary_node: Some(primary), ..added }
    }

    pub(crate) fn set_primary_pow_node(self, endpoint: String) -> (config: ClientConfig)
        ensures
            config@ == (ClientConfigView { primary_pow_node: Some(endpoint@), ..self@ }),
    {
        proof {
            use_type_invariant(&self);
        }
        ClientConfig { primary_pow_node: Some(endpoint), ..self }
    }

    pub(crate) fn set_network(self, network: String) -> (config: ClientConfig)
        ensures
            config@ == self@.with_network(network@),
    {
        proof {
            use_type_invariant(&self);
        }
        ClientConfig { network_id: Some(network), ..self }
    }

    pub(crate) fn set_node_sync_interval(self, interval: TimeSpan) -> (config: ClientConfig)
        requires
            !interval.spec_is_zero(),
        ensures
            Ok::<ClientConfigView, ConfigErrorView>(config@) == self@.with_node_sync_interval(
                interval,
            ),
    {
        proof {
            use_type_invariant(&self);
        }
        ClientConfig { node_sync_interval: Some(interval), ..self }
    }

    pub(crate) fn disable_node_sync(self) -> (config: ClientConfig)
        ensures
            config@ == self@.with_node_sync_disabled(),
    {
        proof {
            use_type_invariant(&self);
        }
        ClientConfig { node_sync_enabled: false, ..self }
    }

    pub(crate) fn disable_mqtt(self) -> (config: ClientConfig)
        ensures
            config@ == self@.with_mqtt_disabled(),
    {
        proof {
            use_type_invariant(&self);
        }
        ClientConfig { mqtt_enabled: false, ..self }
    }

    pub(crate) fn set_broker_options(self, options: BrokerConfig) -> (config: ClientConfig)
        ensures
            config@ == self@.with_broker_options(options),
    {
        proof {
            use_type_invariant(&self);
        }
        ClientConfig { broker_options: Some(options), ..self }
    }

    pub(crate) fn set_local_pow(self, local: bool) -> (config: ClientConfig)
        ensures
            config@ == self@.with_local_pow(local),
    {
        proof {
            use_type_invariant(&self);
        }
        ClientConfig { local_pow_enabled: Some(local), ..self }
    }

    pub(crate) fn set_request_timeout(self, timeout: TimeSpan) -> (config: ClientConfig)
        requires
            !timeout.spec_is_zero(),
        ensures
            Ok::<ClientConfigView, ConfigErrorView>(config@) == self@.with_request_timeout(
                timeout,
            ),
    {
        proof {
            use_type_invariant(&self);
        }
        ClientConfig { request_timeout: Some(timeout), ..self }
    }

    pub(crate) fn set_api_timeout(self, api: Api, timeout: TimeSpan) -> (config: ClientConfig)
        requires
            !timeout.spec_is_zero(),
        ensures
            Ok::<ClientConfigView, ConfigErrorView>(config@) == self@.with_api_timeout(
                api,
                timeout,
            ),
    {
        proof {
            use_type_invariant(&self);
        }
        let api_timeouts = self.api_timeouts.insert(api, timeout);
        ClientConfig { api_timeouts, ..self }
    }

    /// Checks what `build` asks of a configuration as a whole.
    pub(crate) fn check(&self, reported_network: Option<&str>) -> (checked: Result<
        (),
        ConfigError,
    >)
        ensures
            match self@.build(reported_network.deep_view()) {
                Ok(_) => checked is Ok,
                Err(error) => checked matches Err(e) && e@ == error,
            },
    {
        if self.nodes.len() == 0 {
            return Err(ConfigError::NoNodesConfigured);
        }
        if self.primary_node.is_some() {
            if let Some(configured) = &self.network_id {
                if let Some(reported) = reported_network {
                    let reported = reported.to_owned();
                    if *configured != reported {
                        return Err(
                            ConfigError::ConflictingNetwork {
                                configured: configured.clone(),
                                reported,
                            },
                        );
                    }
                }
            }
        }
        Ok(())
    }
}

/// Reads a pool of parsed addresses: the nodes that they name, or the first
/// address that names none.
pub fn pool_nodes(pool: &Vec<(String, Option<ParsedUrl>)>) -> (nodes: Result<
    Vec<String>,
    ConfigError,
>)
    ensures
        match nodes {
            Ok(endpoints) => pool_accepted(pool.deep_view()) && endpoints.deep_view()
                == pool_endpoints(pool.deep_view()),
            Err(error) => !pool_accepted(pool.deep_view()) && error@
                == ConfigErrorView::InvalidNodeUrl(
                pool.deep_view()[first_rejected(pool.deep_view())].0,
            ),
        },
{
    let ghost addresses = pool.deep_view();
    let mut endpoints: Vec<String> = Vec::new();
    let mut index: usize = 0;
    while index < pool.len()
        invariant
            index <= pool.len(),
            addresses == pool.deep_view(),
            endpoints.len() == index,
            forall|i: int| 0 <= i < index ==> endpoint_of((#[trigger] addresses[i]).1) is Some,
            forall|i: int|
                0 <= i < index ==> endpoints.deep_view()[i] == endpoint_of(addresses[i].1)->0,
        decreases pool.len() - index,
    {
        match accept(&pool[index].1) {
            Some(endpoint) => {
                let ghost before = endpoints.deep_view();
                endpoints.push(endpoint);
                assert(endpoints.deep_view() =~= before.push(endpoint@));
            },
            None => {
                proof {
                    assert(is_first_rejected(addresses, index as int));
                }
                return Err(ConfigError::InvalidNodeUrl(pool[index].0.clone()));
            },
        }
        index = index + 1;
    }
    Ok(endpoints)
}

/// A finished client configuration: one that `build` has let through.
#[derive(Debug)]
pub struct ClientOptions {
    options: ClientConfig,
}

impl View for ClientOptions {
    type V = ClientConfigView;

    closed spec fn view(&self) -> ClientConfigView {
        self.options@
    }
}

impl ClientOptions {
    #[verifier::type_invariant]
    spec fn inv(self) -> bool {
        self.options@.nodes.len() > 0
    }

    pub(crate) fn new(options: ClientConfig) -> (finished: ClientOptions)
        requires
            options@.nodes.len() > 0,
        ensures
            finished@ == options@,
    {
        ClientOptions { options }
    }

    /// The configuration, for reading.
    pub fn config(&self) -> (options: &ClientConfig)
        ensures
            options@ == self@,
            options@.nodes.len() > 0,
    {
        proof {
            use_type_invariant(self);
        }
        &self.options
    }

    /// Hands out the configuration itself. It is well formed and has at
    /// least one node.
    pub fn to_inner(self) -> (options: ClientConfig)
        ensures
            options@ == self@,
            options@.wf(),
            options@.nodes.len() > 0,
    {
        proof {
            use_type_invariant(&self);
            use_type_invariant(&self.options);
        }
        self.options
    }
}

} // verus!
