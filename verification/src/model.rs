//! The model of a client configuration: what it holds, and what each
//! setting makes of it.
//!
//! Everything here is mathematics. The setters of the builder are specified
//! as functions on [`ClientConfigView`]; a setter that can refuse its
//! argument gives a `Result`.

use crate::api::Api;
use crate::broker::BrokerConfig;
use crate::error::{ConfigErrorView, TimedSetting};
use crate::node_url::{endpoint_of, UrlRecord};
use crate::time::TimeSpan;
use vstd::prelude::*;

verus! {

/// A node address as it was given, together with what the URL parser made
/// of it.
pub type ParsedAddress = (Seq<char>, Option<UrlRecord>);

/// The content of a client configuration.
pub struct ClientConfigView {
    /// The nodes, in the order in which they were first added.
    pub nodes: Seq<Seq<char>>,
    pub primary_node: Option<Seq<char>>,
    pub primary_pow_node: Option<Seq<char>>,
    pub network_id: Option<Seq<char>>,
    pub node_sync_interval: Option<TimeSpan>,
    pub node_sync_enabled: bool,
    pub mqtt_enabled: bool,
    pub broker_options: Option<BrokerConfig>,
    pub local_pow_enabled: Option<bool>,
    pub request_timeout: Option<TimeSpan>,
    pub api_timeouts: Map<Api, TimeSpan>,
}

/// Whether every address of `pool` names a node.
pub open spec fn pool_accepted(pool: Seq<ParsedAddress>) -> bool {
    forall|i: int| 0 <= i < pool.len() ==> endpoint_of((#[trigger] pool[i]).1) is Some
}

/// Whether `index` is the place of the first address of `pool` that names
/// no node.
pub open spec fn is_first_rejected(pool: Seq<ParsedAddress>, index: int) -> bool {
    &&& 0 <= index < pool.len()
    &&& endpoint_of(pool[index].1) is None
    &&& forall|i: int| 0 <= i < index ==> endpoint_of((#[trigger] pool[i]).1) is Some
}

/// The place of the first address of `pool` that names no node, where there
/// is one.
pub open spec fn first_rejected(pool: Seq<ParsedAddress>) -> int {
    choose|index: int| is_first_rejected(pool, index)
}

/// The nodes that the addresses of an accepted pool name, in their order.
pub open spec fn pool_endpoints(pool: Seq<ParsedAddress>) -> Seq<Seq<char>> {
    Seq::new(pool.len(), |i: int| endpoint_of(pool[i].1)->0)
}

impl ClientConfigView {
    /// The configuration before anything is set: no nodes, node
    /// synchronisation and MQTT switched on, everything else left to the
    /// networking layer.
    pub open spec fn initial() -> ClientConfigView {
        ClientConfigView {
            nodes: Seq::empty(),
            primary_node: None,
            primary_pow_node: None,
            network_id: None,
            node_sync_interval: None,
            node_sync_enabled: true,
            mqtt_enabled: true,
            broker_options: None,
            local_pow_enabled: None,
            request_timeout: None,
            api_timeouts: Map::empty(),
        }
    }

    /// What holds of every configuration that the builder produces: no node
    /// is listed twice, the primary node is one of the nodes, and no
    /// interval or timeout is zero.
    pub open spec fn wf(self) -> bool {
        &&& self.nodes.no_duplicates()
        &&& self.primary_node matches Some(primary) ==> self.nodes.contains(primary)
        &&& self.node_sync_interval matches Some(interval) ==> !interval.spec_is_zero()
        &&& self.request_timeout matches Some(timeout) ==> !timeout.spec_is_zero()
        &&& forall|api: Api| #[trigger]
            self.api_timeouts.contains_key(api) ==> !self.api_timeouts[api].spec_is_zero()
    }

    /// The nodes as a set.
    pub open spec fn node_set(self) -> Set<Seq<char>> {
        self.nodes.to_set()
    }

    /// The configuration with `endpoint` among its nodes: appended where it
    /// is new, unchanged where it is already there.
    pub open spec fn add_node(self, endpoint: Seq<char>) -> ClientConfigView {
        if self.nodes.contains(endpoint) {
            self
        } else {
            ClientConfigView { nodes: self.nodes.push(endpoint), ..self }
        }
    }

    /// The configuration with each of `endpoints` added in turn.
    pub open spec fn add_nodes(self, endpoints: Seq<Seq<char>>) -> ClientConfigView
        decreases endpoints.len(),
    {
        if endpoints.len() == 0 {
            self
        } else {
            self.add_nodes(endpoints.drop_last()).add_node(endpoints.last())
        }
    }

    /// Adding a node: the address must name one.
    pub open spec fn with_node(self, input: Seq<char>, parsed: Option<UrlRecord>) -> Result<
        ClientConfigView,
        ConfigErrorView,
    > {
        match endpoint_of(parsed) {
            Some(endpoint) => Ok(self.add_node(endpoint)),
            None => Err(ConfigErrorView::InvalidNodeUrl(input)),
        }
    }

    /// Naming the primary node: it takes the place of any earlier one, and
    /// joins the nodes.
    pub open spec fn with_primary_node(
        self,
        input: Seq<char>,
        parsed: Option<UrlRecord>,
    ) -> Result<ClientConfigView, ConfigErrorView> {
        match endpoint_of(parsed) {
            Some(endpoint) => Ok(
                ClientConfigView { primary_node: Some(endpoint), ..self.add_node(endpoint) },
            ),
            None => Err(ConfigErrorView::InvalidNodeUrl(input)),
        }
    }

    /// Naming the node that does proof of work for the client: it takes the
    /// place of any earlier one. It does not join the nodes.
    pub open spec fn with_primary_pow_node(
        self,
        input: Seq<char>,
        parsed: Option<UrlRecord>,
    ) -> Result<ClientConfigView, ConfigErrorView> {
        match endpoint_of(parsed) {
            Some(endpoint) => Ok(ClientConfigView { primary_pow_node: Some(endpoint), ..self }),
            None => Err(ConfigErrorView::InvalidNodeUrl(input)),
        }
    }

    /// Adding a pool of nodes: all of them or none. Where an address names
    /// no node, the first such address is reported.
    pub open spec fn with_node_pool(self, pool: Seq<ParsedAddress>) -> Result<
        ClientConfigView,
        ConfigErrorView,
    > {
        if pool_accepted(pool) {
            Ok(self.add_nodes(pool_endpoints(pool)))
        } else {
            Err(ConfigErrorView::InvalidNodeUrl(pool[first_rejected(pool)].0))
        }
    }

    pub open spec fn with_network(self, network: Seq<char>) -> ClientConfigView {
        ClientConfigView { network_id: Some(network), ..self }
    }

    pub open spec fn with_node_sync_interval(self, interval: TimeSpan) -> Result<
        ClientConfigView,
        ConfigErrorView,
    > {
        if interval.spec_is_zero() {
            Err(ConfigErrorView::InvalidDuration(TimedSetting::NodeSyncInterval))
        } else {
            Ok(ClientConfigView { node_sync_interval: Some(interval), ..self })
        }
    }

    /// Switching node synchronisation off. An interval that was set stays
    /// on record.
    pub open spec fn with_node_sync_disabled(self) -> ClientConfigView {
        ClientConfigView { node_sync_enabled: false, ..self }
    }

    /// Switching MQTT off. Broker options that were set stay on record.
    pub open spec fn with_mqtt_disabled(self) -> ClientConfigView {
        ClientConfigView { mqtt_enabled: false, ..self }
    }

    pub open spec fn with_broker_options(self, options: BrokerConfig) -> ClientConfigView {
        ClientConfigView { broker_options: Some(options), ..self }
    }

    /// Attaching the options that a broker handle holds: a spent handle has
    /// none to give.
    pub open spec fn with_broker_handle(self, handle: Option<BrokerConfig>) -> Result<
        ClientConfigView,
        ConfigErrorView,
    > {
        match handle {
            Some(options) => Ok(self.with_broker_options(options)),
            None => Err(ConfigErrorView::AlreadyConsumed),
        }
    }

    pub open spec fn with_local_pow(self, local: bool) -> ClientConfigView {
        ClientConfigView { local_pow_enabled: Some(local), ..self }
    }

    pub open spec fn with_request_timeout(self, timeout: TimeSpan) -> Result<
        ClientConfigView,
        ConfigErrorView,
    > {
        if timeout.spec_is_zero() {
            Err(ConfigErrorView::InvalidDuration(TimedSetting::RequestTimeout))
        } else {
            Ok(ClientConfigView { request_timeout: Some(timeout), ..self })
        }
    }

    /// Setting the timeout of one API category, in place of any that it
    /// had.
    pub open spec fn with_api_timeout(self, api: Api, timeout: TimeSpan) -> Result<
        ClientConfigView,
        ConfigErrorView,
    > {
        if timeout.spec_is_zero() {
            Err(ConfigErrorView::InvalidDuration(TimedSetting::ApiTimeout(api)))
        } else {
            Ok(ClientConfigView { api_timeouts: self.api_timeouts.insert(api, timeout), ..self })
        }
    }

    /// Setting the timeout of the API category that `name` names.
    pub open spec fn with_named_api_timeout(self, name: Seq<char>, timeout: TimeSpan) -> Result<
        ClientConfigView,
        ConfigErrorView,
    > {
        if Api::is_name(name) {
            self.with_api_timeout(Api::named(name), timeout)
        } else {
            Err(ConfigErrorView::UnrecognizedApiCategory(name))
        }
    }

    /// Whether the network that the primary node reports contradicts the
    /// configured one. Without a primary node, a configured network or a
    /// report there is nothing to contradict.
    pub open spec fn network_conflict(self, reported: Option<Seq<char>>) -> bool {
        &&& self.primary_node is Some
        &&& self.network_id is Some
        &&& reported is Some
        &&& self.network_id != reported
    }

    /// Finishing: the configuration passes as it is, unless it has no node
    /// or its network is contradicted.
    pub open spec fn build(self, reported_network: Option<Seq<char>>) -> Result<
        ClientConfigView,
        ConfigErrorView,
    > {
        if self.nodes.len() == 0 {
            Err(ConfigErrorView::NoNodesConfigured)
        } else if self.network_conflict(reported_network) {
            Err(
                ConfigErrorView::ConflictingNetwork {
                    configured: self.network_id->0,
                    reported: reported_network->0,
                },
            )
        } else {
            Ok(self)
        }
    }

    /// A well-formed configuration has as many nodes as its list is long.
    pub proof fn lemma_node_count(self)
        requires
            self.wf(),
        ensures
            self.node_set().finite(),
            self.node_set().len() == self.nodes.len(),
    {
        vstd::seq_lib::seq_to_set_is_finite(self.nodes);
        self.nodes.unique_seq_to_set();
    }

    /// Adding a node keeps a configuration well formed. The node is among
    /// the nodes afterwards, every earlier node is still there, and nothing
    /// else has changed.
    pub proof fn lemma_add_node(self, endpoint: Seq<char>)
        requires
            self.wf(),
        ensures
            self.add_node(endpoint).wf(),
            self.add_node(endpoint).node_set() == self.node_set().insert(endpoint),
            self.add_node(endpoint) == (ClientConfigView {
                nodes: self.add_node(endpoint).nodes,
                ..self
            }),
    {
        let after = self.add_node(endpoint);
        if !self.nodes.contains(endpoint) {
            if let Some(primary) = self.primary_node {
                let at = choose|i: int| 0 <= i < self.nodes.len() && self.nodes[i] == primary;
                assert(after.nodes[at] == primary);
            }
            assert(after.nodes[self.nodes.len() as int] == endpoint);
        }
        assert forall|text: Seq<char>|
            after.node_set().contains(text) <==> self.node_set().insert(endpoint).contains(
                text,
            ) by {
            if self.nodes.contains(text) {
                let at = choose|i: int| 0 <= i < self.nodes.len() && self.nodes[i] == text;
                assert(after.nodes[at] == text);
            }
        }
    }

    /// Adding a list of nodes keeps a configuration well formed and changes
    /// nothing but the nodes, which afterwards are the earlier ones and
    /// those of the list.
    pub proof fn lemma_add_nodes(self, endpoints: Seq<Seq<char>>)
        requires
            self.wf(),
        ensures
            self.add_nodes(endpoints).wf(),
            self.add_nodes(endpoints).node_set() == self.node_set().union(endpoints.to_set()),
            self.add_nodes(endpoints) == (ClientConfigView {
                nodes: self.add_nodes(endpoints).nodes,
                ..self
            }),
        decreases endpoints.len(),
    {
        if endpoints.len() > 0 {
            let front = endpoints.drop_last();
            self.lemma_add_nodes(front);
            self.add_nodes(front).lemma_add_node(endpoints.last());
            assert forall|text: Seq<char>|
                endpoints.to_set().contains(text) <==> front.to_set().insert(
                    endpoints.last(),
                ).contains(text) by {
                if endpoints.contains(text) {
                    let at = choose|i: int| 0 <= i < endpoints.len() && endpoints[i] == text;
                    if at < front.len() {
                        assert(front[at] == text);
                    }
                }
            }
            assert(self.add_nodes(endpoints).node_set() =~= self.node_set().union(
                endpoints.to_set(),
            ));
        }
    }
}

} // verus!
