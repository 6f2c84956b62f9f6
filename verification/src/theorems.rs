//! What follows from the model of the builders, proved once for all
//! inputs.

use crate::api::Api;
use crate::broker::BrokerConfig;
use crate::error::ConfigErrorView;
use crate::handle::step;
use crate::model::{pool_accepted, pool_endpoints, ClientConfigView, ParsedAddress};
use crate::node_url::{endpoint_of, UrlRecord};
use crate::time::TimeSpan;
use vstd::prelude::*;

verus! {

/// Each broker setting changes its own field and no other, so a setting
/// made earlier in a chain is still there after any later one.
pub proof fn lemma_broker_setting_keeps_others(
    options: BrokerConfig,
    disconnect: bool,
    timeout: TimeSpan,
    use_ws: bool,
    port: u16,
    attempts: usize,
)
    ensures
        options.with_automatic_disconnect(disconnect) == (BrokerConfig {
            automatic_disconnect: Some(disconnect),
            ..options
        }),
        options.with_timeout(timeout) == (BrokerConfig { timeout: Some(timeout), ..options }),
        options.with_use_ws(use_ws) == (BrokerConfig { use_ws: Some(use_ws), ..options }),
        options.with_port(port) == (BrokerConfig { port: Some(port), ..options }),
        options.with_max_reconnection_attempts(attempts) == (BrokerConfig {
            max_reconnection_attempts: Some(attempts),
            ..options
        }),
{
}

/// Setting the timeout and then the port on a fresh broker handle gives a
/// successor that holds both, and nothing else. Both earlier handles are
/// spent.
pub proof fn lemma_broker_chain(timeout: TimeSpan, port: u16)
    ensures
        ({
            let first = step(
                Some(BrokerConfig::unset()),
                |c: BrokerConfig| Ok(c.with_timeout(timeout)),
            );
            let second = step(Some(first.outcome->Ok_0), |c: BrokerConfig| Ok(c.with_port(port)));
            &&& first.outcome is Ok
            &&& first.handle is None
            &&& second.handle is None
            &&& second.outcome == Ok::<BrokerConfig, ConfigErrorView>(
                BrokerConfig {
                    automatic_disconnect: None,
                    timeout: Some(timeout),
                    use_ws: None,
                    port: Some(port),
                    max_reconnection_attempts: None,
                },
            )
        }),
{
}

/// The initial configuration is well formed.
pub proof fn lemma_initial_wf()
    ensures
        ClientConfigView::initial().wf(),
{
}

/// Adding a node a second time changes nothing: the nodes are a set. Added
/// twice to the initial configuration, a node makes a set of one.
pub proof fn lemma_add_node_idempotent(config: ClientConfigView, endpoint: Seq<char>)
    ensures
        config.add_node(endpoint).add_node(endpoint) == config.add_node(endpoint),
        ClientConfigView::initial().add_node(endpoint).add_node(endpoint).nodes == seq![endpoint],
        ClientConfigView::initial().add_node(endpoint).add_node(endpoint).node_set().len() == 1,
{
    if !config.nodes.contains(endpoint) {
        assert(config.add_node(endpoint).nodes[config.nodes.len() as int] == endpoint);
    }
    let first = ClientConfigView::initial().add_node(endpoint);
    assert(first.nodes[0] == endpoint);
    ClientConfigView::initial().lemma_add_node(endpoint);
    first.lemma_node_count();
}

/// The same address, given twice to the setter, leaves the configuration
/// that giving it once leaves.
pub proof fn lemma_with_node_idempotent(
    config: ClientConfigView,
    input: Seq<char>,
    parsed: Option<UrlRecord>,
)
    requires
        config.with_node(input, parsed) is Ok,
    ensures
        config.with_node(input, parsed)->Ok_0.with_node(input, parsed) == config.with_node(
            input,
            parsed,
        ),
{
    lemma_add_node_idempotent(config, endpoint_of(parsed)->0);
}

/// Naming a second primary node replaces the first: the configuration
/// has the second as its one primary node, and both are among the nodes.
pub proof fn lemma_primary_node_replaced(
    config: ClientConfigView,
    first_input: Seq<char>,
    first: Option<UrlRecord>,
    second_input: Seq<char>,
    second: Option<UrlRecord>,
)
    requires
        config.wf(),
        endpoint_of(first) is Some,
        endpoint_of(second) is Some,
    ensures
        ({
            let one = config.with_primary_node(first_input, first);
            let two = one->Ok_0.with_primary_node(second_input, second);
            &&& one is Ok
            &&& one->Ok_0.primary_node == endpoint_of(first)
            &&& two is Ok
            &&& two->Ok_0.wf()
            &&& two->Ok_0.primary_node == endpoint_of(second)
            &&& two->Ok_0.nodes.contains(endpoint_of(first)->0)
            &&& two->Ok_0.nodes.contains(endpoint_of(second)->0)
            &&& two->Ok_0.node_set() == config.node_set().insert(endpoint_of(first)->0).insert(
                endpoint_of(second)->0,
            )
        }),
{
    let x = endpoint_of(first)->0;
    let y = endpoint_of(second)->0;
    config.lemma_add_node(x);
    let one = ClientConfigView { primary_node: Some(x), ..config.add_node(x) };
    assert(config.add_node(x).node_set().contains(x));
    one.lemma_add_node(y);
    assert(one.add_node(y).node_set().contains(y));
}

/// A configuration without nodes cannot be finished, whatever else was set;
/// naming a node for proof of work does not count as adding one.
pub proof fn lemma_build_needs_nodes(config: ClientConfigView, reported: Option<Seq<char>>)
    ensures
        config.nodes.len() == 0 <==> config.build(reported) == Err::<
            ClientConfigView,
            ConfigErrorView,
        >(ConfigErrorView::NoNodesConfigured),
        ClientConfigView::initial().build(reported) == Err::<ClientConfigView, ConfigErrorView>(
            ConfigErrorView::NoNodesConfigured,
        ),
        config.build(reported) matches Ok(finished) ==> finished == config,
{
}

/// An address that names no node is refused, and the refusal changes
/// neither the configuration nor the handle that holds it.
pub proof fn lemma_rejected_address_changes_nothing(
    config: ClientConfigView,
    input: Seq<char>,
    parsed: Option<UrlRecord>,
)
    requires
        endpoint_of(parsed) is None,
    ensures
        config.with_node(input, parsed) == Err::<ClientConfigView, ConfigErrorView>(
            ConfigErrorView::InvalidNodeUrl(input),
        ),
        step(Some(config), |c: ClientConfigView| c.with_node(input, parsed)).handle == Some(
            config,
        ),
{
}

/// A pool is added as a whole or not at all: with one address that names
/// no node, the step fails and the handle holds what it held.
pub proof fn lemma_pool_all_or_nothing(config: ClientConfigView, pool: Seq<ParsedAddress>)
    ensures
        config.with_node_pool(pool) is Ok <==> pool_accepted(pool),
        !pool_accepted(pool) ==> step(
            Some(config),
            |c: ClientConfigView| c.with_node_pool(pool),
        ).handle == Some(config),
{
}

/// Switching MQTT off does not stand in the way of broker options: a
/// configuration that could be finished can still be finished after MQTT was
/// switched off and options were attached, and then holds both facts.
pub proof fn lemma_mqtt_disabled_keeps_broker_options(
    config: ClientConfigView,
    options: BrokerConfig,
    reported: Option<Seq<char>>,
)
    requires
        config.build(reported) is Ok,
    ensures
        ({
            let built = config.with_mqtt_disabled().with_broker_options(options).build(reported);
            &&& built is Ok
            &&& built->Ok_0.mqtt_enabled == false
            &&& built->Ok_0.broker_options == Some(options)
        }),
{
}

/// Switching node synchronisation off wins over an interval, whichever
/// comes first, and the interval stays on record.
pub proof fn lemma_sync_disabled_keeps_interval(config: ClientConfigView, interval: TimeSpan)
    requires
        !interval.spec_is_zero(),
    ensures
        ({
            let set_first = config.with_node_sync_interval(interval)->Ok_0.with_node_sync_disabled();
            let set_last = config.with_node_sync_disabled().with_node_sync_interval(interval);
            &&& set_last == Ok::<ClientConfigView, ConfigErrorView>(set_first)
            &&& !set_first.node_sync_enabled
            &&& set_first.node_sync_interval == Some(interval)
        }),
{
}

/// Of two timeouts set for one API category the second stays. Set on the
/// initial configuration, they leave exactly one entry.
pub proof fn lemma_api_timeout_overwritten(
    config: ClientConfigView,
    api: Api,
    first: TimeSpan,
    second: TimeSpan,
)
    requires
        !first.spec_is_zero(),
        !second.spec_is_zero(),
    ensures
        ({
            let one = config.with_api_timeout(api, first);
            let two = one->Ok_0.with_api_timeout(api, second);
            &&& one is Ok
            &&& two is Ok
            &&& two->Ok_0.api_timeouts == config.api_timeouts.insert(api, second)
            &&& two == config.with_api_timeout(api, second)
        }),
        ({
            let start = ClientConfigView::initial();
            let two = start.with_api_timeout(api, first)->Ok_0.with_api_timeout(api, second)->Ok_0;
            &&& two.api_timeouts.dom() == set![api]
            &&& two.api_timeouts.dom().len() == 1
            &&& two.api_timeouts[api] == second
        }),
{
    let one = config.with_api_timeout(api, first)->Ok_0;
    assert(one.api_timeouts.insert(api, second) =~= config.api_timeouts.insert(api, second));
}

/// Whatever a setter accepts leaves a well-formed configuration, and what
/// `build` lets through is well formed and has a node.
pub proof fn lemma_setters_keep_wf(
    config: ClientConfigView,
    input: Seq<char>,
    parsed: Option<UrlRecord>,
    pool: Seq<ParsedAddress>,
    span: TimeSpan,
    api: Api,
    options: BrokerConfig,
    flag: bool,
)
    requires
        config.wf(),
    ensures
        config.with_node(input, parsed) matches Ok(next) ==> next.wf(),
        config.with_primary_node(input, parsed) matches Ok(next) ==> next.wf(),
        config.with_primary_pow_node(input, parsed) matches Ok(next) ==> next.wf(),
        config.with_node_pool(pool) matches Ok(next) ==> next.wf(),
        config.with_network(input).wf(),
        config.with_node_sync_interval(span) matches Ok(next) ==> next.wf(),
        config.with_node_sync_disabled().wf(),
        config.with_mqtt_disabled().wf(),
        config.with_broker_options(options).wf(),
        config.with_broker_handle(Some(options)) matches Ok(next) ==> next.wf(),
        config.with_local_pow(flag).wf(),
        config.with_request_timeout(span) matches Ok(next) ==> next.wf(),
        config.with_api_timeout(api, span) matches Ok(next) ==> next.wf(),
        config.with_named_api_timeout(input, span) matches Ok(next) ==> next.wf(),
        config.build(Some(input)) matches Ok(next) ==> next.wf() && next.nodes.len() > 0,
        config.build(None) matches Ok(next) ==> next.wf() && next.nodes.len() > 0,
{
    if let Some(endpoint) = endpoint_of(parsed) {
        config.lemma_add_node(endpoint);
        assert(config.add_node(endpoint).node_set().contains(endpoint));
    }
    if pool_accepted(pool) {
        config.lemma_add_nodes(pool_endpoints(pool));
    }
}

} // verus!
