use client_config::{
    Api, BrokerConfig, BrokerOptions, ClientBuilder, ConfigError, ParsedUrl, TimeSpan, TimedSetting,
};

const NODE_A: &str = "https://a.example:14265";
const NODE_B: &str = "https://b.example:14265";
const NODE_C: &str = "https://c.example:14265";

fn stored(node: &str) -> String {
    format!("{}/", node)
}

#[test]
fn fresh_builder_has_the_initial_configuration() {
    let mut builder = ClientBuilder::new();
    assert!(!builder.is_consumed());
    let mut builder = builder.with_node(NODE_A).unwrap();
    let config = builder.build().unwrap().to_inner();
    assert_eq!(config.nodes(), &vec![stored(NODE_A)]);
    assert_eq!(config.primary_node(), None);
    assert_eq!(config.primary_pow_node(), None);
    assert_eq!(config.network_id(), None);
    assert_eq!(config.node_sync_interval(), None);
    assert!(config.node_sync_enabled());
    assert!(config.mqtt_enabled());
    assert_eq!(config.broker_options(), None);
    assert_eq!(config.local_pow_enabled(), None);
    assert_eq!(config.request_timeout(), None);
    assert!(config.api_timeouts().entries().is_empty());
}

#[test]
fn default_builder_is_a_fresh_one() {
    let mut builder = ClientBuilder::default();
    assert!(!builder.is_consumed());
    assert_eq!(builder.build().unwrap_err(), ConfigError::NoNodesConfigured);
}

#[test]
fn builder_is_single_use() {
    let mut builder = ClientBuilder::new();
    let successor = builder.with_node(NODE_A);
    assert!(successor.is_ok());
    assert!(builder.is_consumed());
    assert_eq!(builder.with_node(NODE_B).unwrap_err(), ConfigError::AlreadyConsumed);
    assert_eq!(builder.with_primary_node(NODE_B).unwrap_err(), ConfigError::AlreadyConsumed);
    assert_eq!(builder.with_primary_pow_node(NODE_B).unwrap_err(), ConfigError::AlreadyConsumed);
    assert_eq!(
        builder.with_node_pool_urls(vec![String::from(NODE_B)]).unwrap_err(),
        ConfigError::AlreadyConsumed
    );
    assert_eq!(builder.with_network(String::from("main")).unwrap_err(), ConfigError::AlreadyConsumed);
    assert_eq!(
        builder.with_node_sync_interval(TimeSpan::from_secs(1)).unwrap_err(),
        ConfigError::AlreadyConsumed
    );
    assert_eq!(builder.with_node_sync_disabled().unwrap_err(), ConfigError::AlreadyConsumed);
    assert_eq!(builder.with_mqtt_disabled().unwrap_err(), ConfigError::AlreadyConsumed);
    assert_eq!(
        builder.with_mqtt_mqtt_broker_options(BrokerOptions::new()).unwrap_err(),
        ConfigError::AlreadyConsumed
    );
    assert_eq!(builder.with_local_pow(true).unwrap_err(), ConfigError::AlreadyConsumed);
    assert_eq!(
        builder.with_request_timeout(TimeSpan::from_secs(1)).unwrap_err(),
        ConfigError::AlreadyConsumed
    );
    assert_eq!(
        builder.with_api_timeout(Api::Quorum, TimeSpan::from_secs(1)).unwrap_err(),
        ConfigError::AlreadyConsumed
    );
    assert_eq!(
        builder.with_named_api_timeout("quorum", TimeSpan::from_secs(1)).unwrap_err(),
        ConfigError::AlreadyConsumed
    );
    assert_eq!(builder.build().unwrap_err(), ConfigError::AlreadyConsumed);
    assert!(successor.unwrap().build().is_ok());
}

#[test]
fn spent_handle_reports_itself_before_a_bad_argument() {
    let mut builder = ClientBuilder::new();
    let _successor = builder.with_local_pow(true).unwrap();
    assert_eq!(builder.with_node("not-a-url").unwrap_err(), ConfigError::AlreadyConsumed);
    assert_eq!(
        builder.with_request_timeout(TimeSpan::from_nanos(0)).unwrap_err(),
        ConfigError::AlreadyConsumed
    );
    assert_eq!(
        builder.with_named_api_timeout("teleport", TimeSpan::from_nanos(0)).unwrap_err(),
        ConfigError::AlreadyConsumed
    );
}

#[test]
fn node_added_twice_is_listed_once() {
    let mut builder = ClientBuilder::new();
    let mut builder = builder.with_node(NODE_A).unwrap();
    let mut builder = builder.with_node(NODE_A).unwrap();
    let config = builder.build().unwrap().to_inner();
    assert_eq!(config.nodes().len(), 1);
    assert_eq!(config.nodes(), &vec![stored(NODE_A)]);
}

#[test]
fn two_spellings_of_one_address_are_one_node() {
    let mut builder = ClientBuilder::new();
    let mut builder = builder.with_node("https://a.example:14265/").unwrap();
    let mut builder = builder.with_node("HTTPS://A.EXAMPLE:14265").unwrap();
    let config = builder.build().unwrap().to_inner();
    assert_eq!(config.nodes(), &vec![String::from("https://a.example:14265/")]);
    assert!(config.has_node("https://a.example:14265/"));
    assert!(!config.has_node("https://a.example:14265"));
}

#[test]
fn nodes_keep_the_order_of_first_addition() {
    let mut builder = ClientBuilder::new();
    let mut builder = builder.with_node(NODE_B).unwrap();
    let mut builder = builder.with_node(NODE_A).unwrap();
    let mut builder = builder.with_node(NODE_B).unwrap();
    let mut builder = builder.with_node(NODE_C).unwrap();
    let config = builder.build().unwrap().to_inner();
    assert_eq!(config.nodes(), &vec![stored(NODE_B), stored(NODE_A), stored(NODE_C)]);
}

#[test]
fn second_primary_node_replaces_the_first() {
    let mut builder = ClientBuilder::new();
    let mut builder = builder.with_primary_node(NODE_A).unwrap();
    let mut builder = builder.with_primary_node(NODE_B).unwrap();
    let config = builder.build().unwrap().to_inner();
    assert_eq!(config.primary_node(), Some(&stored(NODE_B)));
    assert_eq!(config.nodes(), &vec![stored(NODE_A), stored(NODE_B)]);
    assert!(config.has_node(&stored(NODE_A)));
}

#[test]
fn primary_node_that_is_a_node_already_is_not_added_again() {
    let mut builder = ClientBuilder::new();
    let mut builder = builder.with_node(NODE_A).unwrap();
    let mut builder = builder.with_primary_node(NODE_A).unwrap();
    let config = builder.build().unwrap().to_inner();
    assert_eq!(config.primary_node(), Some(&stored(NODE_A)));
    assert_eq!(config.nodes().len(), 1);
}

#[test]
fn primary_pow_node_is_replaced_and_is_no_node() {
    let mut builder = ClientBuilder::new();
    let mut builder = builder.with_primary_pow_node(NODE_A).unwrap();
    let mut builder = builder.with_primary_pow_node(NODE_B).unwrap();
    assert_eq!(builder.build().unwrap_err(), ConfigError::NoNodesConfigured);
    let mut builder = builder.with_node(NODE_C).unwrap();
    let config = builder.build().unwrap().to_inner();
    assert_eq!(config.primary_pow_node(), Some(&stored(NODE_B)));
    assert_eq!(config.nodes(), &vec![stored(NODE_C)]);
}

#[test]
fn empty_build_fails() {
    let mut builder = ClientBuilder::new();
    assert_eq!(builder.build().unwrap_err(), ConfigError::NoNodesConfigured);
    assert!(!builder.is_consumed());
    let mut builder = builder.with_node(NODE_A).unwrap();
    assert!(builder.build().is_ok());
    assert!(builder.is_consumed());
}

#[test]
fn malformed_url_is_rejected_without_mutation() {
    let mut builder = ClientBuilder::new();
    let mut builder = builder.with_node(NODE_A).unwrap();
    assert_eq!(
        builder.with_node("not-a-url").unwrap_err(),
        ConfigError::InvalidNodeUrl(String::from("not-a-url"))
    );
    assert!(!builder.is_consumed());
    assert_eq!(
        builder.with_primary_node("mailto:someone@a.example").unwrap_err(),
        ConfigError::InvalidNodeUrl(String::from("mailto:someone@a.example"))
    );
    assert_eq!(
        builder.with_primary_pow_node("").unwrap_err(),
        ConfigError::InvalidNodeUrl(String::new())
    );
    let config = builder.build().unwrap().to_inner();
    assert_eq!(config.nodes(), &vec![stored(NODE_A)]);
    assert_eq!(config.primary_node(), None);
    assert_eq!(config.primary_pow_node(), None);
}

#[test]
fn node_pool_is_added_as_a_whole() {
    let mut builder = ClientBuilder::new();
    let mut builder = builder.with_node(NODE_B).unwrap();
    let pool = vec![String::from(NODE_A), String::from(NODE_B), String::from(NODE_C), String::from(NODE_A)];
    let mut builder = builder.with_node_pool_urls(pool).unwrap();
    let config = builder.build().unwrap().to_inner();
    assert_eq!(config.nodes(), &vec![stored(NODE_B), stored(NODE_A), stored(NODE_C)]);
}

#[test]
fn node_pool_with_a_bad_entry_adds_nothing() {
    let mut builder = ClientBuilder::new();
    let pool = vec![
        String::from(NODE_A),
        String::from("first-bad"),
        String::from(NODE_B),
        String::from("second-bad"),
    ];
    assert_eq!(
        builder.with_node_pool_urls(pool).unwrap_err(),
        ConfigError::InvalidNodeUrl(String::from("first-bad"))
    );
    assert!(!builder.is_consumed());
    assert_eq!(builder.build().unwrap_err(), ConfigError::NoNodesConfigured);
}

#[test]
fn empty_node_pool_is_accepted_and_adds_nothing() {
    let mut builder = ClientBuilder::new();
    let mut builder = builder.with_node_pool_urls(Vec::new()).unwrap();
    assert_eq!(builder.build().unwrap_err(), ConfigError::NoNodesConfigured);
}

#[test]
fn parsed_addresses_are_taken_at_their_word() {
    let good = Some(ParsedUrl { text: String::from("x://node/"), has_host: true });
    let hostless = Some(ParsedUrl { text: String::from("x:node"), has_host: false });
    let mut builder = ClientBuilder::new();
    assert_eq!(
        builder.with_parsed_node("given", &hostless).unwrap_err(),
        ConfigError::InvalidNodeUrl(String::from("given"))
    );
    assert_eq!(
        builder.with_parsed_primary_node("given", &None).unwrap_err(),
        ConfigError::InvalidNodeUrl(String::from("given"))
    );
    assert_eq!(
        builder.with_parsed_primary_pow_node("given", &hostless).unwrap_err(),
        ConfigError::InvalidNodeUrl(String::from("given"))
    );
    let mut builder = builder.with_parsed_node("given", &good).unwrap();
    let pool = vec![
        (String::from("one"), Some(ParsedUrl { text: String::from("x://one/"), has_host: true })),
        (String::from("two"), None),
    ];
    assert_eq!(
        builder.with_parsed_node_pool(&pool).unwrap_err(),
        ConfigError::InvalidNodeUrl(String::from("two"))
    );
    let pool = vec![
        (String::from("one"), Some(ParsedUrl { text: String::from("x://one/"), has_host: true })),
        (String::from("given"), Some(ParsedUrl { text: String::from("x://node/"), has_host: true })),
    ];
    let mut builder = builder.with_parsed_node_pool(&pool).unwrap();
    let mut builder = builder.with_parsed_primary_pow_node("pow", &good).unwrap();
    let mut builder = builder.with_parsed_primary_node("one", &pool[0].1).unwrap();
    let config = builder.build().unwrap().to_inner();
    assert_eq!(config.nodes(), &vec![String::from("x://node/"), String::from("x://one/")]);
    assert_eq!(config.primary_node(), Some(&String::from("x://one/")));
    assert_eq!(config.primary_pow_node(), Some(&String::from("x://node/")));
}

#[test]
fn network_name_is_taken_as_it_is() {
    let mut builder = ClientBuilder::new();
    let mut builder = builder.with_node(NODE_A).unwrap();
    let mut builder = builder.with_network(String::from(" Main Net ")).unwrap();
    let mut builder = builder.with_network(String::new()).unwrap();
    let config = builder.build().unwrap().to_inner();
    assert_eq!(config.network_id(), Some(&String::new()));
}

#[test]
fn zero_durations_are_rejected() {
    let zero = TimeSpan::from_nanos(0);
    let mut builder = ClientBuilder::new();
    assert_eq!(
        builder.with_node_sync_interval(zero).unwrap_err(),
        ConfigError::InvalidDuration(TimedSetting::NodeSyncInterval)
    );
    assert_eq!(
        builder.with_request_timeout(zero).unwrap_err(),
        ConfigError::InvalidDuration(TimedSetting::RequestTimeout)
    );
    assert_eq!(
        builder.with_api_timeout(Api::Tips, zero).unwrap_err(),
        ConfigError::InvalidDuration(TimedSetting::ApiTimeout(Api::Tips))
    );
    assert_eq!(
        builder.with_named_api_timeout("tips", zero).unwrap_err(),
        ConfigError::InvalidDuration(TimedSetting::ApiTimeout(Api::Tips))
    );
    assert!(!builder.is_consumed());
    let mut builder = builder.with_node(NODE_A).unwrap();
    let config = builder.build().unwrap().to_inner();
    assert_eq!(config.node_sync_interval(), None);
    assert_eq!(config.request_timeout(), None);
    assert_eq!(config.api_timeout(Api::Tips), None);
}

#[test]
fn shortest_positive_durations_are_accepted() {
    let tick = TimeSpan::from_nanos(1);
    let mut builder = ClientBuilder::new();
    let mut builder = builder.with_node(NODE_A).unwrap();
    let mut builder = builder.with_node_sync_interval(tick).unwrap();
    let mut builder = builder.with_request_timeout(tick).unwrap();
    let mut builder = builder.with_api_timeout(Api::Balance, tick).unwrap();
    let config = builder.build().unwrap().to_inner();
    assert_eq!(config.node_sync_interval(), Some(tick));
    assert_eq!(config.request_timeout(), Some(tick));
    assert_eq!(config.api_timeout(Api::Balance), Some(tick));
}

#[test]
fn disabled_sync_keeps_the_interval_on_record() {
    let mut builder = ClientBuilder::new();
    let mut builder = builder.with_node(NODE_A).unwrap();
    let mut builder = builder.with_node_sync_interval(TimeSpan::from_secs(30)).unwrap();
    let mut builder = builder.with_node_sync_disabled().unwrap();
    let config = builder.build().unwrap().to_inner();
    assert!(!config.node_sync_enabled());
    assert_eq!(config.node_sync_interval(), Some(TimeSpan { nanos: 30_000_000_000 }));
}

#[test]
fn interval_set_after_disabling_does_not_enable_sync() {
    let mut builder = ClientBuilder::new();
    let mut builder = builder.with_node(NODE_A).unwrap();
    let mut builder = builder.with_node_sync_disabled().unwrap();
    let mut builder = builder.with_node_sync_interval(TimeSpan::from_secs(30)).unwrap();
    let config = builder.build().unwrap().to_inner();
    assert!(!config.node_sync_enabled());
    assert_eq!(config.node_sync_interval(), Some(TimeSpan { nanos: 30_000_000_000 }));
}

#[test]
fn disabled_mqtt_retains_broker_options() {
    let mut broker = BrokerOptions::new();
    let mut broker = broker.timeout(TimeSpan::from_secs(5)).unwrap();
    let broker = broker.port(14265).unwrap();
    let mut builder = ClientBuilder::new();
    let mut builder = builder.with_node(NODE_A).unwrap();
    let mut builder = builder.with_mqtt_disabled().unwrap();
    let mut builder = builder.with_mqtt_mqtt_broker_options(broker).unwrap();
    let config = builder.build().unwrap().to_inner();
    assert!(!config.mqtt_enabled());
    assert_eq!(
        config.broker_options(),
        Some(BrokerConfig {
            automatic_disconnect: None,
            timeout: Some(TimeSpan { nanos: 5_000_000_000 }),
            use_ws: None,
            port: Some(14265),
            max_reconnection_attempts: None,
        })
    );
}

#[test]
fn disabled_mqtt_and_broker_options_without_nodes_do_not_build() {
    let mut builder = ClientBuilder::new();
    let mut builder = builder.with_mqtt_disabled().unwrap();
    let mut builder = builder.with_mqtt_mqtt_broker_options(BrokerOptions::new()).unwrap();
    assert_eq!(builder.build().unwrap_err(), ConfigError::NoNodesConfigured);
}

#[test]
fn spent_broker_handle_has_no_options_to_give() {
    let mut broker = BrokerOptions::new();
    let _successor = broker.port(1883).unwrap();
    let mut builder = ClientBuilder::new();
    let mut builder = builder.with_node(NODE_A).unwrap();
    assert_eq!(
        builder.with_mqtt_mqtt_broker_options(broker).unwrap_err(),
        ConfigError::AlreadyConsumed
    );
    assert!(!builder.is_consumed());
    let config = builder.build().unwrap().to_inner();
    assert_eq!(config.broker_options(), None);
}

#[test]
fn local_pow_is_recorded() {
    let mut builder = ClientBuilder::new();
    let mut builder = builder.with_node(NODE_A).unwrap();
    let mut builder = builder.with_local_pow(true).unwrap();
    let mut builder = builder.with_local_pow(false).unwrap();
    let config = builder.build().unwrap().to_inner();
    assert_eq!(config.local_pow_enabled(), Some(false));
}

#[test]
fn api_timeout_is_overwritten() {
    let mut builder = ClientBuilder::new();
    let mut builder = builder.with_node(NODE_A).unwrap();
    let mut builder = builder.with_api_timeout(Api::Quorum, TimeSpan::from_secs(1)).unwrap();
    let mut builder = builder.with_api_timeout(Api::Quorum, TimeSpan::from_secs(2)).unwrap();
    let config = builder.build().unwrap().to_inner();
    assert_eq!(
        config.api_timeouts().entries(),
        vec![(Api::Quorum, TimeSpan { nanos: 2_000_000_000 })]
    );
    assert_eq!(config.api_timeout(Api::Quorum), Some(TimeSpan { nanos: 2_000_000_000 }));
    assert_eq!(config.api_timeout(Api::NodeInfo), None);
}

#[test]
fn api_timeouts_of_different_categories_live_side_by_side() {
    let mut builder = ClientBuilder::new();
    let mut builder = builder.with_node(NODE_A).unwrap();
    let mut builder = builder.with_api_timeout(Api::SendMessage, TimeSpan::from_secs(9)).unwrap();
    let mut builder = builder.with_named_api_timeout("node-info", TimeSpan::from_millis(1500)).unwrap();
    let config = builder.build().unwrap().to_inner();
    assert_eq!(
        config.api_timeouts().entries(),
        vec![
            (Api::NodeInfo, TimeSpan { nanos: 1_500_000_000 }),
            (Api::SendMessage, TimeSpan { nanos: 9_000_000_000 }),
        ]
    );
}

#[test]
fn unknown_api_category_is_rejected() {
    let mut builder = ClientBuilder::new();
    assert_eq!(
        builder.with_named_api_timeout("teleport", TimeSpan::from_secs(1)).unwrap_err(),
        ConfigError::UnrecognizedApiCategory(String::from("teleport"))
    );
    assert_eq!(
        builder.with_named_api_timeout("teleport", TimeSpan::from_nanos(0)).unwrap_err(),
        ConfigError::UnrecognizedApiCategory(String::from("teleport"))
    );
    assert!(!builder.is_consumed());
}

#[test]
fn reported_network_must_agree_with_the_configured_one() {
    let mut builder = ClientBuilder::new();
    let mut builder = builder.with_primary_node(NODE_A).unwrap();
    let mut builder = builder.with_network(String::from("mainnet")).unwrap();
    assert_eq!(
        builder.build_with_reported_network(Some("testnet")).unwrap_err(),
        ConfigError::ConflictingNetwork {
            configured: String::from("mainnet"),
            reported: String::from("testnet"),
        }
    );
    assert!(!builder.is_consumed());
    let finished = builder.build_with_reported_network(Some("mainnet")).unwrap();
    assert!(builder.is_consumed());
    assert_eq!(finished.config().network_id(), Some(&String::from("mainnet")));
}

#[test]
fn network_check_is_skipped_where_nothing_can_conflict() {
    let mut unreported = ClientBuilder::new();
    let mut unreported = unreported.with_primary_node(NODE_A).unwrap();
    let mut unreported = unreported.with_network(String::from("mainnet")).unwrap();
    assert!(unreported.build().is_ok());

    let mut unnamed = ClientBuilder::new();
    let mut unnamed = unnamed.with_primary_node(NODE_A).unwrap();
    assert!(unnamed.build_with_reported_network(Some("testnet")).is_ok());

    let mut no_primary = ClientBuilder::new();
    let mut no_primary = no_primary.with_node(NODE_A).unwrap();
    let mut no_primary = no_primary.with_network(String::from("mainnet")).unwrap();
    assert!(no_primary.build_with_reported_network(Some("testnet")).is_ok());
}

#[test]
fn missing_nodes_are_reported_before_a_network_conflict() {
    let mut builder = ClientBuilder::new();
    let mut builder = builder.with_network(String::from("mainnet")).unwrap();
    assert_eq!(
        builder.build_with_reported_network(Some("testnet")).unwrap_err(),
        ConfigError::NoNodesConfigured
    );
}

#[test]
fn finished_configuration_outlives_its_builder() {
    let finished = {
        let mut builder = ClientBuilder::new();
        let mut builder = builder.with_node(NODE_A).unwrap();
        builder.build().unwrap()
    };
    assert_eq!(finished.config().nodes().len(), 1);
    let config = finished.to_inner();
    assert_eq!(config.nodes(), &vec![stored(NODE_A)]);
}
