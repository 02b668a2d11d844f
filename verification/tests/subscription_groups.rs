use rocketmq_core::config::BrokerConfig;
use rocketmq_core::config::BrokerIdentity;
use rocketmq_core::subscription::is_sys_consumer_group;
use rocketmq_core::subscription::is_topic_or_group_illegal;
use rocketmq_core::subscription::DataVersion;
use rocketmq_core::subscription::SubscriptionGroupManager;
use rocketmq_core::subscription::SubscriptionGroupWrapper;

fn broker_config(auto_create: bool) -> BrokerConfig {
    BrokerConfig {
        broker_identity: BrokerIdentity {
            broker_cluster_name: "DefaultCluster".to_string(),
            broker_name: "broker-a".to_string(),
        },
        enable_detail_stat: false,
        auto_create_subscription_group: auto_create,
        store_path_root_dir: "/tmp/store".to_string(),
    }
}

#[test]
fn an_unknown_group_is_auto_created_once() {
    let mut manager = SubscriptionGroupManager::new(broker_config(true));
    let created = manager
        .find_subscription_group_config("group-x", 5)
        .expect("auto-creation is on");
    assert_eq!(created.group_name, "group-x");
    assert!(created.consume_enable);
    assert_eq!(created.retry_queue_nums, 1);
    assert_eq!(created.retry_max_times, 16);
    assert_eq!(manager.wrapper.get_data_version().counter, 1);
    assert_eq!(manager.wrapper.get_data_version().state_version, 5);

    // A second lookup finds the entry; nothing is created again.
    let found = manager
        .find_subscription_group_config("group-x", 9)
        .expect("the group now exists");
    assert_eq!(found.group_name, "group-x");
    assert_eq!(manager.wrapper.get_data_version().counter, 1);
    assert_eq!(manager.wrapper.subscription_group_table().len(), 1);
}

#[test]
fn without_auto_creation_an_unknown_group_stays_unknown() {
    let mut manager = SubscriptionGroupManager::new(broker_config(false));
    assert!(manager.find_subscription_group_config("group-x", 5).is_none());
    assert!(manager.wrapper.subscription_group_table().is_empty());
    assert_eq!(manager.wrapper.get_data_version().counter, 0);
}

#[test]
fn a_system_consumer_group_is_created_even_without_auto_creation() {
    let mut manager = SubscriptionGroupManager::new(broker_config(false));
    let created = manager
        .find_subscription_group_config("CID_RMQ_SYS_TRANS", 1)
        .expect("system groups are always creatable");
    assert_eq!(created.group_name, "CID_RMQ_SYS_TRANS");
}

#[test]
fn an_illegal_or_oversized_name_is_refused() {
    let mut manager = SubscriptionGroupManager::new(broker_config(true));
    assert!(manager.find_subscription_group_config("bad name", 1).is_none());
    assert!(manager.find_subscription_group_config("", 1).is_none());
    let oversized = "g".repeat(256);
    assert!(manager.find_subscription_group_config(&oversized, 1).is_none());
    assert!(manager.wrapper.subscription_group_table().is_empty());
}

#[test]
fn name_validation_accepts_the_permitted_characters() {
    assert!(!is_topic_or_group_illegal("Group_1-a%|B"));
    assert!(is_topic_or_group_illegal(""));
    assert!(is_topic_or_group_illegal("has space"));
    assert!(is_topic_or_group_illegal("dot.dot"));
}

#[test]
fn system_group_detection_goes_by_prefix() {
    assert!(is_sys_consumer_group("CID_RMQ_SYS_TRANS"));
    assert!(is_sys_consumer_group("CID_RMQ_SYS_"));
    assert!(!is_sys_consumer_group("CID_RMQ_SY"));
    assert!(!is_sys_consumer_group("group-x"));
}

#[test]
fn a_fresh_wrapper_is_empty_at_version_zero() {
    let wrapper = SubscriptionGroupWrapper::new();
    assert!(wrapper.subscription_group_table().is_empty());
    assert!(wrapper.forbidden_table().is_empty());
    assert_eq!(
        *wrapper.get_data_version(),
        DataVersion { state_version: 0, counter: 0 }
    );
}

fn named_config(name: &str) -> rocketmq_core::subscription::SubscriptionGroupConfig {
    let mut config = rocketmq_core::subscription::SubscriptionGroupConfig::default();
    config.set_group_name(name.to_string());
    config
}

#[test]
fn storing_a_group_replaces_in_place_or_appends() {
    let mut wrapper = SubscriptionGroupWrapper::new();
    wrapper.put_group_config("g1".to_string(), named_config("g1"));
    wrapper.put_group_config("g2".to_string(), named_config("g2"));
    assert_eq!(wrapper.subscription_group_table().len(), 2);
    let mut replacement = named_config("g1");
    replacement.consume_enable = false;
    wrapper.put_group_config("g1".to_string(), replacement);
    assert_eq!(wrapper.subscription_group_table().len(), 2);
    assert!(!wrapper.subscription_group_table()[0].1.consume_enable);
    assert_eq!(wrapper.subscription_group_table()[1].0, "g2");
}

#[test]
fn a_decoded_table_is_merged_entry_by_entry() {
    let mut wrapper = SubscriptionGroupWrapper::new();
    wrapper.put_group_config("g1".to_string(), named_config("g1"));
    let decoded = vec![
        ("g1".to_string(), named_config("g1-new")),
        ("g3".to_string(), named_config("g3")),
    ];
    let forbidden = vec![("g3".to_string(), vec![("topic-a".to_string(), 1)])];
    let version = DataVersion { state_version: 2, counter: 9 };
    wrapper.merge_from(decoded, forbidden, &version);
    assert_eq!(wrapper.subscription_group_table().len(), 2);
    assert_eq!(wrapper.subscription_group_table()[0].1.group_name, "g1-new");
    assert_eq!(wrapper.subscription_group_table()[1].0, "g3");
    assert_eq!(wrapper.forbidden_table().len(), 1);
    assert_eq!(*wrapper.get_data_version(), version);
}

#[test]
fn the_config_file_path_lies_under_the_store_root() {
    let manager = SubscriptionGroupManager::new(broker_config(true));
    assert_eq!(
        manager.config_file_path(),
        "/tmp/store/config/subscriptionGroup.json"
    );
}

#[test]
fn a_version_stamp_can_be_taken_over_and_advanced() {
    let mut version = DataVersion { state_version: 0, counter: 0 };
    let other = DataVersion { state_version: 3, counter: 7 };
    version.assign_new_one(&other);
    assert_eq!(version, other);
    version.next_version_with(4);
    assert_eq!(version, DataVersion { state_version: 4, counter: 8 });
}
