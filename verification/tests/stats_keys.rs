use rocketmq_core::config::BrokerConfig;
use rocketmq_core::config::BrokerIdentity;
use rocketmq_core::stats_keys::build_account_stat_key;
use rocketmq_core::stats_keys::build_account_stat_key_with_flowlimit;
use rocketmq_core::stats_keys::build_account_stats_key;
use rocketmq_core::stats_keys::build_account_stats_key_with_flowlimit;
use rocketmq_core::stats_keys::build_commercial_stats_key;
use rocketmq_core::stats_keys::split_account_stat_key;
use rocketmq_core::stats_keys::BrokerStatsManager;

#[test]
fn build_commercial_stats_key_creates_correct_key() {
    let key = build_commercial_stats_key("owner1", "topic1", "group1", "type1");
    assert_eq!(key, "owner1@topic1@group1@type1");
}

#[test]
fn build_account_stats_key_creates_correct_key() {
    let key = build_account_stats_key("parent1", "self1", "id1", "topic1", "group1", "type1");
    assert_eq!(key, "parent1@self1@id1@topic1@group1@type1");
}

#[test]
fn build_account_stats_key_with_flowlimit_creates_correct_key() {
    let key = build_account_stats_key_with_flowlimit(
        "parent1", "self1", "id1", "topic1", "group1", "type1", "limit1",
    );
    assert_eq!(key, "parent1@self1@id1@topic1@group1@type1@limit1");
}

#[test]
fn build_account_stat_key_creates_correct_key() {
    let key = build_account_stat_key("owner1", "id1", "topic1", "group1", "type1");
    assert_eq!(key, "owner1|id1|topic1|group1|type1");
}

#[test]
fn build_account_stat_key_with_flowlimit_creates_correct_key() {
    let key = build_account_stat_key_with_flowlimit(
        "owner1", "id1", "topic1", "group1", "type1", "limit1",
    );
    assert_eq!(key, "owner1|id1|topic1|group1|type1|limit1");
}

#[test]
fn split_account_stat_key_splits_correctly() {
    let parts = split_account_stat_key("part1|part2|part3|part4|part5");
    let expected: Vec<String> = vec![
        "part1".to_string(),
        "part2".to_string(),
        "part3".to_string(),
        "part4".to_string(),
        "part5".to_string(),
    ];
    assert_eq!(parts, expected);
}

#[test]
fn split_account_stat_key_keeps_empty_parts() {
    let parts = split_account_stat_key("a||b|");
    let expected: Vec<String> =
        vec!["a".to_string(), "".to_string(), "b".to_string(), "".to_string()];
    assert_eq!(parts, expected);
}

#[test]
fn split_account_stat_key_without_separator_is_whole_key() {
    let parts = split_account_stat_key("alone");
    assert_eq!(parts, vec!["alone".to_string()]);
}

#[test]
fn stats_manager_takes_its_shape_from_the_config() {
    let config = BrokerConfig {
        broker_identity: BrokerIdentity {
            broker_cluster_name: "DefaultCluster".to_string(),
            broker_name: "broker-a".to_string(),
        },
        enable_detail_stat: true,
        auto_create_subscription_group: false,
        store_path_root_dir: "/tmp/store".to_string(),
    };
    let manager = BrokerStatsManager::new(config);
    assert_eq!(manager.get_cluster_name(), "DefaultCluster");
    assert!(manager.get_enable_queue_stat());
    assert!(manager.get_stats_table().is_empty());
    assert_eq!(
        manager.get_moment_stats_item_set_fall_size().stats_name,
        "GROUP_GET_FALL_SIZE"
    );
    assert_eq!(
        manager.get_moment_stats_item_set_fall_time().stats_name,
        "GROUP_GET_FALL_TIME"
    );
    assert_eq!(manager.get_broker_puts_num_without_system_topic(), 0);
    assert_eq!(manager.get_broker_gets_num_without_system_topic(), 0);
    assert!(manager.broker_config.is_none());
}
