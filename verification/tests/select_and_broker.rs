use rocketmq_core::broker::BrokerController;
use rocketmq_core::config::BrokerConfig;
use rocketmq_core::config::BrokerIdentity;
use rocketmq_core::config::MessageStoreConfig;
use rocketmq_core::select_result::DefaultMappedFile;
use rocketmq_core::select_result::SelectMappedBufferResult;

fn mapped_file(file_from_offset: u64, data: Vec<u8>, loaded: bool) -> DefaultMappedFile {
    DefaultMappedFile { file_from_offset, data, loaded }
}

#[test]
fn get_buffer_returns_the_selected_window() {
    let result = SelectMappedBufferResult {
        start_offset: 2,
        size: 3,
        mapped_file: Some(mapped_file(0, vec![10, 11, 12, 13, 14, 15], true)),
        is_in_cache: true,
    };
    assert_eq!(result.get_buffer(), vec![12, 13, 14]);
}

#[test]
fn get_buffer_of_an_empty_window_is_empty() {
    let result = SelectMappedBufferResult {
        start_offset: 4,
        size: 0,
        mapped_file: Some(mapped_file(0, vec![10, 11, 12, 13], true)),
        is_in_cache: false,
    };
    assert!(result.get_buffer().is_empty());
}

#[test]
fn a_result_without_a_file_counts_as_in_memory() {
    let result = SelectMappedBufferResult {
        start_offset: 0,
        size: 4,
        mapped_file: None,
        is_in_cache: false,
    };
    assert!(result.is_in_mem());
}

#[test]
fn residency_follows_the_mapping_and_the_range() {
    let loaded = SelectMappedBufferResult {
        start_offset: 102,
        size: 4,
        mapped_file: Some(mapped_file(100, vec![0; 8], true)),
        is_in_cache: false,
    };
    assert!(loaded.is_in_mem());

    let out_of_range = SelectMappedBufferResult {
        start_offset: 106,
        size: 4,
        mapped_file: Some(mapped_file(100, vec![0; 8], true)),
        is_in_cache: false,
    };
    assert!(!out_of_range.is_in_mem());

    let swapped_out = SelectMappedBufferResult {
        start_offset: 102,
        size: 4,
        mapped_file: Some(mapped_file(100, vec![0; 8], false)),
        is_in_cache: false,
    };
    assert!(!swapped_out.is_in_mem());
}

#[test]
fn the_controller_owns_its_configuration() {
    let broker_config = BrokerConfig {
        broker_identity: BrokerIdentity {
            broker_cluster_name: "DefaultCluster".to_string(),
            broker_name: "broker-a".to_string(),
        },
        enable_detail_stat: false,
        auto_create_subscription_group: true,
        store_path_root_dir: "/tmp/store".to_string(),
    };
    let store_config = MessageStoreConfig { store_path_root_dir: "/tmp/store".to_string() };
    let mut controller = BrokerController::new(broker_config, store_config);
    controller.start();
    assert_eq!(
        controller.broker_config.broker_identity.broker_cluster_name,
        "DefaultCluster"
    );
    assert_eq!(controller.store_config.store_path_root_dir, "/tmp/store");
}
