//! In-memory configuration of a broker process: the slice of it that this
//! core reads. These are plain owned values; loading them from and
//! persisting them to configuration files is the surrounding runtime's
//! business.

use vstd::prelude::*;

verus! {

/// How the broker identifies itself within its cluster.
pub struct BrokerIdentity {
    /// The name of the cluster this broker belongs to.
    pub broker_cluster_name: String,
    /// The name of this broker within the cluster.
    pub broker_name: String,
}

/// Broker-side configuration switches this core reads.
pub struct BrokerConfig {
    /// The broker's identity within its cluster.
    pub broker_identity: BrokerIdentity,
    /// Whether detailed (per-queue) statistics are collected.
    pub enable_detail_stat: bool,
    /// Whether an unknown subscription group is created on first use.
    pub auto_create_subscription_group: bool,
    /// Root directory under which the broker stores its state.
    pub store_path_root_dir: String,
}

/// Message-store configuration this core reads.
pub struct MessageStoreConfig {
    /// Root directory under which the message store keeps its files.
    pub store_path_root_dir: String,
}

} // verus!
