//! The broker controller: the root object that owns the broker's
//! configuration. The runtime wires I/O, networking and background tasks
//! around it.

use vstd::prelude::*;

use crate::config::BrokerConfig;
use crate::config::MessageStoreConfig;

verus! {

/// The root object of a broker process.
pub struct BrokerController {
    /// Broker-side configuration.
    pub broker_config: BrokerConfig,
    /// Message-store configuration.
    pub store_config: MessageStoreConfig,
}

impl BrokerController {
    /// Builds a controller around the given configuration.
    pub fn new(broker_config: BrokerConfig, store_config: MessageStoreConfig) -> (controller:
        BrokerController)
        ensures
            controller.broker_config == broker_config,
            controller.store_config == store_config,
    {
        BrokerController { broker_config, store_config }
    }

    /// Brings the broker up. The in-memory core has nothing to launch
    /// itself — background activities live in the surrounding runtime —
    /// so this changes nothing.
    pub fn start(&mut self)
        ensures
            *final(self) == *old(self),
    {
    }
}

} // verus!
