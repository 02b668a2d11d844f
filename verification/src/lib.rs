//! Runtime core of a message-broker platform: the request–reply correlation
//! subsystem (pending calls, the correlation registry, its completion
//! protocol and timeout sweeping), together with broker bookkeeping types
//! (stats keys, KV-config headers, mapped-buffer selection, subscription
//! group management).

pub mod broker;
pub mod config;
pub mod kv_header;
pub mod pending_call;
pub mod protocol;
pub mod registry;
pub mod select_result;
pub mod stats_keys;
pub mod strutil;
pub mod subscription;
