//! Configuration types for the robot framework.
//!
//! Loading and saving configuration files is I/O and lives with the
//! application around the library; the library only consumes the
//! resulting values.

use vstd::prelude::*;

verus! {

/// System-wide configuration, validated only by the add-node capacity
/// check.
#[derive(Debug)]
pub struct SystemConfig {
    pub max_nodes: usize,
    pub message_buffer_size: usize,
    pub heartbeat_interval_ms: u64,
    pub node_timeout_ms: u64,
    pub log_level: String,
}

impl Clone for SystemConfig {
    fn clone(&self) -> (res: Self)
        ensures
            res == *self,
    {
        SystemConfig {
            max_nodes: self.max_nodes,
            message_buffer_size: self.message_buffer_size,
            heartbeat_interval_ms: self.heartbeat_interval_ms,
            node_timeout_ms: self.node_timeout_ms,
            log_level: self.log_level.clone(),
        }
    }
}

impl Default for SystemConfig {
    /// Room for a thousand nodes, a thousand buffered messages per
    /// topic, a one-second heartbeat, a five-second node timeout, and
    /// informational logging.
    fn default() -> (r: Self)
        ensures
            r.max_nodes == 1000,
            r.message_buffer_size == 1000,
            r.heartbeat_interval_ms == 1000,
            r.node_timeout_ms == 5000,
            r.log_level@ == "info"@,
    {
        SystemConfig {
            max_nodes: 1000,
            message_buffer_size: 1000,
            heartbeat_interval_ms: 1000,
            node_timeout_ms: 5000,
            log_level: String::from_str("info"),
        }
    }
}

/// Reliability policy for a topic's delivery.
#[derive(Debug, Clone, Copy, PartialEq, Eq, Structural)]
pub enum ReliabilityPolicy {
    BestEffort,
    Reliable,
}

/// How long a topic's messages outlive their publication.
#[derive(Debug, Clone, Copy, PartialEq, Eq, Structural)]
pub enum DurabilityPolicy {
    Volatile,
    TransientLocal,
    Transient,
    Persistent,
}

/// How much history a topic keeps for late subscribers.
#[derive(Debug, Clone, Copy, PartialEq, Eq, Structural)]
pub enum HistoryPolicy {
    KeepLast,
    KeepAll,
}

/// Quality of service configuration for one topic.
#[derive(Debug, Clone, Copy, PartialEq, Eq, Structural)]
pub struct QosConfig {
    pub reliability: ReliabilityPolicy,
    pub durability: DurabilityPolicy,
    pub history: HistoryPolicy,
    pub depth: usize,
}

impl Default for QosConfig {
    /// Reliable, volatile, keeping the last ten messages.
    fn default() -> (r: Self)
        ensures
            r == (QosConfig {
                reliability: ReliabilityPolicy::Reliable,
                durability: DurabilityPolicy::Volatile,
                history: HistoryPolicy::KeepLast,
                depth: 10usize,
            }),
    {
        QosConfig {
            reliability: ReliabilityPolicy::Reliable,
            durability: DurabilityPolicy::Volatile,
            history: HistoryPolicy::KeepLast,
            depth: 10,
        }
    }
}

/// Per-topic configuration.
#[derive(Debug)]
pub struct TopicConfig {
    pub message_type: String,
    pub buffer_size: Option<usize>,
    pub qos: QosConfig,
}

impl Clone for TopicConfig {
    fn clone(&self) -> (res: Self)
        ensures
            res == *self,
    {
        TopicConfig {
            message_type: self.message_type.clone(),
            buffer_size: self.buffer_size,
            qos: self.qos,
        }
    }
}

impl Default for TopicConfig {
    /// An unspecified message type with the default quality of
    /// service.
    fn default() -> (r: Self)
        ensures
            r.message_type@ == "Unknown"@,
            r.buffer_size is None,
            r.qos == QosConfig::default_spec(),
    {
        TopicConfig {
            message_type: String::from_str("Unknown"),
            buffer_size: None,
            qos: QosConfig::default(),
        }
    }
}

impl QosConfig {
    /// The default quality of service, for use in contracts.
    pub open spec fn default_spec() -> QosConfig {
        QosConfig {
            reliability: ReliabilityPolicy::Reliable,
            durability: DurabilityPolicy::Volatile,
            history: HistoryPolicy::KeepLast,
            depth: 10usize,
        }
    }
}

} // verus!
