//! Core building blocks for a robotics runtime: node lifecycle management,
//! a topic-based publish/subscribe message bus, and action/service
//! communication patterns, with machine-checked contracts.

use vstd::prelude::*;

pub mod actions;
pub mod bus;
pub mod codec;
pub mod config;
pub mod error;
pub mod handle;
mod ids;
pub mod memory;
pub mod messages;
pub mod node;
pub mod nodes;
pub mod services;
pub mod system;
pub mod time;

pub use crate::error::RobotError;
pub use crate::config::SystemConfig;
pub use crate::node::{BaseNode, NodeId, NodeInfo, NodeState, NodeStats};
pub use crate::system::{RobotSystem, SystemStats};
pub use crate::handle::NodeHandle;
pub use crate::actions::{ActionClient, ActionGoalHandle, ActionGoalStatus, ActionServer};
pub use crate::services::{ServiceClient, ServiceRequestId, ServiceServer};
pub use crate::memory::{MemoryMonitor, MemoryPool, MemoryUsage, RingBuffer, StringInterner, TrackedBox};
pub use crate::bus::{MessageBus, MessageBusStats, Publisher, RecvError, Subscription, TopicInfo};
pub use crate::messages::{BaseMessage, MessageId, SystemStatus, Topic};
pub use crate::codec::DecodedMessage;

verus! {

/// Framework version.
pub const VERSION: &'static str = "0.1.0";

/// Framework name.
pub const NAME: &'static str = "robot_framework_rust";

} // verus!
