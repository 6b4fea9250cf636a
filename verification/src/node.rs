//! Node identity, lifecycle states, statistics, and the base node.
//!
//! Every node moves through the lifecycle state machine
//! `Created -> Initializing -> Running`, `Running <-> Paused`,
//! `Running/Paused -> Stopping -> Stopped`, with `Error` reachable
//! from any operation that fails. `BaseNode` is the reusable default
//! implementation holding the shared bookkeeping.

use vstd::prelude::*;

use crate::error::RobotError;
use crate::time::Time;

verus! {

/// Unique identifier for nodes, generated randomly at construction.
#[derive(Debug, Clone, Copy, PartialEq, Eq, Hash, Structural)]
pub struct NodeId(pub u128);

impl NodeId {
    /// Create a new random node ID.
    pub fn new() -> Self {
        NodeId(crate::ids::random_uuid_value())
    }
}

/// Node lifecycle states.
#[derive(Debug, Clone, Copy, PartialEq, Eq, Structural)]
pub enum NodeState {
    Created,
    Initializing,
    Running,
    Paused,
    Stopping,
    Stopped,
    Error,
}

impl NodeState {
    /// The state's name, as a sequence of characters.
    pub open spec fn spec_label(&self) -> Seq<char> {
        match *self {
            NodeState::Created => "Created"@,
            NodeState::Initializing => "Initializing"@,
            NodeState::Running => "Running"@,
            NodeState::Paused => "Paused"@,
            NodeState::Stopping => "Stopping"@,
            NodeState::Stopped => "Stopped"@,
            NodeState::Error => "Error"@,
        }
    }

    /// The state's name, for logs and reports.
    pub fn label(&self) -> (r: &'static str)
        ensures
            r@ == self.spec_label(),
    {
        match self {
            NodeState::Created => "Created",
            NodeState::Initializing => "Initializing",
            NodeState::Running => "Running",
            NodeState::Paused => "Paused",
            NodeState::Stopping => "Stopping",
            NodeState::Stopped => "Stopped",
            NodeState::Error => "Error",
        }
    }
}

/// Node information. Immutable after creation except for `state`.
#[derive(Debug)]
pub struct NodeInfo {
    pub id: NodeId,
    pub name: String,
    pub namespace: String,
    pub state: NodeState,
    pub start_time: Time,
}

impl Clone for NodeInfo {
    fn clone(&self) -> (res: Self)
        ensures
            res == *self,
    {
        NodeInfo {
            id: self.id,
            name: self.name.clone(),
            namespace: self.namespace.clone(),
            state: self.state,
            start_time: self.start_time,
        }
    }
}

impl NodeInfo {
    /// Create node information with a fresh random id, in the
    /// `Created` state, stamped with the current time.
    pub fn new(name: String, namespace: String) -> (r: Self)
        ensures
            r.name == name,
            r.namespace == namespace,
            r.state == NodeState::Created,
            r.start_time.normalized(),
    {
        NodeInfo {
            id: NodeId::new(),
            name,
            namespace,
            state: NodeState::Created,
            start_time: Time::now(),
        }
    }

    /// The fully qualified name: `"/" + name` when the namespace is
    /// empty or `"/"`, else `namespace + "/" + name`.
    pub open spec fn spec_full_name(&self) -> Seq<char> {
        if self.namespace@.len() == 0 || self.namespace@ == seq!['/'] {
            seq!['/'] + self.name@
        } else {
            self.namespace@ + seq!['/'] + self.name@
        }
    }

    /// Get the fully qualified node name.
    pub fn full_name(&self) -> (r: String)
        ensures
            r@ == self.spec_full_name(),
    {
        proof {
            reveal_strlit("/");
        }
        let ns_len = self.namespace.as_str().unicode_len();
        if ns_len == 0 || (ns_len == 1 && self.namespace.as_str().get_char(0) == '/') {
            proof {
                if ns_len == 1 {
                    assert(self.namespace@ =~= seq!['/']);
                }
                assert("/"@ =~= seq!['/']);
            }
            String::from_str("/").concat(self.name.as_str())
        } else {
            proof {
                assert(self.namespace@ != seq!['/']);
                assert("/"@ =~= seq!['/']);
            }
            self.namespace.clone().concat("/").concat(self.name.as_str())
        }
    }
}

/// Node execution statistics, updated only by the node itself.
///
/// All gauges are integers: execution times in microseconds, CPU usage
/// in whole percent, memory in bytes.
#[derive(Debug, Clone, Copy, PartialEq, Eq, Structural)]
pub struct NodeStats {
    pub messages_received: u64,
    pub messages_sent: u64,
    pub errors: u64,
    pub last_execution_time_us: u64,
    pub average_execution_time_us: u64,
    pub cpu_usage_percent: u64,
    pub memory_usage_bytes: u64,
}

impl Default for NodeStats {
    /// All counters and gauges at zero.
    fn default() -> (r: Self)
        ensures
            r == NodeStats::zeroed(),
    {
        NodeStats {
            messages_received: 0,
            messages_sent: 0,
            errors: 0,
            last_execution_time_us: 0,
            average_execution_time_us: 0,
            cpu_usage_percent: 0,
            memory_usage_bytes: 0,
        }
    }
}

impl NodeStats {
    /// The statistics record with every field at zero.
    pub open spec fn zeroed() -> NodeStats {
        NodeStats {
            messages_received: 0,
            messages_sent: 0,
            errors: 0,
            last_execution_time_us: 0,
            average_execution_time_us: 0,
            cpu_usage_percent: 0,
            memory_usage_bytes: 0,
        }
    }
}

/// Base node implementation providing the bookkeeping every node
/// needs: info storage, the lifecycle state, statistics, whether the
/// system has attached its message bus, and an internal shutdown
/// signal a node may raise to request its own early termination.
#[derive(Debug)]
pub struct BaseNode {
    pub info: NodeInfo,
    pub state: NodeState,
    pub stats: NodeStats,
    pub bus_attached: bool,
    pub shutdown_requested: bool,
}

impl BaseNode {
    /// Create a new base node in the `Created` state.
    pub fn new(name: String, namespace: String) -> (r: Self)
        ensures
            r.info.name == name,
            r.info.namespace == namespace,
            r.info.state == NodeState::Created,
            r.state == NodeState::Created,
            r.stats == NodeStats::zeroed(),
            !r.bus_attached,
            !r.shutdown_requested,
    {
        BaseNode {
            info: NodeInfo::new(name, namespace),
            state: NodeState::Created,
            stats: NodeStats::default(),
            bus_attached: false,
            shutdown_requested: false,
        }
    }

    /// Everything but the lifecycle state, unchanged.
    pub open spec fn same_but_state(pre: BaseNode, post: BaseNode) -> bool {
        &&& post.info == pre.info
        &&& post.stats == pre.stats
        &&& post.bus_attached == pre.bus_attached
        &&& post.shutdown_requested == pre.shutdown_requested
    }

    /// Get node information.
    pub fn info(&self) -> (r: &NodeInfo)
        ensures
            r == &self.info,
    {
        &self.info
    }

    /// Get the current node state.
    pub fn state(&self) -> (r: NodeState)
        ensures
            r == self.state,
    {
        self.state
    }

    /// Mark that the system has attached its message bus.
    pub fn attach_message_bus(&mut self)
        ensures
            final(self).bus_attached,
            final(self).info == old(self).info,
            final(self).state == old(self).state,
            final(self).stats == old(self).stats,
            final(self).shutdown_requested == old(self).shutdown_requested,
    {
        self.bus_attached = true;
    }

    /// Whether the system has attached its message bus.
    pub fn has_message_bus(&self) -> (r: bool)
        ensures
            r == self.bus_attached,
    {
        self.bus_attached
    }

    /// Update the node state.
    pub fn set_state(&mut self, state: NodeState)
        ensures
            final(self).state == state,
            BaseNode::same_but_state(*old(self), *final(self)),
    {
        self.state = state;
    }

    /// Raise the internal shutdown signal.
    pub fn request_shutdown(&mut self) -> (r: Result<(), RobotError>)
        ensures
            r is Ok,
            final(self).shutdown_requested,
            final(self).info == old(self).info,
            final(self).state == old(self).state,
            final(self).stats == old(self).stats,
            final(self).bus_attached == old(self).bus_attached,
    {
        self.shutdown_requested = true;
        Ok(())
    }

    /// Whether the internal shutdown signal has been raised.
    pub fn shutdown_requested(&self) -> (r: bool)
        ensures
            r == self.shutdown_requested,
    {
        self.shutdown_requested
    }

    /// Replace the statistics record.
    pub fn set_stats(&mut self, stats: NodeStats)
        ensures
            final(self).stats == stats,
            final(self).info == old(self).info,
            final(self).state == old(self).state,
            final(self).bus_attached == old(self).bus_attached,
            final(self).shutdown_requested == old(self).shutdown_requested,
    {
        self.stats = stats;
    }

    /// Get node statistics.
    pub fn get_stats(&self) -> (r: NodeStats)
        ensures
            r == self.stats,
    {
        self.stats
    }

    /// Initialize the node: `Created -> Initializing -> Running`.
    pub fn initialize(&mut self) -> (r: Result<(), RobotError>)
        ensures
            r is Ok,
            final(self).state == NodeState::Running,
            BaseNode::same_but_state(*old(self), *final(self)),
    {
        self.set_state(NodeState::Initializing);
        self.set_state(NodeState::Running);
        Ok(())
    }

    /// Start the node execution; a node not already running enters
    /// `Running`.
    pub fn start(&mut self) -> (r: Result<(), RobotError>)
        ensures
            r is Ok,
            final(self).state == NodeState::Running,
            BaseNode::same_but_state(*old(self), *final(self)),
    {
        if self.state != NodeState::Running {
            self.set_state(NodeState::Running);
        }
        Ok(())
    }

    /// Stop the node: `-> Stopping -> Stopped`, raising the internal
    /// shutdown signal on the way.
    pub fn stop(&mut self) -> (r: Result<(), RobotError>)
        ensures
            r is Ok,
            final(self).state == NodeState::Stopped,
            final(self).shutdown_requested,
            final(self).info == old(self).info,
            final(self).stats == old(self).stats,
            final(self).bus_attached == old(self).bus_attached,
    {
        self.set_state(NodeState::Stopping);
        let _ = self.request_shutdown();
        self.set_state(NodeState::Stopped);
        Ok(())
    }

    /// Pause the node execution.
    pub fn pause(&mut self) -> (r: Result<(), RobotError>)
        ensures
            r is Ok,
            final(self).state == NodeState::Paused,
            BaseNode::same_but_state(*old(self), *final(self)),
    {
        self.set_state(NodeState::Paused);
        Ok(())
    }

    /// Resume the node execution.
    pub fn resume(&mut self) -> (r: Result<(), RobotError>)
        ensures
            r is Ok,
            final(self).state == NodeState::Running,
            BaseNode::same_but_state(*old(self), *final(self)),
    {
        self.set_state(NodeState::Running);
        Ok(())
    }

    /// One scheduled execution step. A node that is not `Running` does
    /// nothing at all; the default implementation has no work of its
    /// own either, so the node is left exactly as it was.
    pub fn spin_once(&mut self) -> (r: Result<(), RobotError>)
        ensures
            r is Ok,
            *final(self) == *old(self),
    {
        if self.state != NodeState::Running {
            return Ok(());
        }
        Ok(())
    }

    /// Handle one incoming message. The base node ignores messages;
    /// a concrete node overrides the behavior around this.
    pub fn handle_message(&mut self, _message: &crate::messages::BaseMessage) -> (r: Result<
        (),
        RobotError,
    >)
        ensures
            r is Ok,
            *final(self) == *old(self),
    {
        Ok(())
    }

    /// Release resources when the node is destroyed. The base node
    /// holds none.
    pub fn cleanup(&mut self) -> (r: Result<(), RobotError>)
        ensures
            r is Ok,
            *final(self) == *old(self),
    {
        Ok(())
    }
}

} // verus!
