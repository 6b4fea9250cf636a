//! The robot system: node registry, scheduler bookkeeping, and
//! system-wide coordination.
//!
//! The registry owns every node. Adding a node enforces the capacity
//! limit and name uniqueness, attaches the message bus, initializes
//! the node, and schedules it exactly once if the system is already
//! running. The driving loop around the library calls `tick_node` on
//! each scheduled node at its interval; starting and stopping the
//! system schedule and unschedule every node and stop is best-effort
//! across the whole registry.

use vstd::prelude::*;

use crate::bus::MessageBus;
use crate::config::SystemConfig;
use crate::error::RobotError;
use crate::messages::BaseMessage;
use crate::node::{BaseNode, NodeId, NodeInfo, NodeState};
use crate::time::{Duration, Time};

verus! {

/// One registered node together with its scheduling flag, which
/// stands for the per-node driving task.
#[derive(Debug)]
pub struct NodeEntry {
    pub node: BaseNode,
    pub scheduled: bool,
}

/// Main robot system that manages all nodes.
#[derive(Debug)]
pub struct RobotSystem {
    pub config: SystemConfig,
    pub nodes: Vec<NodeEntry>,
    pub message_bus: MessageBus<BaseMessage>,
    pub is_running: bool,
    pub start_time: Time,
}

impl RobotSystem {
    /// Well-formed: a well-formed bus sized by the configuration,
    /// node ids and fully-qualified names unique, and only a running
    /// system holding scheduled nodes.
    pub open spec fn wf(&self) -> bool {
        &&& self.message_bus.wf()
        &&& self.message_bus.buffer_size == self.config.message_buffer_size
        &&& forall|i: int, j: int|
            0 <= i < j < self.nodes@.len() ==> (#[trigger] self.nodes@[i]).node.info.id != (
            #[trigger] self.nodes@[j]).node.info.id
        &&& forall|i: int, j: int|
            0 <= i < j < self.nodes@.len() ==> (#[trigger] self.nodes@[i]).node.info.spec_full_name()
                != (#[trigger] self.nodes@[j]).node.info.spec_full_name()
        &&& forall|i: int|
            0 <= i < self.nodes@.len() ==> ((#[trigger] self.nodes@[i]).scheduled
                ==> self.is_running)
        &&& self.start_time.sec >= 0
        &&& self.start_time.normalized()
    }

    /// Whether a node with this id is registered.
    pub open spec fn has_node(&self, id: NodeId) -> bool {
        exists|i: int| 0 <= i < self.nodes@.len() && (#[trigger] self.nodes@[i]).node.info.id == id
    }

    /// The registry index of the node with this id.
    pub open spec fn node_index(&self, id: NodeId) -> int {
        choose|i: int| 0 <= i < self.nodes@.len() && (#[trigger] self.nodes@[i]).node.info.id == id
    }

    /// The entry of the node with this id.
    pub open spec fn entry_at(&self, id: NodeId) -> NodeEntry {
        self.nodes@[self.node_index(id)]
    }

    /// Whether a node with this fully-qualified name is registered.
    pub open spec fn has_full_name(&self, name: Seq<char>) -> bool {
        exists|i: int|
            0 <= i < self.nodes@.len() && (#[trigger] self.nodes@[i]).node.info.spec_full_name()
                == name
    }

    /// Create a new robot system with the default configuration.
    pub fn new() -> (r: Result<Self, RobotError>)
        ensures
            r matches Ok(s) && s.wf() && s.nodes@.len() == 0 && !s.is_running,
    {
        Self::with_config(SystemConfig::default())
    }

    /// Create a new robot system with a custom configuration. The
    /// message buffer size becomes each topic channel's capacity, so
    /// it must accommodate at least one message.
    pub fn with_config(config: SystemConfig) -> (r: Result<Self, RobotError>)
        requires
            config.message_buffer_size >= 1,
        ensures
            r matches Ok(s) && s.wf() && s.nodes@.len() == 0 && !s.is_running && s.config == config,
    {
        let message_bus = match MessageBus::new(config.message_buffer_size) {
            Ok(b) => b,
            Err(e) => {
                return Err(e);
            },
        };
        Ok(
            RobotSystem {
                config,
                nodes: Vec::new(),
                message_bus,
                is_running: false,
                start_time: Time::now(),
            },
        )
    }

    /// Find the registry index of the node with this id.
    pub(crate) fn find_node(&self, id: NodeId) -> (r: Option<usize>)
        requires
            self.wf(),
        ensures
            match r {
                Some(i) => {
                    &&& i < self.nodes@.len()
                    &&& self.nodes@[i as int].node.info.id == id
                    &&& self.has_node(id)
                    &&& self.node_index(id) == i
                },
                None => !self.has_node(id),
            },
    {
        let n = self.nodes.len();
        let mut i: usize = 0;
        while i < n
            invariant
                self.wf(),
                n == self.nodes@.len(),
                i <= n,
                forall|j: int| 0 <= j < i ==> (#[trigger] self.nodes@[j]).node.info.id != id,
            decreases n - i,
        {
            if self.nodes[i].node.info.id.0 == id.0 {
                proof {
                    let ci = self.node_index(id);
                    if ci != i as int {
                        assert(self.nodes@[ci].node.info.id == id);
                    }
                }
                return Some(i);
            }
            i += 1;
        }
        None
    }

    /// Add a node to the system.
    ///
    /// Rejected with a capacity error when the registry is full, and
    /// with a conflict error when a registered node shares the
    /// fully-qualified name or (against all odds of the random draw)
    /// the id. On success the node has the bus attached, is
    /// initialized into `Running`, joins the registry, and is
    /// scheduled exactly when the system is already running.
    pub fn add_node(&mut self, node: BaseNode) -> (r: Result<NodeId, RobotError>)
        requires
            old(self).wf(),
        ensures
            final(self).wf(),
            final(self).config == old(self).config,
            final(self).is_running == old(self).is_running,
            final(self).message_bus == old(self).message_bus,
            final(self).start_time == old(self).start_time,
            old(self).nodes@.len() >= old(self).config.max_nodes ==> {
                &&& *final(self) == *old(self)
                &&& r matches Err(e) && e is Node && e.spec_message()
                    == "maximum number of nodes reached"@
            },
            old(self).nodes@.len() < old(self).config.max_nodes && old(self).has_full_name(
                node.info.spec_full_name(),
            ) ==> {
                &&& *final(self) == *old(self)
                &&& r matches Err(e) && e is Node && e.spec_message() == "node name already exists"@
            },
            old(self).nodes@.len() < old(self).config.max_nodes && !old(self).has_full_name(
                node.info.spec_full_name(),
            ) && old(self).has_node(node.info.id) ==> {
                &&& *final(self) == *old(self)
                &&& r matches Err(e) && e is Node && e.spec_message()
                    == "node id already registered"@
            },
            old(self).nodes@.len() < old(self).config.max_nodes && !old(self).has_full_name(
                node.info.spec_full_name(),
            ) && !old(self).has_node(node.info.id) ==> {
                &&& r matches Ok(id) && id == node.info.id
                &&& final(self).nodes@ == old(self).nodes@.push(
                    (NodeEntry {
                        node: (BaseNode {
                            state: NodeState::Running,
                            bus_attached: true,
                            ..node
                        }),
                        scheduled: old(self).is_running,
                    }),
                )
            },
    {
        if self.nodes.len() >= self.config.max_nodes {
            return Err(RobotError::Node(String::from_str("maximum number of nodes reached")));
        }
        let full = node.info.full_name();
        let n = self.nodes.len();
        let mut i: usize = 0;
        while i < n
            invariant
                *self == *old(self),
                self.wf(),
                n == self.nodes@.len(),
                i <= n,
                n < self.config.max_nodes,
                forall|j: int|
                    0 <= j < i ==> (#[trigger] self.nodes@[j]).node.info.spec_full_name()
                        != node.info.spec_full_name(),
                full@ == node.info.spec_full_name(),
            decreases n - i,
        {
            let existing = self.nodes[i].node.info.full_name();
            if crate::messages::str_eq(existing.as_str(), full.as_str()) {
                proof {
                    assert(self.nodes@[i as int].node.info.spec_full_name()
                        == node.info.spec_full_name());
                }
                return Err(RobotError::Node(String::from_str("node name already exists")));
            }
            i += 1;
        }
        match self.find_node(node.info.id) {
            Some(_) => {
                return Err(RobotError::Node(String::from_str("node id already registered")));
            },
            None => {},
        }
        let mut node = node;
        node.attach_message_bus();
        match node.initialize() {
            Ok(()) => {},
            Err(e) => {
                return Err(e);
            },
        }
        let node_id = node.info.id;
        let scheduled = self.is_running;
        let ghost pre = *self;
        self.nodes.push(NodeEntry { node, scheduled });
        proof {
            assert forall|a: int, b: int|
                0 <= a < b < self.nodes@.len() implies (#[trigger] self.nodes@[a]).node.info.id != (
            #[trigger] self.nodes@[b]).node.info.id by {
                if b < pre.nodes@.len() {
                    assert(self.nodes@[a] == pre.nodes@[a]);
                    assert(self.nodes@[b] == pre.nodes@[b]);
                } else {
                    assert(self.nodes@[a] == pre.nodes@[a]);
                    assert(!pre.has_node(node.info.id));
                }
            }
            assert forall|a: int, b: int|
                0 <= a < b < self.nodes@.len() implies (
            #[trigger] self.nodes@[a]).node.info.spec_full_name() != (
            #[trigger] self.nodes@[b]).node.info.spec_full_name() by {
                if b < pre.nodes@.len() {
                    assert(self.nodes@[a] == pre.nodes@[a]);
                    assert(self.nodes@[b] == pre.nodes@[b]);
                } else {
                    assert(self.nodes@[a] == pre.nodes@[a]);
                }
            }
        }
        Ok(node_id)
    }

    /// Remove a node from the system: unschedule it first, so that no
    /// concurrently driven tick can interleave, then stop it, clean it
    /// up, and drop it. Removing an unknown id is a no-op.
    pub fn remove_node(&mut self, node_id: NodeId) -> (r: Result<(), RobotError>)
        requires
            old(self).wf(),
        ensures
            final(self).wf(),
            r is Ok,
            final(self).config == old(self).config,
            final(self).is_running == old(self).is_running,
            final(self).message_bus == old(self).message_bus,
            final(self).start_time == old(self).start_time,
            !old(self).has_node(node_id) ==> *final(self) == *old(self),
            old(self).has_node(node_id) ==> final(self).nodes@ == old(self).nodes@.remove(
                old(self).node_index(node_id),
            ),
    {
        match self.find_node(node_id) {
            None => Ok(()),
            Some(i) => {
                let ghost pre = *self;
                let mut entry = self.nodes.remove(i);
                entry.scheduled = false;
                let _ = entry.node.stop();
                let _ = entry.node.cleanup();
                proof {
                    assert forall|a: int, b: int|
                        0 <= a < b < self.nodes@.len() implies (
                    #[trigger] self.nodes@[a]).node.info.id != (
                    #[trigger] self.nodes@[b]).node.info.id by {
                        if a < i as int {
                            assert(self.nodes@[a] == pre.nodes@[a]);
                        } else {
                            assert(self.nodes@[a] == pre.nodes@[a + 1]);
                        }
                        if b < i as int {
                            assert(self.nodes@[b] == pre.nodes@[b]);
                        } else {
                            assert(self.nodes@[b] == pre.nodes@[b + 1]);
                        }
                    }
                    assert forall|a: int, b: int|
                        0 <= a < b < self.nodes@.len() implies (
                    #[trigger] self.nodes@[a]).node.info.spec_full_name() != (
                    #[trigger] self.nodes@[b]).node.info.spec_full_name() by {
                        if a < i as int {
                            assert(self.nodes@[a] == pre.nodes@[a]);
                        } else {
                            assert(self.nodes@[a] == pre.nodes@[a + 1]);
                        }
                        if b < i as int {
                            assert(self.nodes@[b] == pre.nodes@[b]);
                        } else {
                            assert(self.nodes@[b] == pre.nodes@[b + 1]);
                        }
                    }
                    assert forall|j: int|
                        0 <= j < self.nodes@.len() && (#[trigger] self.nodes@[j]).scheduled
                        implies self.is_running by {
                        if j < i as int {
                            assert(self.nodes@[j] == pre.nodes@[j]);
                        } else {
                            assert(self.nodes@[j] == pre.nodes@[j + 1]);
                        }
                    }
                }
                Ok(())
            },
        }
    }

    /// Get one node's information.
    pub fn get_node_info(&self, node_id: NodeId) -> (r: Option<NodeInfo>)
        requires
            self.wf(),
        ensures
            r is Some <==> self.has_node(node_id),
            r matches Some(info) ==> info == self.entry_at(node_id).node.info,
    {
        match self.find_node(node_id) {
            Some(i) => Some(self.nodes[i].node.info.clone()),
            None => None,
        }
    }

    /// List all nodes' information, in registry order.
    pub fn list_nodes(&self) -> (r: Vec<NodeInfo>)
        ensures
            r@.len() == self.nodes@.len(),
            forall|i: int| 0 <= i < r@.len() ==> r@[i] == (#[trigger] self.nodes@[i]).node.info,
    {
        let n = self.nodes.len();
        let mut r: Vec<NodeInfo> = Vec::new();
        let mut i: usize = 0;
        while i < n
            invariant
                n == self.nodes@.len(),
                i <= n,
                r@.len() == i,
                forall|j: int| 0 <= j < i ==> r@[j] == (#[trigger] self.nodes@[j]).node.info,
            decreases n - i,
        {
            r.push(self.nodes[i].node.info.clone());
            i += 1;
        }
        r
    }

    /// Start the robot system: mark it running, then schedule every
    /// registered node. A node already scheduled stays scheduled; no
    /// node is scheduled twice, since scheduling is a flag per node.
    pub fn start(&mut self) -> (r: Result<(), RobotError>)
        requires
            old(self).wf(),
        ensures
            final(self).wf(),
            r is Ok,
            final(self).config == old(self).config,
            final(self).message_bus == old(self).message_bus,
            final(self).start_time == old(self).start_time,
            final(self).is_running,
            final(self).nodes@.len() == old(self).nodes@.len(),
            forall|i: int|
                0 <= i < old(self).nodes@.len() ==> #[trigger] final(self).nodes@[i] == (NodeEntry {
                    node: old(self).nodes@[i].node,
                    scheduled: true,
                }),
    {
        self.is_running = true;
        let n = self.nodes.len();
        let ghost pre = *self;
        let mut i: usize = 0;
        while i < n
            invariant
                n == self.nodes@.len(),
                i <= n,
                self.is_running,
                self.config == pre.config,
                self.message_bus == pre.message_bus,
                self.start_time == pre.start_time,
                forall|j: int|
                    0 <= j < i ==> #[trigger] self.nodes@[j] == (NodeEntry {
                        node: pre.nodes@[j].node,
                        scheduled: true,
                    }),
                forall|j: int| i <= j < n ==> #[trigger] self.nodes@[j] == pre.nodes@[j],
            decreases n - i,
        {
            self.nodes[i].scheduled = true;
            i += 1;
        }
        proof {
            assert forall|a: int, b: int|
                0 <= a < b < self.nodes@.len() implies (#[trigger] self.nodes@[a]).node.info.id != (
            #[trigger] self.nodes@[b]).node.info.id by {
                assert(self.nodes@[a].node == pre.nodes@[a].node);
                assert(self.nodes@[b].node == pre.nodes@[b].node);
            }
            assert forall|a: int, b: int|
                0 <= a < b < self.nodes@.len() implies (
            #[trigger] self.nodes@[a]).node.info.spec_full_name() != (
            #[trigger] self.nodes@[b]).node.info.spec_full_name() by {
                assert(self.nodes@[a].node == pre.nodes@[a].node);
                assert(self.nodes@[b].node == pre.nodes@[b].node);
            }
        }
        Ok(())
    }

    /// Stop the robot system: mark it not running, unschedule every
    /// node, then stop every node directly so each reaches a terminal
    /// state even if its driving task had already exited. Stopping is
    /// best-effort across the whole registry; the base node's stop
    /// cannot fail.
    pub fn stop(&mut self) -> (r: Result<(), RobotError>)
        requires
            old(self).wf(),
        ensures
            final(self).wf(),
            r is Ok,
            final(self).config == old(self).config,
            final(self).message_bus == old(self).message_bus,
            final(self).start_time == old(self).start_time,
            !final(self).is_running,
            final(self).nodes@.len() == old(self).nodes@.len(),
            forall|i: int|
                0 <= i < old(self).nodes@.len() ==> #[trigger] final(self).nodes@[i] == (NodeEntry {
                    node: (BaseNode {
                        state: NodeState::Stopped,
                        shutdown_requested: true,
                        ..old(self).nodes@[i].node
                    }),
                    scheduled: false,
                }),
    {
        self.is_running = false;
        let n = self.nodes.len();
        let ghost pre = *self;
        let mut i: usize = 0;
        while i < n
            invariant
                n == self.nodes@.len(),
                i <= n,
                !self.is_running,
                self.config == pre.config,
                self.message_bus == pre.message_bus,
                self.start_time == pre.start_time,
                forall|j: int|
                    0 <= j < i ==> #[trigger] self.nodes@[j] == (NodeEntry {
                        node: (BaseNode {
                            state: NodeState::Stopped,
                            shutdown_requested: true,
                            ..pre.nodes@[j].node
                        }),
                        scheduled: false,
                    }),
                forall|j: int| i <= j < n ==> #[trigger] self.nodes@[j] == pre.nodes@[j],
            decreases n - i,
        {
            self.nodes[i].scheduled = false;
            let _ = self.nodes[i].node.stop();
            i += 1;
        }
        proof {
            assert forall|a: int, b: int|
                0 <= a < b < self.nodes@.len() implies (#[trigger] self.nodes@[a]).node.info.id != (
            #[trigger] self.nodes@[b]).node.info.id by {
                assert(self.nodes@[a].node.info == pre.nodes@[a].node.info);
                assert(self.nodes@[b].node.info == pre.nodes@[b].node.info);
            }
            assert forall|a: int, b: int|
                0 <= a < b < self.nodes@.len() implies (
            #[trigger] self.nodes@[a]).node.info.spec_full_name() != (
            #[trigger] self.nodes@[b]).node.info.spec_full_name() by {
                assert(self.nodes@[a].node.info == pre.nodes@[a].node.info);
                assert(self.nodes@[b].node.info == pre.nodes@[b].node.info);
            }
        }
        Ok(())
    }

    /// Check if the system is running.
    pub fn is_running(&self) -> (r: bool)
        ensures
            r == self.is_running,
    {
        self.is_running
    }

    /// One scheduler tick for one node, as its driving task performs
    /// at each interval: when the node is registered, scheduled and
    /// `Running`, run its `spin_once` under exclusive access to that
    /// node alone; in every other case do nothing. A tick error would
    /// be logged and the loop continued, never ending the schedule;
    /// the base node's `spin_once` cannot fail and leaves the node as
    /// it was.
    pub fn tick_node(&mut self, node_id: NodeId) -> (r: Result<(), RobotError>)
        requires
            old(self).wf(),
        ensures
            final(self).wf(),
            r is Ok,
            final(self).config == old(self).config,
            final(self).is_running == old(self).is_running,
            final(self).message_bus == old(self).message_bus,
            final(self).start_time == old(self).start_time,
            final(self).nodes@ == old(self).nodes@,
    {
        match self.find_node(node_id) {
            None => Ok(()),
            Some(i) => {
                let ghost pre = *self;
                if self.nodes[i].scheduled && self.nodes[i].node.state() == NodeState::Running {
                    let _ = self.nodes[i].node.spin_once();
                }
                proof {
                    assert(self.nodes@ =~= pre.nodes@);
                }
                Ok(())
            },
        }
    }
}

/// A change that touches no node's identity, no scheduling flag, and
/// none of the surrounding system state preserves well-formedness.
pub proof fn lemma_wf_preserved(pre: RobotSystem, post: RobotSystem)
    requires
        pre.wf(),
        post.nodes@.len() == pre.nodes@.len(),
        forall|i: int|
            0 <= i < pre.nodes@.len() ==> (#[trigger] post.nodes@[i]).node.info == pre.nodes@[i].node.info,
        forall|i: int|
            0 <= i < pre.nodes@.len() ==> (#[trigger] post.nodes@[i]).scheduled
                == pre.nodes@[i].scheduled,
        post.is_running == pre.is_running,
        post.message_bus == pre.message_bus,
        post.config == pre.config,
        post.start_time == pre.start_time,
    ensures
        post.wf(),
{
    assert forall|i: int, j: int|
        0 <= i < j < post.nodes@.len() implies (#[trigger] post.nodes@[i]).node.info.id != (
    #[trigger] post.nodes@[j]).node.info.id by {
        assert(post.nodes@[i].node.info == pre.nodes@[i].node.info);
        assert(post.nodes@[j].node.info == pre.nodes@[j].node.info);
    }
    assert forall|i: int, j: int|
        0 <= i < j < post.nodes@.len() implies (
    #[trigger] post.nodes@[i]).node.info.spec_full_name() != (
    #[trigger] post.nodes@[j]).node.info.spec_full_name() by {
        assert(post.nodes@[i].node.info == pre.nodes@[i].node.info);
        assert(post.nodes@[j].node.info == pre.nodes@[j].node.info);
    }
    assert forall|i: int|
        0 <= i < post.nodes@.len() && (#[trigger] post.nodes@[i]).scheduled
        implies post.is_running by {
        assert(pre.nodes@[i].scheduled == post.nodes@[i].scheduled);
    }
}

/// System-wide statistics, computed synchronously from current state.
#[derive(Debug, Clone, Copy, PartialEq, Eq, Structural)]
pub struct SystemStats {
    pub total_nodes: usize,
    pub running_nodes: usize,
    pub stopped_nodes: usize,
    pub error_nodes: usize,
    pub total_messages: u64,
    pub uptime: Duration,
}

/// How many of these entries' nodes are in the given state.
pub open spec fn count_in_state(entries: Seq<NodeEntry>, state: NodeState) -> int
    decreases entries.len(),
{
    if entries.len() == 0 {
        0
    } else {
        count_in_state(entries.drop_last(), state) + if entries.last().node.state == state {
            1int
        } else {
            0int
        }
    }
}

/// The sum over these entries of messages received plus messages
/// sent.
pub open spec fn message_sum(entries: Seq<NodeEntry>) -> int
    decreases entries.len(),
{
    if entries.len() == 0 {
        0
    } else {
        message_sum(entries.drop_last()) + entries.last().node.stats.messages_received
            + entries.last().node.stats.messages_sent
    }
}

impl RobotSystem {
    /// Get system statistics: the node counts by state and the summed
    /// message counters (stopping at the top of the counter's range),
    /// plus the uptime since the system was created.
    pub fn get_system_stats(&self) -> (r: SystemStats)
        requires
            self.wf(),
        ensures
            r.total_nodes == self.nodes@.len(),
            r.running_nodes == count_in_state(self.nodes@, NodeState::Running),
            r.stopped_nodes == count_in_state(self.nodes@, NodeState::Stopped),
            r.error_nodes == count_in_state(self.nodes@, NodeState::Error),
            r.total_messages == if message_sum(self.nodes@) <= u64::MAX {
                message_sum(self.nodes@)
            } else {
                u64::MAX as int
            },
            r.uptime.normalized(),
    {
        let n = self.nodes.len();
        let mut running_nodes: usize = 0;
        let mut stopped_nodes: usize = 0;
        let mut error_nodes: usize = 0;
        let mut total_messages: u64 = 0;
        let mut i: usize = 0;
        while i < n
            invariant
                n == self.nodes@.len(),
                i <= n,
                running_nodes == count_in_state(self.nodes@.subrange(0, i as int), NodeState::Running),
                stopped_nodes == count_in_state(self.nodes@.subrange(0, i as int), NodeState::Stopped),
                error_nodes == count_in_state(self.nodes@.subrange(0, i as int), NodeState::Error),
                running_nodes <= i,
                stopped_nodes <= i,
                error_nodes <= i,
                total_messages == if message_sum(self.nodes@.subrange(0, i as int)) <= u64::MAX {
                    message_sum(self.nodes@.subrange(0, i as int))
                } else {
                    u64::MAX as int
                },
            decreases n - i,
        {
            proof {
                assert(self.nodes@.subrange(0, i + 1).drop_last() =~= self.nodes@.subrange(
                    0,
                    i as int,
                ));
                assert(self.nodes@.subrange(0, i + 1).last() == self.nodes@[i as int]);
            }
            let state = self.nodes[i].node.state();
            if state == NodeState::Running {
                running_nodes = running_nodes + 1;
            } else if state == NodeState::Stopped {
                stopped_nodes = stopped_nodes + 1;
            } else if state == NodeState::Error {
                error_nodes = error_nodes + 1;
            }
            let stats = self.nodes[i].node.get_stats();
            if total_messages <= u64::MAX - stats.messages_received {
                total_messages = total_messages + stats.messages_received;
            } else {
                total_messages = u64::MAX;
            }
            if total_messages <= u64::MAX - stats.messages_sent {
                total_messages = total_messages + stats.messages_sent;
            } else {
                total_messages = u64::MAX;
            }
            i += 1;
        }
        proof {
            assert(self.nodes@.subrange(0, n as int) =~= self.nodes@);
        }
        let now = Time::now();
        let uptime = match now.duration_since(self.start_time) {
            Ok(d) => d,
            Err(_) => Duration::new(0, 0),
        };
        SystemStats {
            total_nodes: n,
            running_nodes,
            stopped_nodes,
            error_nodes,
            total_messages,
            uptime,
        }
    }
}

} // verus!
