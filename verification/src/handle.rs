//! Node handle for external node management.
//!
//! A handle holds only the node's lookup key; the registry keeps sole
//! ownership of the node. Every operation is handed the system by the
//! caller and acts through the registry's own guarded access.

use vstd::prelude::*;

use crate::error::RobotError;
use crate::node::{NodeId, NodeInfo, NodeState, NodeStats};
use crate::system::{lemma_wf_preserved, RobotSystem};

verus! {

/// Handle for managing a specific node without owning it.
#[derive(Debug, Clone, Copy, PartialEq, Eq, Structural)]
pub struct NodeHandle {
    pub node_id: NodeId,
}

impl NodeHandle {
    /// Create a new node handle.
    pub fn new(node_id: NodeId) -> (r: Self)
        ensures
            r.node_id == node_id,
    {
        NodeHandle { node_id }
    }

    /// The node id this handle refers to.
    pub fn id(&self) -> (r: NodeId)
        ensures
            r == self.node_id,
    {
        self.node_id
    }

    /// Get the node's information, while it is registered.
    pub fn info(&self, system: &RobotSystem) -> (r: Option<NodeInfo>)
        requires
            system.wf(),
        ensures
            r is Some <==> system.has_node(self.node_id),
            r matches Some(info) ==> info == system.entry_at(self.node_id).node.info,
    {
        system.get_node_info(self.node_id)
    }

    /// Get the node's current state, while it is registered.
    pub fn state(&self, system: &RobotSystem) -> (r: Option<NodeState>)
        requires
            system.wf(),
        ensures
            r is Some <==> system.has_node(self.node_id),
            r matches Some(s) ==> s == system.entry_at(self.node_id).node.state,
    {
        match system.get_node_info(self.node_id) {
            Some(_) => Some(system.nodes[self.index_of(system)].node.state()),
            None => None,
        }
    }

    /// Get the node's statistics, while it is registered.
    pub fn stats(&self, system: &RobotSystem) -> (r: Option<NodeStats>)
        requires
            system.wf(),
        ensures
            r is Some <==> system.has_node(self.node_id),
            r matches Some(s) ==> s == system.entry_at(self.node_id).node.stats,
    {
        match system.get_node_info(self.node_id) {
            Some(_) => Some(system.nodes[self.index_of(system)].node.get_stats()),
            None => None,
        }
    }

    /// Whether the node is registered and running.
    pub fn is_running(&self, system: &RobotSystem) -> (r: bool)
        requires
            system.wf(),
        ensures
            r == (system.has_node(self.node_id) && system.entry_at(self.node_id).node.state
                == NodeState::Running),
    {
        match self.state(system) {
            Some(s) => s == NodeState::Running,
            None => false,
        }
    }

    /// Whether the node is registered and has come to rest, in
    /// `Stopped` or `Error`.
    pub fn is_stopped(&self, system: &RobotSystem) -> (r: bool)
        requires
            system.wf(),
        ensures
            r == (system.has_node(self.node_id) && (system.entry_at(self.node_id).node.state
                == NodeState::Stopped || system.entry_at(self.node_id).node.state
                == NodeState::Error)),
    {
        match self.state(system) {
            Some(s) => s == NodeState::Stopped || s == NodeState::Error,
            None => false,
        }
    }

    /// Start the node, while it is registered.
    pub fn start(&self, system: &mut RobotSystem) -> (r: Result<(), RobotError>)
        requires
            old(system).wf(),
        ensures
            final(system).wf(),
            self.lifecycle_post(*old(system), *final(system), r, NodeState::Running),
    {
        self.with_node_start(system)
    }

    /// Stop the node, while it is registered.
    pub fn stop(&self, system: &mut RobotSystem) -> (r: Result<(), RobotError>)
        requires
            old(system).wf(),
        ensures
            final(system).wf(),
            self.lifecycle_post(*old(system), *final(system), r, NodeState::Stopped),
            old(system).has_node(self.node_id) ==> final(system).entry_at(
                self.node_id,
            ).node.shutdown_requested,
    {
        let i = match system.find_node(self.node_id) {
            Some(i) => i,
            None => {
                return Err(RobotError::Node(String::from_str("node not found")));
            },
        };
        let ghost pre = *system;
        let _ = system.nodes[i].node.stop();
        proof {
            self.reestablish(pre, *system, i as int);
        }
        Ok(())
    }

    /// Pause the node, while it is registered.
    pub fn pause(&self, system: &mut RobotSystem) -> (r: Result<(), RobotError>)
        requires
            old(system).wf(),
        ensures
            final(system).wf(),
            self.lifecycle_post(*old(system), *final(system), r, NodeState::Paused),
    {
        let i = match system.find_node(self.node_id) {
            Some(i) => i,
            None => {
                return Err(RobotError::Node(String::from_str("node not found")));
            },
        };
        let ghost pre = *system;
        let _ = system.nodes[i].node.pause();
        proof {
            self.reestablish(pre, *system, i as int);
        }
        Ok(())
    }

    /// Resume the node, while it is registered.
    pub fn resume(&self, system: &mut RobotSystem) -> (r: Result<(), RobotError>)
        requires
            old(system).wf(),
        ensures
            final(system).wf(),
            self.lifecycle_post(*old(system), *final(system), r, NodeState::Running),
    {
        self.with_node_start(system)
    }

    /// What every lifecycle operation through a handle guarantees:
    /// on an unregistered id it fails and changes nothing; on a
    /// registered one it succeeds, drives the node's state to
    /// `target`, and touches nothing else.
    pub open spec fn lifecycle_post(
        &self,
        pre: RobotSystem,
        post: RobotSystem,
        r: Result<(), RobotError>,
        target: NodeState,
    ) -> bool {
        &&& post.config == pre.config
        &&& post.is_running == pre.is_running
        &&& post.message_bus == pre.message_bus
        &&& post.start_time == pre.start_time
        &&& !pre.has_node(self.node_id) ==> post == pre && (r matches Err(e) && e is Node)
        &&& pre.has_node(self.node_id) ==> {
            let i = pre.node_index(self.node_id);
            &&& r is Ok
            &&& post.nodes@.len() == pre.nodes@.len()
            &&& post.nodes@[i].node.state == target
            &&& post.nodes@[i].node.info == pre.nodes@[i].node.info
            &&& post.nodes@[i].scheduled == pre.nodes@[i].scheduled
            &&& forall|j: int|
                0 <= j < pre.nodes@.len() && j != i ==> #[trigger] post.nodes@[j] == pre.nodes@[j]
        }
    }

    /// `start` and `resume` both drive the node to `Running`.
    fn with_node_start(&self, system: &mut RobotSystem) -> (r: Result<(), RobotError>)
        requires
            old(system).wf(),
        ensures
            final(system).wf(),
            self.lifecycle_post(*old(system), *final(system), r, NodeState::Running),
    {
        let i = match system.find_node(self.node_id) {
            Some(i) => i,
            None => {
                return Err(RobotError::Node(String::from_str("node not found")));
            },
        };
        let ghost pre = *system;
        let _ = system.nodes[i].node.start();
        proof {
            self.reestablish(pre, *system, i as int);
        }
        Ok(())
    }

    /// Find the node's registry index; spec-level helper for the
    /// read-only accessors.
    fn index_of(&self, system: &RobotSystem) -> (i: usize)
        requires
            system.wf(),
            system.has_node(self.node_id),
        ensures
            i == system.node_index(self.node_id),
            i < system.nodes@.len(),
    {
        match system.find_node(self.node_id) {
            Some(i) => i,
            None => {
                proof {
                    assert(false);
                }
                0
            },
        }
    }

    /// After a state change at one entry that kept its identity and
    /// scheduling, the system is still well-formed.
    proof fn reestablish(&self, pre: RobotSystem, post: RobotSystem, i: int)
        requires
            pre.wf(),
            post.nodes@.len() == pre.nodes@.len(),
            0 <= i < pre.nodes@.len(),
            post.nodes@[i].node.info == pre.nodes@[i].node.info,
            post.nodes@[i].scheduled == pre.nodes@[i].scheduled,
            forall|j: int|
                0 <= j < pre.nodes@.len() && j != i ==> #[trigger] post.nodes@[j] == pre.nodes@[j],
            post.is_running == pre.is_running,
            post.message_bus == pre.message_bus,
            post.config == pre.config,
            post.start_time == pre.start_time,
        ensures
            post.wf(),
    {
        assert forall|j: int|
            0 <= j < pre.nodes@.len() implies (#[trigger] post.nodes@[j]).node.info
            == pre.nodes@[j].node.info by {}
        assert forall|j: int|
            0 <= j < pre.nodes@.len() implies (#[trigger] post.nodes@[j]).scheduled
            == pre.nodes@[j].scheduled by {}
        lemma_wf_preserved(pre, post);
    }
}

} // verus!
