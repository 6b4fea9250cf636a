use robot_framework_rust::{
    BaseNode, NodeHandle, NodeState, RobotError, RobotSystem, SystemConfig,
};

fn small_config(max_nodes: usize) -> SystemConfig {
    SystemConfig {
        max_nodes,
        message_buffer_size: 16,
        heartbeat_interval_ms: 100,
        node_timeout_ms: 1000,
        log_level: "info".to_string(),
    }
}

#[test]
fn capacity_limit_rejects_one_past_the_maximum() {
    let mut system = RobotSystem::with_config(small_config(2)).unwrap();
    system.add_node(BaseNode::new("a".to_string(), "/ns".to_string())).unwrap();
    system.add_node(BaseNode::new("b".to_string(), "/ns".to_string())).unwrap();
    let r = system.add_node(BaseNode::new("c".to_string(), "/ns".to_string()));
    match r {
        Err(RobotError::Node(msg)) => assert_eq!(msg, "maximum number of nodes reached"),
        other => panic!("expected a capacity error, got {:?}", other),
    }
    assert_eq!(system.list_nodes().len(), 2);
}

#[test]
fn duplicate_full_name_rejected() {
    let mut system = RobotSystem::with_config(small_config(10)).unwrap();
    system.add_node(BaseNode::new("alpha".to_string(), "/ns".to_string())).unwrap();
    let r = system.add_node(BaseNode::new("alpha".to_string(), "/ns".to_string()));
    match r {
        Err(RobotError::Node(msg)) => assert_eq!(msg, "node name already exists"),
        other => panic!("expected a conflict error, got {:?}", other),
    }
    // The same leaf name under another namespace is a different full
    // name and is accepted.
    assert!(system.add_node(BaseNode::new("alpha".to_string(), "/other".to_string())).is_ok());
}

#[test]
fn full_names_derive_from_namespace() {
    let root = BaseNode::new("lidar".to_string(), "".to_string());
    assert_eq!(root.info.full_name(), "/lidar");
    let slash = BaseNode::new("lidar".to_string(), "/".to_string());
    assert_eq!(slash.info.full_name(), "/lidar");
    let nested = BaseNode::new("lidar".to_string(), "/sensors".to_string());
    assert_eq!(nested.info.full_name(), "/sensors/lidar");
}

#[test]
fn capacity_frees_up_after_removal() {
    // Start a system with room for one node; a second only fits after
    // the first is removed.
    let mut system = RobotSystem::with_config(small_config(1)).unwrap();
    system.start().unwrap();
    let a = system.add_node(BaseNode::new("a".to_string(), "/r".to_string())).unwrap();
    let b_first = system.add_node(BaseNode::new("b".to_string(), "/r".to_string()));
    match b_first {
        Err(RobotError::Node(msg)) => assert_eq!(msg, "maximum number of nodes reached"),
        other => panic!("expected a capacity error, got {:?}", other),
    }
    system.remove_node(a).unwrap();
    let b_second = system.add_node(BaseNode::new("b".to_string(), "/r".to_string()));
    assert!(b_second.is_ok());
    assert_eq!(system.list_nodes().len(), 1);
}

#[test]
fn lifecycle_transitions_and_paused_spin_is_a_no_op() {
    let mut node = BaseNode::new("worker".to_string(), "/ns".to_string());
    assert_eq!(node.state(), NodeState::Created);
    node.initialize().unwrap();
    assert_eq!(node.state(), NodeState::Running);
    node.pause().unwrap();
    assert_eq!(node.state(), NodeState::Paused);
    node.resume().unwrap();
    assert_eq!(node.state(), NodeState::Running);
    node.pause().unwrap();
    let stats_before = node.get_stats();
    node.spin_once().unwrap();
    assert_eq!(node.state(), NodeState::Paused);
    assert_eq!(node.get_stats(), stats_before);
    node.stop().unwrap();
    assert_eq!(node.state(), NodeState::Stopped);
    assert!(node.shutdown_requested());
}

#[test]
fn handle_drives_one_node_through_the_registry() {
    let mut system = RobotSystem::with_config(small_config(4)).unwrap();
    let id = system.add_node(BaseNode::new("arm".to_string(), "/robot".to_string())).unwrap();
    let handle = NodeHandle::new(id);
    assert_eq!(handle.id(), id);
    assert!(handle.is_running(&system)); // add_node initialized it into Running
    handle.pause(&mut system).unwrap();
    assert_eq!(handle.state(&system), Some(NodeState::Paused));
    handle.resume(&mut system).unwrap();
    assert!(handle.is_running(&system));
    handle.stop(&mut system).unwrap();
    assert!(handle.is_stopped(&system));
    let info = handle.info(&system).unwrap();
    assert_eq!(info.full_name(), "/robot/arm");
    // A handle to a removed node reports its absence.
    system.remove_node(id).unwrap();
    assert!(handle.info(&system).is_none());
    assert!(matches!(handle.pause(&mut system), Err(RobotError::Node(_))));
}

#[test]
fn system_start_and_stop_reach_every_node() {
    let mut system = RobotSystem::with_config(small_config(8)).unwrap();
    let a = system.add_node(BaseNode::new("a".to_string(), "/s".to_string())).unwrap();
    system.add_node(BaseNode::new("b".to_string(), "/s".to_string())).unwrap();
    assert!(!system.is_running());
    system.start().unwrap();
    assert!(system.is_running());
    system.tick_node(a).unwrap();
    system.stop().unwrap();
    assert!(!system.is_running());
    for info in system.list_nodes() {
        assert_eq!(info.state, NodeState::Created); // info snapshot keeps its creation state
    }
    let handle = NodeHandle::new(a);
    assert!(handle.is_stopped(&system));
}

#[test]
fn system_stats_count_states_and_messages() {
    let mut system = RobotSystem::with_config(small_config(8)).unwrap();
    let a = system.add_node(BaseNode::new("a".to_string(), "/s".to_string())).unwrap();
    let b = system.add_node(BaseNode::new("b".to_string(), "/s".to_string())).unwrap();
    system.add_node(BaseNode::new("c".to_string(), "/s".to_string())).unwrap();
    let ha = NodeHandle::new(a);
    ha.stop(&mut system).unwrap();
    // Record some traffic on node b.
    let hb = NodeHandle::new(b);
    let mut stats = hb.stats(&system).unwrap();
    stats.messages_received = 5;
    stats.messages_sent = 7;
    let i = system.list_nodes().iter().position(|n| n.id == b).unwrap();
    system.nodes[i].node.set_stats(stats);
    let s = system.get_system_stats();
    assert_eq!(s.total_nodes, 3);
    assert_eq!(s.running_nodes, 2);
    assert_eq!(s.stopped_nodes, 1);
    assert_eq!(s.error_nodes, 0);
    assert_eq!(s.total_messages, 12);
}

#[test]
fn node_state_labels() {
    assert_eq!(NodeState::Created.label(), "Created");
    assert_eq!(NodeState::Initializing.label(), "Initializing");
    assert_eq!(NodeState::Running.label(), "Running");
    assert_eq!(NodeState::Paused.label(), "Paused");
    assert_eq!(NodeState::Stopping.label(), "Stopping");
    assert_eq!(NodeState::Stopped.label(), "Stopped");
    assert_eq!(NodeState::Error.label(), "Error");
}

#[test]
fn node_ids_are_fresh_random_values() {
    let a = BaseNode::new("x".to_string(), "/n".to_string());
    let b = BaseNode::new("x".to_string(), "/n".to_string());
    // Random version-4 identifiers: never the all-zero value, and two
    // draws do not repeat.
    assert_ne!(a.info.id.0, 0);
    assert_ne!(a.info.id, b.info.id);
}
