use robot_framework_rust::{
    ActionGoalStatus, ActionServer, RobotError, ServiceRequestId, ServiceServer,
};
use robot_framework_rust::actions::{NonPollingHandler, SimpleActionGoal, SimpleActionHandler};
use robot_framework_rust::services::{
    EchoParameterHandler, GetParameterRequest, GetParameterResponse, ServiceResponse,
};

fn goal(id: u128, name: &str, steps: u64) -> SimpleActionGoal {
    SimpleActionGoal { id, action_name: name.to_string(), duration_secs: steps }
}

#[test]
fn send_goal_requires_a_registered_action() {
    let mut server = ActionServer::new();
    let client = robot_framework_rust::ActionClient::new("missing");
    let r = client.send_goal(&mut server, goal(1, "missing", 1));
    match r {
        Err(RobotError::Action(msg)) => assert_eq!(msg, "action server not available"),
        other => panic!("expected an unavailable error, got {:?}", other),
    }
}

#[test]
fn cancel_is_observed_by_a_polling_handler() {
    let mut server = ActionServer::new();
    let client = server.register_action("move").unwrap();
    let handle = client.send_goal(&mut server, goal(1, "move", 5)).unwrap();
    assert_eq!(handle.status, ActionGoalStatus::Pending);
    handle.cancel(&mut server).unwrap();
    assert!(server.cancel_requested(handle.goal_index));
    let executed = server.execute_next("move", &SimpleActionHandler);
    assert_eq!(executed, Some(handle.goal_index));
    let mut handle = handle;
    let result = handle.get_result(&server).unwrap();
    assert!(!result.success);
    assert_eq!(result.message, "action was canceled");
}

#[test]
fn handler_that_never_polls_completes_despite_cancel() {
    let mut server = ActionServer::new();
    let client = server.register_action("move").unwrap();
    let mut handle = client.send_goal(&mut server, goal(2, "move", 3)).unwrap();
    handle.cancel(&mut server).unwrap();
    server.execute_next("move", &NonPollingHandler).unwrap();
    let result = handle.get_result(&server).unwrap();
    assert!(result.success);
    assert_eq!(result.message, "completed without polling");
}

#[test]
fn get_result_twice_reports_already_consumed() {
    let mut server = ActionServer::new();
    let client = server.register_action("move").unwrap();
    let mut handle = client.send_goal(&mut server, goal(3, "move", 2)).unwrap();
    // Before the executor ran, the result is not there yet.
    match handle.get_result(&server) {
        Err(RobotError::Action(msg)) => assert_eq!(msg, "result not ready"),
        other => panic!("expected not-ready, got {:?}", other),
    }
    server.execute_next("move", &SimpleActionHandler).unwrap();
    let first = handle.get_result(&server).unwrap();
    assert!(first.success);
    let second = handle.get_result(&server);
    match second {
        Err(RobotError::Action(msg)) => assert_eq!(msg, "result already consumed"),
        other => panic!("expected already-consumed, got {:?}", other),
    }
}

#[test]
fn feedback_streams_then_disconnects() {
    let mut server = ActionServer::new();
    let client = server.register_action("scan").unwrap();
    let mut handle = client.send_goal(&mut server, goal(4, "scan", 4)).unwrap();
    // Nothing yet: the goal has not run.
    assert!(matches!(handle.try_recv_feedback(&mut server), Ok(None)));
    server.execute_next("scan", &SimpleActionHandler).unwrap();
    let mut seen = Vec::new();
    while let Ok(Some(fb)) = handle.try_recv_feedback(&mut server) {
        seen.push(fb.progress_percent);
    }
    assert_eq!(seen, vec![0, 25, 50, 75]);
    // Queue drained and result delivered: the channel reads as closed.
    match handle.try_recv_feedback(&mut server) {
        Err(RobotError::Action(msg)) => assert_eq!(msg, "feedback channel disconnected"),
        other => panic!("expected disconnected, got {:?}", other),
    }
}

#[test]
fn goals_of_one_action_run_serially() {
    let mut server = ActionServer::new();
    let client = server.register_action("job").unwrap();
    let mut h1 = client.send_goal(&mut server, goal(5, "job", 1)).unwrap();
    let mut h2 = client.send_goal(&mut server, goal(6, "job", 1)).unwrap();
    // The first execution takes the older goal and runs it to
    // completion before the next is pulled.
    assert_eq!(server.execute_next("job", &SimpleActionHandler), Some(h1.goal_index));
    assert_eq!(server.execute_next("job", &SimpleActionHandler), Some(h2.goal_index));
    assert!(h1.get_result(&server).unwrap().success);
    assert!(h2.get_result(&server).unwrap().success);
    // Nothing left to run.
    assert_eq!(server.execute_next("job", &SimpleActionHandler), None);
}

fn echo_request(payload: &str) -> GetParameterRequest {
    GetParameterRequest {
        service_name: "echo".to_string(),
        request_id: ServiceRequestId::new(),
        parameter_name: payload.to_string(),
    }
}

#[test]
fn echo_service_round_trip() {
    let mut server: ServiceServer<GetParameterRequest, GetParameterResponse> =
        ServiceServer::new();
    server.register_service("echo").unwrap();
    let client = server.create_client("echo").unwrap();
    let response = client.call(&mut server, &EchoParameterHandler, echo_request("x")).unwrap();
    assert!(response.success());
    assert_eq!(response.parameter_value.as_deref(), Some("x"));
    assert!(response.error_message().is_none());
}

#[test]
fn unregistered_service_is_not_found() {
    let mut server: ServiceServer<GetParameterRequest, GetParameterResponse> =
        ServiceServer::new();
    server.register_service("echo").unwrap();
    match server.create_client("missing") {
        Err(RobotError::Service(msg)) => assert_eq!(msg, "service not found"),
        other => panic!("expected not-found, got {:?}", other),
    }
    // A client built by hand for an unregistered name cannot call
    // either.
    let rogue = robot_framework_rust::ServiceClient { service_name: "missing".to_string() };
    match rogue.call(&mut server, &EchoParameterHandler, echo_request("x")) {
        Err(RobotError::Service(msg)) => assert_eq!(msg, "service not available"),
        other => panic!("expected unavailable, got {:?}", other),
    }
}

#[test]
fn decomposed_service_flow_routes_by_ticket() {
    let mut server: ServiceServer<GetParameterRequest, GetParameterResponse> =
        ServiceServer::new();
    server.register_service("echo").unwrap();
    let client = server.create_client("echo").unwrap();
    let t1 = client.send_request(&mut server, echo_request("one")).unwrap();
    let t2 = client.send_request(&mut server, echo_request("two")).unwrap();
    assert_ne!(t1, t2);
    // Nothing delivered yet.
    assert!(server.take_response(t1).is_none());
    // The executor serves the queue in order.
    assert_eq!(server.handle_next("echo", &EchoParameterHandler), Some(t1));
    assert_eq!(server.handle_next("echo", &EchoParameterHandler), Some(t2));
    assert_eq!(server.handle_next("echo", &EchoParameterHandler), None);
    let r2 = server.take_response(t2).unwrap();
    assert_eq!(r2.parameter_value.as_deref(), Some("two"));
    let r1 = server.take_response(t1).unwrap();
    assert_eq!(r1.parameter_value.as_deref(), Some("one"));
    // Each response is delivered once.
    assert!(server.take_response(t1).is_none());
}

#[test]
fn list_services_reports_registrations() {
    let mut server: ServiceServer<GetParameterRequest, GetParameterResponse> =
        ServiceServer::new();
    server.register_service("alpha").unwrap();
    server.register_service("beta").unwrap();
    server.register_service("alpha").unwrap(); // idempotent
    let names = server.list_services();
    assert_eq!(names, vec!["alpha".to_string(), "beta".to_string()]);
    assert!(server.service_exists("alpha"));
    assert!(!server.service_exists("gamma"));
}
