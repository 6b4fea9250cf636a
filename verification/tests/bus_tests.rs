use robot_framework_rust::{BaseMessage, MessageBus, RecvError, RobotError, Topic};

#[test]
fn publish_to_untouched_topic_fails() {
    let mut bus: MessageBus<u32> = MessageBus::new(8).unwrap();
    let r = bus.publish("never/seen", 1);
    assert!(matches!(r, Err(RobotError::Message(_))));
}

#[test]
fn publish_succeeds_after_subscribe() {
    let mut bus: MessageBus<u32> = MessageBus::new(8).unwrap();
    let _sub = bus.subscribe("sensor/temp").unwrap();
    assert!(bus.publish("sensor/temp", 1).is_ok());
}

#[test]
fn publish_succeeds_after_create_publisher() {
    let mut bus: MessageBus<u32> = MessageBus::new(8).unwrap();
    let publisher = bus.create_publisher("cmd/vel").unwrap();
    assert!(publisher.publish(&mut bus, 42).is_ok());
    assert!(bus.publish("cmd/vel", 43).is_ok());
}

#[test]
fn subscription_after_send_never_receives_it() {
    let mut bus: MessageBus<u32> = MessageBus::new(8).unwrap();
    let publisher = bus.create_publisher("events").unwrap();
    publisher.publish(&mut bus, 7).unwrap();
    // Created after message 7 went out: no replay.
    let mut late = bus.subscribe("events").unwrap();
    assert_eq!(late.try_recv(&bus), Err(RecvError::Empty));
    publisher.publish(&mut bus, 8).unwrap();
    assert_eq!(late.try_recv(&bus), Ok(&8));
}

#[test]
fn subscription_before_send_receives_it() {
    let mut bus: MessageBus<u32> = MessageBus::new(8).unwrap();
    let mut early = bus.subscribe("events").unwrap();
    let publisher = bus.create_publisher("events").unwrap();
    publisher.publish(&mut bus, 7).unwrap();
    assert_eq!(early.try_recv(&bus), Ok(&7));
    assert_eq!(early.try_recv(&bus), Err(RecvError::Empty));
}

#[test]
fn every_subscriber_receives_every_later_message() {
    let mut bus: MessageBus<u32> = MessageBus::new(8).unwrap();
    let mut first = bus.subscribe("multi").unwrap();
    let mut second = bus.subscribe("multi").unwrap();
    bus.publish("multi", 1).unwrap();
    bus.publish("multi", 2).unwrap();
    assert_eq!(first.try_recv(&bus), Ok(&1));
    assert_eq!(second.try_recv(&bus), Ok(&1));
    assert_eq!(first.try_recv(&bus), Ok(&2));
    assert_eq!(second.try_recv(&bus), Ok(&2));
}

#[test]
fn slow_subscriber_observes_lag_not_loss_of_order() {
    let mut bus: MessageBus<u32> = MessageBus::new(2).unwrap();
    let mut sub = bus.subscribe("firehose").unwrap();
    for v in 0..4 {
        bus.publish("firehose", v).unwrap();
    }
    // Four messages behind with capacity two: two were missed.
    assert_eq!(sub.try_recv(&bus), Err(RecvError::Lagged(2)));
    assert_eq!(sub.try_recv(&bus), Ok(&2));
    assert_eq!(sub.try_recv(&bus), Ok(&3));
    assert_eq!(sub.try_recv(&bus), Err(RecvError::Empty));
}

#[test]
fn removed_topic_closes_subscriptions() {
    let mut bus: MessageBus<u32> = MessageBus::new(4).unwrap();
    let mut sub = bus.subscribe("doomed").unwrap();
    bus.publish("doomed", 5).unwrap();
    bus.remove_topic("doomed").unwrap();
    assert_eq!(sub.try_recv(&bus), Err(RecvError::Closed));
    // Recreating the topic makes a fresh channel; the old subscription
    // stays closed.
    let _new_sub = bus.subscribe("doomed").unwrap();
    assert_eq!(sub.try_recv(&bus), Err(RecvError::Closed));
}

#[test]
fn clear_closes_everything() {
    let mut bus: MessageBus<u32> = MessageBus::new(4).unwrap();
    let mut sub = bus.subscribe("a").unwrap();
    bus.subscribe("b").unwrap();
    bus.clear().unwrap();
    assert_eq!(bus.list_topics().len(), 0);
    assert_eq!(sub.try_recv(&bus), Err(RecvError::Closed));
}

#[test]
fn subscriber_counts_follow_handles() {
    let mut bus: MessageBus<u32> = MessageBus::new(4).unwrap();
    assert_eq!(bus.subscriber_count("t"), 0);
    let s1 = bus.subscribe("t").unwrap();
    let _s2 = bus.subscribe("t").unwrap();
    assert_eq!(bus.subscriber_count("t"), 2);
    s1.unsubscribe(&mut bus);
    assert_eq!(bus.subscriber_count("t"), 1);
}

#[test]
fn bus_stats_sum_topics_and_subscribers() {
    let mut bus: MessageBus<u32> = MessageBus::new(16).unwrap();
    bus.subscribe("one").unwrap();
    bus.subscribe("two").unwrap();
    bus.subscribe("two").unwrap();
    bus.create_publisher("three").unwrap();
    let stats = bus.get_stats();
    assert_eq!(stats.total_topics, 3);
    assert_eq!(stats.total_subscribers, 3);
    assert_eq!(stats.topics_info.len(), 3);
    assert!(stats.topics_info.iter().all(|t| t.buffer_size == 16));
}

#[test]
fn base_messages_travel_whole() {
    let mut bus: MessageBus<BaseMessage> = MessageBus::new(4).unwrap();
    let mut sub = bus.subscribe("status").unwrap();
    let msg = BaseMessage::new("/system/monitor".to_string(), "status".to_string());
    let id = msg.id;
    bus.publish("status", msg).unwrap();
    let got = sub.try_recv(&bus).unwrap();
    assert_eq!(got.id, id);
    assert_eq!(got.source, "/system/monitor");
    assert_eq!(got.topic, "status");
}

#[test]
fn topic_wildcard_matching() {
    let t = Topic::new("sensor/temperature");
    assert!(t.matches("*"));
    assert!(t.matches("sensor/*"));
    assert!(t.matches("*/temperature"));
    assert!(t.matches("sensor/temperature"));
    assert!(!t.matches("sensor/pressure"));
    assert!(!t.matches("motor/*"));
    // A pattern with two stars only matches itself.
    assert!(!t.matches("s*n*e"));
    assert!(Topic::new("a*b*c").matches("a*b*c"));
    // Prefix and suffix may overlap in the matched topic.
    assert!(Topic::new("abc").matches("ab*bc"));
    assert!(!Topic::new("abd").matches("ab*cd"));
    assert!(Topic::new("ac").matches("a*c"));
    assert!(Topic::new("").matches("*"));
    assert!(!Topic::new("").matches("a*"));
}
