use tyl_redis_pubsub_adapter::subscribing::{
    listener_step, ListenerAction, ListenerSignal, SubscribeAction, SubscribeFlow, SubscribeSignal,
};
use tyl_redis_pubsub_adapter::subscriptions::{
    ActiveSubscription, SubscriptionHealth, SubscriptionRegistry, SubscriptionState,
};
use tyl_redis_pubsub_adapter::redis_pubsub_errors::PubSubError;

fn entry(id: &str, topic: &str) -> (ActiveSubscription, tokio::sync::broadcast::Receiver<()>) {
    let (tx, rx) = tokio::sync::broadcast::channel(1);
    (
        ActiveSubscription {
            topic: topic.to_string(),
            subscription_id: id.to_string(),
            handler_name: "handler".to_string(),
            shutdown_tx: tx,
        },
        rx,
    )
}

#[test]
fn test_subscription_management() {
    let registry = SubscriptionRegistry::new();
    assert_eq!(registry.len(), 0, "Should start with no active subscriptions");
}

#[test]
fn registered_subscriptions_are_reported() {
    let mut registry = SubscriptionRegistry::new();
    let (a, _ra) = entry("sub-a", "orders");
    let (b, _rb) = entry("sub-b", "payments");
    registry.register(a);
    registry.register(b);
    assert_eq!(registry.len(), 2);
    assert!(registry.contains("sub-a"));
    let report = registry.status("sub-b").expect("known subscription");
    assert_eq!(report.subscription_id, "sub-b");
    assert_eq!(report.topic, "payments");
    assert_eq!(report.state, SubscriptionState::Active);
    assert_eq!(report.health, SubscriptionHealth::Healthy);
    assert_eq!(report.consumer_group, None);
    assert_eq!(report.current_position, Some("latest".to_string()));
    assert_eq!(report.events_processed, 0);
    assert_eq!(report.events_failed, 0);
    assert_eq!(report.lag, Some(0));
    assert_eq!(report.avg_processing_time_ms, Some(10));
}

#[test]
fn registering_an_id_again_replaces_its_entry() {
    let mut registry = SubscriptionRegistry::new();
    let (a, _ra) = entry("sub-a", "orders");
    let (a2, _ra2) = entry("sub-a", "refunds");
    registry.register(a);
    registry.register(a2);
    assert_eq!(registry.len(), 1);
    assert_eq!(registry.status("sub-a").unwrap().topic, "refunds");
}

#[test]
fn unsubscribe_stops_the_listener_once() {
    let mut registry = SubscriptionRegistry::new();
    let (a, mut rx) = entry("sub-a", "orders");
    let (b, _rb) = entry("sub-b", "payments");
    registry.register(a);
    registry.register(b);
    let stopped = registry.unsubscribe("sub-a").expect("known subscription");
    assert_eq!(stopped.subscription_id, "sub-a");
    assert_eq!(stopped.topic, "orders");
    assert!(stopped.shutdown_tx.send(()).is_ok());
    assert_eq!(rx.try_recv(), Ok(()));
    assert!(!registry.contains("sub-a"));
    assert!(registry.contains("sub-b"));
    match registry.unsubscribe("sub-a") {
        Err(e) => assert_eq!(e.to_string(), "subscription not found: sub-a"),
        Ok(_) => panic!("a second unsubscribe must fail"),
    }
    assert!(matches!(registry.status("sub-a"), Err(PubSubError::NotFound { .. })));
    assert_eq!(registry.len(), 1);
}

#[test]
fn pause_and_resume_are_accepted() {
    let registry = SubscriptionRegistry::new();
    assert!(registry.pause_subscription("anything").is_ok());
    assert!(registry.resume_subscription("anything").is_ok());
}

#[test]
fn a_subscription_is_recorded_once_subscribe_succeeds() {
    let mut registry = SubscriptionRegistry::new();
    let (s, _rx) = entry("sub-1", "orders");
    let (mut flow, first) = SubscribeFlow::begin(s);
    assert!(matches!(first, SubscribeAction::Connect));
    match flow.step(SubscribeSignal::Connected(Ok(())), &mut registry) {
        SubscribeAction::Subscribe { topic } => assert_eq!(topic, "orders"),
        other => panic!("unexpected {:?}", other),
    }
    assert_eq!(registry.len(), 0);
    match flow.step(SubscribeSignal::Subscribed(Ok(())), &mut registry) {
        SubscribeAction::Finish(Ok(id)) => assert_eq!(id, "sub-1"),
        other => panic!("unexpected {:?}", other),
    }
    assert!(registry.contains("sub-1"));
}

#[test]
fn a_failed_subscribe_records_nothing() {
    let mut registry = SubscriptionRegistry::new();
    let (s, _rx) = entry("sub-1", "orders");
    let (mut flow, _) = SubscribeFlow::begin(s);
    match flow.step(SubscribeSignal::Connected(Err("refused".to_string())), &mut registry) {
        SubscribeAction::Finish(Err(e)) => assert_eq!(
            e.to_string(),
            "database error: Redis PubSub subscribe to 'orders' failed: Failed to get PubSub connection: refused"
        ),
        other => panic!("unexpected {:?}", other),
    }
    assert_eq!(registry.len(), 0);

    let (s, _rx) = entry("sub-2", "orders");
    let (mut flow, _) = SubscribeFlow::begin(s);
    flow.step(SubscribeSignal::Connected(Ok(())), &mut registry);
    match flow.step(SubscribeSignal::Subscribed(Err("NOPERM".to_string())), &mut registry) {
        SubscribeAction::Finish(Err(e)) => assert_eq!(
            e.to_string(),
            "database error: Redis PubSub subscribe to 'orders' failed: SUBSCRIBE command failed: NOPERM"
        ),
        other => panic!("unexpected {:?}", other),
    }
    assert_eq!(registry.len(), 0);
}

#[test]
fn the_listener_skips_what_it_cannot_read() {
    assert!(matches!(listener_step(ListenerSignal::ShutdownRequested), ListenerAction::Stop));
    assert!(matches!(listener_step(ListenerSignal::StreamIdle), ListenerAction::Wait));
    assert!(matches!(
        listener_step(ListenerSignal::Message(Err("not utf-8".to_string()))),
        ListenerAction::Wait
    ));
    match listener_step(ListenerSignal::Message(Ok("{\"id\":1}".to_string()))) {
        ListenerAction::Decode(p) => assert_eq!(p, "{\"id\":1}"),
        other => panic!("unexpected {:?}", other),
    }
    assert!(matches!(listener_step(ListenerSignal::Decoded(true)), ListenerAction::Deliver));
    assert!(matches!(listener_step(ListenerSignal::Decoded(false)), ListenerAction::Wait));
}
