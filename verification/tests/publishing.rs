use tyl_redis_pubsub_adapter::batch::{BatchAction, BatchFlow, BatchMode, BatchSignal};
use tyl_redis_pubsub_adapter::publishing::{PublishAction, PublishFlow, PublishMode, PublishSignal};
use tyl_redis_pubsub_adapter::redis_pubsub_errors::PubSubError;

fn failure_text(action: PublishAction) -> String {
    match action {
        PublishAction::Finish(Err(e)) => e.to_string(),
        other => panic!("expected a failure, got {:?}", other),
    }
}

#[test]
fn keyed_publish_runs_to_its_id() {
    let (mut flow, first) = PublishFlow::begin(PublishMode::Keyed, "test.topic".to_string());
    assert!(matches!(first, PublishAction::EncodeEnvelope));
    let a = flow.step(PublishSignal::EnvelopeEncoded {
        id: "evt-1".to_string(),
        payload: Ok("{\"k\":1}".to_string()),
    });
    assert!(matches!(a, PublishAction::Connect));
    match flow.step(PublishSignal::Connected(Ok(()))) {
        PublishAction::Deliver { topic, payload } => {
            assert_eq!(topic, "test.topic");
            assert_eq!(payload, "{\"k\":1}");
        }
        other => panic!("unexpected {:?}", other),
    }
    match flow.step(PublishSignal::Delivered(Ok(()))) {
        PublishAction::Finish(Ok(id)) => assert_eq!(id, "evt-1"),
        other => panic!("unexpected {:?}", other),
    }
}

#[test]
fn plain_publish_checks_the_event_first() {
    let (mut flow, first) = PublishFlow::begin(PublishMode::Plain, "t".to_string());
    assert!(matches!(first, PublishAction::CheckEvent));
    assert!(flow.accepts(&PublishSignal::EventChecked(Ok(()))));
    assert!(!flow.accepts(&PublishSignal::Connected(Ok(()))));
    let a = flow.step(PublishSignal::EventChecked(Err("key must be a string".to_string())));
    assert_eq!(
        failure_text(a),
        "serialization error: Redis PubSub: Failed to serialize event: key must be a string"
    );
}

#[test]
fn publish_failures_are_worded_by_step_and_mode() {
    let (mut flow, _) = PublishFlow::begin(PublishMode::Plain, "t".to_string());
    flow.step(PublishSignal::EventChecked(Ok(())));
    let a = flow.step(PublishSignal::EnvelopeEncoded { id: "i".to_string(), payload: Err("x".to_string()) });
    assert_eq!(failure_text(a), "serialization error: Redis PubSub: Failed to serialize event wrapper: x");

    let (mut flow, _) = PublishFlow::begin(PublishMode::Complete, "t".to_string());
    let a = flow.step(PublishSignal::EnvelopeEncoded { id: "i".to_string(), payload: Err("y".to_string()) });
    assert_eq!(failure_text(a), "serialization error: Redis PubSub: Failed to serialize complete event: y");

    let (mut flow, _) = PublishFlow::begin(PublishMode::Keyed, "orders".to_string());
    flow.step(PublishSignal::EnvelopeEncoded { id: "i".to_string(), payload: Ok("p".to_string()) });
    let a = flow.step(PublishSignal::Connected(Err("refused".to_string())));
    assert_eq!(failure_text(a), "connection error: Redis PubSub: Failed to get Redis connection: refused");

    let (mut flow, _) = PublishFlow::begin(PublishMode::Keyed, "orders".to_string());
    flow.step(PublishSignal::EnvelopeEncoded { id: "i".to_string(), payload: Ok("p".to_string()) });
    flow.step(PublishSignal::Connected(Ok(())));
    let a = flow.step(PublishSignal::Delivered(Err("timeout".to_string())));
    assert_eq!(
        failure_text(a),
        "database error: Redis PubSub publish to 'orders' failed: PUBLISH with key failed: timeout"
    );

    let (mut flow, _) = PublishFlow::begin(PublishMode::Complete, "orders".to_string());
    flow.step(PublishSignal::EnvelopeEncoded { id: "i".to_string(), payload: Ok("p".to_string()) });
    flow.step(PublishSignal::Connected(Ok(())));
    let a = flow.step(PublishSignal::Delivered(Err("timeout".to_string())));
    assert_eq!(
        failure_text(a),
        "database error: Redis PubSub publish to 'orders' failed: PUBLISH event failed: timeout"
    );

    let (mut flow, _) = PublishFlow::begin(PublishMode::Plain, "orders".to_string());
    flow.step(PublishSignal::EventChecked(Ok(())));
    flow.step(PublishSignal::EnvelopeEncoded { id: "i".to_string(), payload: Ok("p".to_string()) });
    flow.step(PublishSignal::Connected(Ok(())));
    let a = flow.step(PublishSignal::Delivered(Err("timeout".to_string())));
    assert_eq!(
        failure_text(a),
        "database error: Redis PubSub publish to 'orders' failed: PUBLISH command failed: timeout"
    );
}

fn run_batch(mode: BatchMode, events: &[(&str, &str, Result<&str, &str>)], executed: Result<(), &str>) -> (Option<(usize, bool)>, BatchAction) {
    let topics: Vec<String> = events.iter().map(|e| e.0.to_string()).collect();
    let (mut flow, first) = BatchFlow::begin(mode, topics);
    assert!(matches!(first, BatchAction::Connect));
    let mut action = flow.step(BatchSignal::Connected(Ok(())));
    let mut executed_with = None;
    loop {
        match action {
            BatchAction::Encode { index } => {
                let (_, id, payload) = events[index];
                action = flow.step(BatchSignal::Encoded {
                    id: id.to_string(),
                    payload: payload.map(|p| p.to_string()).map_err(|e| e.to_string()),
                });
            }
            BatchAction::Execute { commands, atomic } => {
                assert_eq!(commands.len(), events.len());
                for (command, event) in commands.iter().zip(events.iter()) {
                    assert_eq!(command.topic, event.0);
                    assert_eq!(Ok(command.payload.as_str()), event.2);
                }
                executed_with = Some((commands.len(), atomic));
                action = flow.step(BatchSignal::Executed(executed.map_err(|e| e.to_string())));
            }
            other => return (executed_with, other),
        }
    }
}

#[test]
fn a_batch_reports_one_id_per_event_in_order() {
    let events = [
        ("test.topic1", "id-1", Ok("{\"n\":1}")),
        ("test.topic2", "id-2", Ok("{\"n\":2}")),
    ];
    let (executed, outcome) = run_batch(BatchMode::Pipeline, &events, Ok(()));
    assert_eq!(executed, Some((2, false)));
    match outcome {
        BatchAction::Finish(Ok(ids)) => assert_eq!(ids, vec!["id-1".to_string(), "id-2".to_string()]),
        other => panic!("unexpected {:?}", other),
    }
}

#[test]
fn a_transaction_runs_atomically() {
    let events = [("test.topic", "tx-1", Ok("{}"))];
    let (executed, outcome) = run_batch(BatchMode::Transaction, &events, Ok(()));
    assert_eq!(executed, Some((1, true)));
    match outcome {
        BatchAction::Finish(Ok(ids)) => assert_eq!(ids, vec!["tx-1".to_string()]),
        other => panic!("unexpected {:?}", other),
    }
}

#[test]
fn an_empty_batch_runs_an_empty_pipeline() {
    let (executed, outcome) = run_batch(BatchMode::Pipeline, &[], Ok(()));
    assert_eq!(executed, Some((0, false)));
    match outcome {
        BatchAction::Finish(Ok(ids)) => assert!(ids.is_empty()),
        other => panic!("unexpected {:?}", other),
    }
}

fn batch_failure(action: BatchAction) -> PubSubError {
    match action {
        BatchAction::Finish(Err(e)) => e,
        other => panic!("expected a failure, got {:?}", other),
    }
}

#[test]
fn batch_failures_are_worded_by_step_and_mode() {
    let (mut flow, _) = BatchFlow::begin(BatchMode::Pipeline, vec!["a".to_string()]);
    let e = batch_failure(flow.step(BatchSignal::Connected(Err("down".to_string()))));
    assert_eq!(e.to_string(), "connection error: Redis PubSub: Failed to get Redis connection for batch: down");

    let (mut flow, _) = BatchFlow::begin(BatchMode::Transaction, vec!["a".to_string()]);
    let e = batch_failure(flow.step(BatchSignal::Connected(Err("down".to_string()))));
    assert_eq!(
        e.to_string(),
        "connection error: Redis PubSub: Failed to get Redis connection for transaction: down"
    );

    let events = [("a", "1", Ok("p")), ("b", "2", Err("cyclic"))];
    let (executed, outcome) = run_batch(BatchMode::Pipeline, &events, Ok(()));
    assert_eq!(executed, None);
    assert_eq!(
        batch_failure(outcome).to_string(),
        "serialization error: Redis PubSub: Failed to serialize batch event: cyclic"
    );

    let (_, outcome) = run_batch(BatchMode::Transaction, &[("a", "1", Err("cyclic"))], Ok(()));
    assert_eq!(
        batch_failure(outcome).to_string(),
        "serialization error: Redis PubSub: Failed to serialize transactional event: cyclic"
    );

    let (_, outcome) = run_batch(BatchMode::Pipeline, &[("a", "1", Ok("p"))], Err("broken pipe"));
    assert_eq!(
        batch_failure(outcome).to_string(),
        "database error: Redis PubSub publish to 'batch' failed: Pipeline execution failed: broken pipe"
    );

    let (_, outcome) = run_batch(BatchMode::Transaction, &[("a", "1", Ok("p"))], Err("EXECABORT"));
    assert_eq!(
        batch_failure(outcome).to_string(),
        "database error: Redis PubSub publish to 'transaction' failed: Transaction execution failed: EXECABORT"
    );
}
