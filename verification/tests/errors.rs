use tyl_redis_pubsub_adapter::connection::{
    adapter_unavailable, classify_redis_failure, convert_redis_error, open_client, RedisFailureKind,
};
use tyl_redis_pubsub_adapter::redis_pubsub_errors;
use tyl_redis_pubsub_adapter::redis_pubsub_errors::PubSubError;

#[test]
fn test_error_creation() {
    let error = redis_pubsub_errors::connection_failed("test error");
    assert!(
        error.to_string().contains("Redis PubSub"),
        "Error should contain Redis PubSub context"
    );

    let error = redis_pubsub_errors::publish_failed("test.topic", "publish error");
    assert!(
        error.to_string().contains("test.topic"),
        "Error should contain topic name"
    );
}

#[test]
fn test_tyl_error_integration() {
    let error = redis_pubsub_errors::connection_failed("test error");
    assert!(
        error.to_string().contains("Redis PubSub"),
        "Error should contain Redis PubSub context"
    );

    let publish_error = redis_pubsub_errors::publish_failed("test.topic", "test error");
    assert!(
        publish_error.to_string().contains("test.topic"),
        "Error should contain topic"
    );
}

#[test]
fn test_error_handling_works() {
    let connection_error = redis_pubsub_errors::connection_failed("test connection error");
    assert!(
        connection_error.to_string().contains("Redis PubSub"),
        "Error should contain Redis PubSub context"
    );

    let publish_error = redis_pubsub_errors::publish_failed("test.topic", "test publish error");
    assert!(
        publish_error.to_string().contains("test.topic"),
        "Error should contain topic name"
    );

    let subscribe_error =
        redis_pubsub_errors::subscribe_failed("test.topic", "test subscribe error");
    assert!(
        subscribe_error.to_string().contains("test.topic"),
        "Error should contain topic name"
    );

    let serialization_error =
        redis_pubsub_errors::serialization_failed("test serialization error");
    assert!(
        serialization_error.to_string().contains("Redis PubSub"),
        "Error should contain Redis PubSub context"
    );
}

fn message_of(e: &PubSubError) -> String {
    match e {
        PubSubError::Network { message }
        | PubSubError::Database { message }
        | PubSubError::Serialization { message } => message.clone(),
        PubSubError::Validation { message, .. } => message.clone(),
        PubSubError::NotFound { id, .. } => id.clone(),
    }
}

#[test]
fn helpers_word_their_messages_exactly() {
    let e = redis_pubsub_errors::connection_failed("down");
    assert!(matches!(e, PubSubError::Network { .. }));
    assert_eq!(message_of(&e), "Redis PubSub: down");

    let e = redis_pubsub_errors::publish_failed("orders", "no reply");
    assert!(matches!(e, PubSubError::Database { .. }));
    assert_eq!(message_of(&e), "Redis PubSub publish to 'orders' failed: no reply");

    let e = redis_pubsub_errors::subscribe_failed("orders", "refused");
    assert!(matches!(e, PubSubError::Database { .. }));
    assert_eq!(message_of(&e), "Redis PubSub subscribe to 'orders' failed: refused");

    let e = redis_pubsub_errors::serialization_failed("bad json");
    assert!(matches!(e, PubSubError::Serialization { .. }));
    assert_eq!(message_of(&e), "Redis PubSub: bad json");
}

#[test]
fn each_category_reads_with_its_heading() {
    assert_eq!(PubSubError::network("a").to_string(), "connection error: a");
    assert_eq!(PubSubError::database("b").to_string(), "database error: b");
    assert_eq!(PubSubError::serialization("c").to_string(), "serialization error: c");
    assert_eq!(
        PubSubError::validation("field", "d").to_string(),
        "validation error on 'field': d"
    );
    assert_eq!(
        PubSubError::not_found("subscription", "sub-1").to_string(),
        "subscription not found: sub-1"
    );
}

#[test]
fn redis_failures_are_sorted_by_kind() {
    let e = classify_redis_failure("publish", RedisFailureKind::Io, "reset");
    assert!(matches!(e, PubSubError::Network { .. }));
    assert_eq!(message_of(&e), "Redis PubSub: publish: reset");

    let e = classify_redis_failure("publish", RedisFailureKind::AuthenticationFailed, "denied");
    assert!(matches!(e, PubSubError::Database { .. }));
    assert_eq!(message_of(&e), "Redis PubSub publish: denied");

    let e = classify_redis_failure("get", RedisFailureKind::TypeMismatch, "not an int");
    match &e {
        PubSubError::Validation { field, message } => {
            assert_eq!(field, "redis_type");
            assert_eq!(message, "get: not an int");
        }
        other => panic!("unexpected {:?}", other),
    }

    let e = classify_redis_failure("exec", RedisFailureKind::Other, "aborted");
    assert!(matches!(e, PubSubError::Database { .. }));
    assert_eq!(message_of(&e), "Redis PubSub exec: aborted");
}

#[test]
fn a_real_redis_error_is_converted_by_its_kind() {
    let io = redis::RedisError::from((redis::ErrorKind::IoError, "connection reset"));
    let e = convert_redis_error("publish", &io);
    assert!(matches!(e, PubSubError::Network { .. }));
    assert!(message_of(&e).starts_with("Redis PubSub: publish: connection reset"));

    let auth = redis::RedisError::from((redis::ErrorKind::AuthenticationFailed, "bad password"));
    let e = convert_redis_error("auth", &auth);
    assert!(matches!(e, PubSubError::Database { .. }));
    assert!(message_of(&e).starts_with("Redis PubSub auth: bad password"));

    let ty = redis::RedisError::from((redis::ErrorKind::TypeError, "wrong type"));
    let e = convert_redis_error("get", &ty);
    assert!(matches!(e, PubSubError::Validation { .. }));

    let other = redis::RedisError::from((redis::ErrorKind::ExecAbortError, "aborted"));
    let e = convert_redis_error("exec", &other);
    assert!(matches!(e, PubSubError::Database { .. }));
    assert!(message_of(&e).starts_with("Redis PubSub exec: aborted"));
}

#[test]
fn broker_urls_are_parsed_when_the_client_is_built() {
    let client = open_client("redis://127.0.0.1:6379").expect("a well-formed URL");
    assert_eq!(client.get_connection_info().addr.to_string(), "127.0.0.1:6379");
    let other = open_client("redis://cache.internal:6380/2").expect("a well-formed URL");
    assert_eq!(other.get_connection_info().addr.to_string(), "cache.internal:6380");
    assert_eq!(other.get_connection_info().redis.db, 2);
    match open_client("not a redis url") {
        Err(e) => {
            assert!(matches!(e, PubSubError::Network { .. }));
            assert!(message_of(&e).starts_with("Redis PubSub: Invalid Redis URL: "));
        }
        Ok(_) => panic!("a malformed URL must be refused"),
    }
}

#[test]
fn headings_name_connection_and_serialization_failures() {
    let e = redis_pubsub_errors::connection_failed("Invalid Redis URL: bad");
    assert!(e.to_string().contains("connection"));
    let e = redis_pubsub_errors::serialization_failed("cyclic");
    assert!(e.to_string().contains("serialization"));
}

#[test]
fn a_missing_composed_adapter_is_a_connection_failure() {
    let e = adapter_unavailable("refused");
    assert!(matches!(e, PubSubError::Network { .. }));
    assert_eq!(message_of(&e), "Redis PubSub: Failed to create Redis adapter: refused");
}
