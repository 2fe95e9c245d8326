//! The adapter's dealings with the Redis client crate that stop short of the
//! network: parsing the broker's URL, and turning a Redis error into an
//! adapter error.

use vstd::prelude::*;
use vstd::string::*;
use crate::redis_pubsub_errors::{
    PubSubError, ErrorView, connection_failed, connection_failed_view, joined,
};

verus! {

#[verifier::external_type_specification]
#[verifier::external_body]
pub struct ExRedisError(redis::RedisError);

#[verifier::external_type_specification]
#[verifier::external_body]
pub struct ExRedisClient(redis::Client);

/// The kinds of Redis failure that the adapter words differently.
#[derive(Clone, Copy, PartialEq, Eq, Structural, Debug)]
pub enum RedisFailureKind {
    /// The error came from the transport.
    Io,
    /// The broker rejected the credentials.
    AuthenticationFailed,
    /// A reply had another type than the one asked for.
    TypeMismatch,
    /// Any other kind.
    Other,
}

/// Whether the Redis client accepts `url` as the address of a broker.
pub uninterp spec fn redis_url_accepted(url: Seq<char>) -> bool;

/// The client that the Redis client crate builds for `url`.
pub uninterp spec fn redis_client_for(url: Seq<char>) -> redis::Client;

/// Calls `redis::Client::open` on `url`. That function only parses the URL
/// into the client's connection settings (no connection is made, nothing
/// else is read), so whether it succeeds, and the client it builds, are
/// functions of `url` alone, named `redis_url_accepted` and
/// `redis_client_for`. Nothing is stated of the error it returns.
#[verifier::external_body]
fn client_open(url: &str) -> (r: Result<redis::Client, redis::RedisError>)
    ensures
        r is Ok <==> redis_url_accepted(url@),
        r matches Ok(c) ==> c == redis_client_for(url@),
{
    redis::Client::open(url)
}

/// The class that the adapter gives a Redis error by its kind.
pub uninterp spec fn redis_failure_class(error: redis::RedisError) -> RedisFailureKind;

/// Calls `redis::RedisError::kind`, which reads the kind stored in the
/// error, and sorts the kind into the classes that the adapter tells apart;
/// every other kind becomes `Other`. The class is a function of the error,
/// named `redis_failure_class`.
#[verifier::external_body]
fn failure_kind(error: &redis::RedisError) -> (k: RedisFailureKind)
    ensures
        k == redis_failure_class(*error),
{
    match error.kind() {
        redis::ErrorKind::IoError => RedisFailureKind::Io,
        redis::ErrorKind::AuthenticationFailed => RedisFailureKind::AuthenticationFailed,
        redis::ErrorKind::TypeError => RedisFailureKind::TypeMismatch,
        _ => RedisFailureKind::Other,
    }
}

/// Calls `ToString::to_string` on a Redis error, that is its `Display` text.
/// Nothing is stated of the text.
#[verifier::external_body]
fn failure_text(error: &redis::RedisError) -> String {
    error.to_string()
}

/// The adapter error for a Redis failure of `kind`, met while doing
/// `operation`, whose own text is `detail`.
pub open spec fn converted_view(operation: Seq<char>, kind: RedisFailureKind, detail: Seq<char>) -> ErrorView {
    match kind {
        RedisFailureKind::Io => connection_failed_view(operation + ": "@ + detail),
        RedisFailureKind::TypeMismatch => ErrorView::Validation("redis_type"@, operation + ": "@ + detail),
        _ => ErrorView::Database("Redis PubSub "@ + (operation + ": "@ + detail)),
    }
}

/// Words a Redis failure of `kind` met while doing `operation`.
pub fn classify_redis_failure(operation: &str, kind: RedisFailureKind, detail: &str) -> (e: PubSubError)
    ensures
        e@ == converted_view(operation@, kind, detail@),
{
    let mut what = joined(operation, ": ");
    what.append(detail);
    let e = match kind {
        RedisFailureKind::Io => connection_failed(what.as_str()),
        RedisFailureKind::TypeMismatch => PubSubError::validation("redis_type", what.as_str()),
        _ => PubSubError::Database { message: joined("Redis PubSub ", what.as_str()) },
    };
    e
}

/// Turns a Redis error met while doing `operation` into an adapter error:
/// the error's kind picks the category, and its text follows the operation.
pub fn convert_redis_error(operation: &str, error: &redis::RedisError) -> (e: PubSubError)
    ensures
        exists|detail: Seq<char>| e@ == converted_view(operation@, redis_failure_class(*error), detail),
{
    let kind = failure_kind(error);
    let detail = failure_text(error);
    classify_redis_failure(operation, kind, detail.as_str())
}

/// The adapter error for a broker URL that the Redis client refuses, whose
/// refusal reads `detail`.
pub open spec fn invalid_url_view(detail: Seq<char>) -> ErrorView {
    connection_failed_view("Invalid Redis URL: "@ + detail)
}

/// Words a refused broker URL.
pub fn invalid_url(detail: &str) -> (e: PubSubError)
    ensures
        e@ == invalid_url_view(detail@),
{
    connection_failed(joined("Invalid Redis URL: ", detail).as_str())
}

/// Builds the Redis client for the broker at `url`. The client only parses
/// the URL here; it connects later, once per operation.
pub fn open_client(url: &str) -> (r: Result<redis::Client, PubSubError>)
    ensures
        r is Ok <==> redis_url_accepted(url@),
        r matches Ok(c) ==> c == redis_client_for(url@),
        r matches Err(e) ==> exists|detail: Seq<char>| e@ == invalid_url_view(detail),
{
    match client_open(url) {
        Ok(client) => Ok(client),
        Err(error) => {
            let detail = failure_text(&error);
            Err(invalid_url(detail.as_str()))
        },
    }
}

/// The adapter error for a composed Redis adapter that could not be built,
/// for the reason `detail`.
pub open spec fn adapter_unavailable_view(detail: Seq<char>) -> ErrorView {
    connection_failed_view("Failed to create Redis adapter: "@ + detail)
}

/// Words the failure to build the composed Redis adapter.
pub fn adapter_unavailable(detail: &str) -> (e: PubSubError)
    ensures
        e@ == adapter_unavailable_view(detail@),
{
    connection_failed(joined("Failed to create Redis adapter: ", detail).as_str())
}

} // verus!
