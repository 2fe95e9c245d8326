//! The error type of the adapter and the helpers that word its messages.

use vstd::prelude::*;
use vstd::string::*;

verus! {

/// A failure reported by the adapter, by category.
#[derive(Debug)]
pub enum PubSubError {
    /// The broker could not be reached or a connection could not be had.
    Network { message: String },
    /// The broker refused or failed a command.
    Database { message: String },
    /// An event could not be encoded.
    Serialization { message: String },
    /// A value failed a check; `field` names what was checked.
    Validation { field: String, message: String },
    /// A `resource` with the identifier `id` does not exist.
    NotFound { resource: String, id: String },
}

/// The mathematical value of a [`PubSubError`]: its category and its texts.
pub enum ErrorView {
    Network(Seq<char>),
    Database(Seq<char>),
    Serialization(Seq<char>),
    Validation(Seq<char>, Seq<char>),
    NotFound(Seq<char>, Seq<char>),
}

impl View for PubSubError {
    type V = ErrorView;

    open spec fn view(&self) -> ErrorView {
        match self {
            PubSubError::Network { message } => ErrorView::Network(message@),
            PubSubError::Database { message } => ErrorView::Database(message@),
            PubSubError::Serialization { message } => ErrorView::Serialization(message@),
            PubSubError::Validation { field, message } => ErrorView::Validation(field@, message@),
            PubSubError::NotFound { resource, id } => ErrorView::NotFound(resource@, id@),
        }
    }
}

/// The text a reader sees for an error: a heading for its category, then
/// its details. The headings are this library's own wording; a failure to
/// reach the broker reads as a connection error, and an encoding failure as
/// a serialization error.
pub open spec fn describe(e: ErrorView) -> Seq<char> {
    match e {
        ErrorView::Network(m) => "connection error: "@ + m,
        ErrorView::Database(m) => "database error: "@ + m,
        ErrorView::Serialization(m) => "serialization error: "@ + m,
        ErrorView::Validation(f, m) => "validation error on '"@ + f + "': "@ + m,
        ErrorView::NotFound(r, i) => r + " not found: "@ + i,
    }
}

/// `needle` occurs in `hay` as a contiguous run of characters.
pub open spec fn contains_text(hay: Seq<char>, needle: Seq<char>) -> bool {
    exists|i: int| 0 <= i && i + needle.len() <= hay.len()
        && #[trigger] hay.subrange(i, i + needle.len()) == needle
}

/// The message of a failed connection.
pub open spec fn connection_failed_view(msg: Seq<char>) -> ErrorView {
    ErrorView::Network("Redis PubSub: "@ + msg)
}

/// The message of a failed PUBLISH to `topic`.
pub open spec fn publish_failed_view(topic: Seq<char>, msg: Seq<char>) -> ErrorView {
    ErrorView::Database("Redis PubSub publish to '"@ + topic + "' failed: "@ + msg)
}

/// The message of a failed SUBSCRIBE to `topic`.
pub open spec fn subscribe_failed_view(topic: Seq<char>, msg: Seq<char>) -> ErrorView {
    ErrorView::Database("Redis PubSub subscribe to '"@ + topic + "' failed: "@ + msg)
}

/// The message of an event that could not be encoded.
pub open spec fn serialization_failed_view(msg: Seq<char>) -> ErrorView {
    ErrorView::Serialization("Redis PubSub: "@ + msg)
}

/// The text `head` followed by `tail`.
pub fn joined(head: &str, tail: &str) -> (s: String)
    ensures
        s@ == head@ + tail@,
{
    let mut s = String::from_str(head);
    s.append(tail);
    s
}

impl PubSubError {
    /// A network failure with the given message.
    pub fn network(message: &str) -> (e: PubSubError)
        ensures
            e@ == ErrorView::Network(message@),
    {
        PubSubError::Network { message: String::from_str(message) }
    }

    /// A failed broker command with the given message.
    pub fn database(message: &str) -> (e: PubSubError)
        ensures
            e@ == ErrorView::Database(message@),
    {
        PubSubError::Database { message: String::from_str(message) }
    }

    /// An encoding failure with the given message.
    pub fn serialization(message: &str) -> (e: PubSubError)
        ensures
            e@ == ErrorView::Serialization(message@),
    {
        PubSubError::Serialization { message: String::from_str(message) }
    }

    /// A failed check of `field`.
    pub fn validation(field: &str, message: &str) -> (e: PubSubError)
        ensures
            e@ == ErrorView::Validation(field@, message@),
    {
        PubSubError::Validation { field: String::from_str(field), message: String::from_str(message) }
    }

    /// The `resource` named `id` does not exist.
    pub fn not_found(resource: &str, id: &str) -> (e: PubSubError)
        ensures
            e@ == ErrorView::NotFound(resource@, id@),
    {
        PubSubError::NotFound { resource: String::from_str(resource), id: String::from_str(id) }
    }

    /// The text a reader sees for this error (see `describe`; the category
    /// headings are this library's own wording).
    pub fn to_string(&self) -> (s: String)
        ensures
            s@ == describe(self@),
    {
        match self {
            PubSubError::Network { message } => joined("connection error: ", message.as_str()),
            PubSubError::Database { message } => joined("database error: ", message.as_str()),
            PubSubError::Serialization { message } => joined(
                "serialization error: ",
                message.as_str(),
            ),
            PubSubError::Validation { field, message } => {
                let mut s = joined("validation error on '", field.as_str());
                s.append("': ");
                s.append(message.as_str());
                s
            },
            PubSubError::NotFound { resource, id } => {
                let mut s = joined(resource.as_str(), " not found: ");
                s.append(id.as_str());
                s
            },
        }
    }
}

/// A connection to the broker failed; `msg` says how.
pub fn connection_failed(msg: &str) -> (e: PubSubError)
    ensures
        e@ == connection_failed_view(msg@),
{
    PubSubError::Network { message: joined("Redis PubSub: ", msg) }
}

/// A PUBLISH to `topic` failed; `msg` says how.
pub fn publish_failed(topic: &str, msg: &str) -> (e: PubSubError)
    ensures
        e@ == publish_failed_view(topic@, msg@),
{
    let mut m = joined("Redis PubSub publish to '", topic);
    m.append("' failed: ");
    m.append(msg);
    PubSubError::Database { message: m }
}

/// A SUBSCRIBE to `topic` failed; `msg` says how.
pub fn subscribe_failed(topic: &str, msg: &str) -> (e: PubSubError)
    ensures
        e@ == subscribe_failed_view(topic@, msg@),
{
    let mut m = joined("Redis PubSub subscribe to '", topic);
    m.append("' failed: ");
    m.append(msg);
    PubSubError::Database { message: m }
}

/// An event could not be encoded; `msg` says why.
pub fn serialization_failed(msg: &str) -> (e: PubSubError)
    ensures
        e@ == serialization_failed_view(msg@),
{
    PubSubError::Serialization { message: joined("Redis PubSub: ", msg) }
}

proof fn lemma_text_in_itself(c: Seq<char>)
    ensures
        contains_text(c, c),
{
    assert(c.subrange(0int, 0int + c.len()) =~= c);
}

proof fn lemma_text_in_left(x: Seq<char>, y: Seq<char>, c: Seq<char>)
    requires
        contains_text(x, c),
    ensures
        contains_text(x + y, c),
{
    let i = choose|i: int| 0 <= i && i + c.len() <= x.len() && #[trigger] x.subrange(i, i + c.len()) == c;
    assert((x + y).subrange(i, i + c.len()) =~= x.subrange(i, i + c.len()));
}

proof fn lemma_text_in_right(x: Seq<char>, y: Seq<char>, c: Seq<char>)
    requires
        contains_text(y, c),
    ensures
        contains_text(x + y, c),
{
    let i = choose|i: int| 0 <= i && i + c.len() <= y.len() && #[trigger] y.subrange(i, i + c.len()) == c;
    assert((x + y).subrange(x.len() + i, x.len() + i + c.len()) =~= y.subrange(i, i + c.len()));
}

proof fn lemma_text_at_start(y: Seq<char>, c: Seq<char>)
    requires
        c.is_prefix_of(y),
    ensures
        contains_text(y, c),
{
    assert(y.subrange(0int, 0int + c.len()) =~= c);
}

proof fn lemma_context_starts(rest: Seq<char>)
    ensures
        contains_text("Redis PubSub: "@ + rest, "Redis PubSub"@),
        contains_text("Redis PubSub publish to '"@ + rest, "Redis PubSub"@),
        contains_text("Redis PubSub subscribe to '"@ + rest, "Redis PubSub"@),
{
    reveal_strlit("Redis PubSub");
    reveal_strlit("Redis PubSub: ");
    reveal_strlit("Redis PubSub publish to '");
    reveal_strlit("Redis PubSub subscribe to '");
    lemma_text_at_start("Redis PubSub: "@, "Redis PubSub"@);
    lemma_text_in_left("Redis PubSub: "@, rest, "Redis PubSub"@);
    lemma_text_at_start("Redis PubSub publish to '"@, "Redis PubSub"@);
    lemma_text_in_left("Redis PubSub publish to '"@, rest, "Redis PubSub"@);
    lemma_text_at_start("Redis PubSub subscribe to '"@, "Redis PubSub"@);
    lemma_text_in_left("Redis PubSub subscribe to '"@, rest, "Redis PubSub"@);
}

/// A connection failure reads as coming from the Redis PubSub adapter,
/// whatever its message.
pub proof fn lemma_connection_failed_names_context(msg: Seq<char>)
    ensures
        contains_text(describe(connection_failed_view(msg)), "Redis PubSub"@),
{
    lemma_context_starts(msg);
    lemma_text_in_right("connection error: "@, "Redis PubSub: "@ + msg, "Redis PubSub"@);
}

/// An encoding failure reads as coming from the Redis PubSub adapter,
/// whatever its message.
pub proof fn lemma_serialization_failed_names_context(msg: Seq<char>)
    ensures
        contains_text(describe(serialization_failed_view(msg)), "Redis PubSub"@),
{
    lemma_context_starts(msg);
    lemma_text_in_right("serialization error: "@, "Redis PubSub: "@ + msg, "Redis PubSub"@);
}

/// The text of a failed command on `topic`, whose wording starts with
/// `head`, names the adapter when `head` does, and names the topic.
proof fn lemma_topic_failure_names(head: Seq<char>, topic: Seq<char>, msg: Seq<char>)
    requires
        contains_text(head + (topic + "' failed: "@ + msg), "Redis PubSub"@),
    ensures
        contains_text("database error: "@ + (head + topic + "' failed: "@ + msg), "Redis PubSub"@),
        contains_text("database error: "@ + (head + topic + "' failed: "@ + msg), topic),
{
    let body = head + topic + "' failed: "@ + msg;
    assert(body =~= head + (topic + "' failed: "@ + msg));
    lemma_text_in_right("database error: "@, body, "Redis PubSub"@);
    lemma_text_in_itself(topic);
    lemma_text_in_right(head, topic, topic);
    lemma_text_in_left(head + topic, "' failed: "@, topic);
    lemma_text_in_left(head + topic + "' failed: "@, msg, topic);
    lemma_text_in_right("database error: "@, body, topic);
}

/// A failed PUBLISH reads as coming from the Redis PubSub adapter and names
/// its topic, whatever the topic and the message.
pub proof fn lemma_publish_failed_names_topic(topic: Seq<char>, msg: Seq<char>)
    ensures
        contains_text(describe(publish_failed_view(topic, msg)), "Redis PubSub"@),
        contains_text(describe(publish_failed_view(topic, msg)), topic),
{
    lemma_context_starts(topic + "' failed: "@ + msg);
    lemma_topic_failure_names("Redis PubSub publish to '"@, topic, msg);
}

/// A failed SUBSCRIBE reads as coming from the Redis PubSub adapter and
/// names its topic, whatever the topic and the message.
pub proof fn lemma_subscribe_failed_names_topic(topic: Seq<char>, msg: Seq<char>)
    ensures
        contains_text(describe(subscribe_failed_view(topic, msg)), "Redis PubSub"@),
        contains_text(describe(subscribe_failed_view(topic, msg)), topic),
{
    lemma_context_starts(topic + "' failed: "@ + msg);
    lemma_topic_failure_names("Redis PubSub subscribe to '"@, topic, msg);
}

/// Every failure to reach the broker reads as a connection error: its text
/// contains "connection", whatever its message.
pub proof fn lemma_network_errors_read_as_connection(msg: Seq<char>)
    ensures
        contains_text(describe(ErrorView::Network(msg)), "connection"@),
{
    reveal_strlit("connection");
    reveal_strlit("connection error: ");
    lemma_text_at_start("connection error: "@, "connection"@);
    lemma_text_in_left("connection error: "@, msg, "connection"@);
}

/// Every encoding failure reads as a serialization error: its text contains
/// "serialization", whatever its message.
pub proof fn lemma_serialization_errors_read_as_serialization(msg: Seq<char>)
    ensures
        contains_text(describe(ErrorView::Serialization(msg)), "serialization"@),
{
    reveal_strlit("serialization");
    reveal_strlit("serialization error: ");
    lemma_text_at_start("serialization error: "@, "serialization"@);
    lemma_text_in_left("serialization error: "@, msg, "serialization"@);
}

} // verus!
