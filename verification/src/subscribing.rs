//! The steps of `subscribe`, and the decisions of the listener that a
//! subscription runs in the background.

use vstd::prelude::*;
use crate::redis_pubsub_errors::{
    PubSubError, ErrorView, joined, subscribe_failed, subscribe_failed_view,
};
use crate::subscriptions::{ActiveSubscription, SubscriptionRegistry};

verus! {

/// Where a subscription being set up stands; the entry it will record
/// travels with it.
#[derive(Debug)]
pub enum SubscribePhase {
    /// Waiting for a PubSub connection.
    AwaitingConnection(ActiveSubscription),
    /// Waiting for SUBSCRIBE to be answered.
    AwaitingSubscription(ActiveSubscription),
    /// Done; the outcome has been handed out.
    Finished,
}

/// A subscription being set up.
#[derive(Debug)]
pub struct SubscribeFlow {
    pub phase: SubscribePhase,
}

/// How a piece of outside work went; an `Err` carries the failure's text.
#[derive(Debug)]
pub enum SubscribeSignal {
    /// A PubSub connection was had, or not.
    Connected(Result<(), String>),
    /// SUBSCRIBE was answered, or failed.
    Subscribed(Result<(), String>),
}

/// What the adapter is to do next.
#[derive(Debug)]
pub enum SubscribeAction {
    /// Get a PubSub connection.
    Connect,
    /// Send `SUBSCRIBE topic`.
    Subscribe { topic: String },
    /// Stop and tell the caller this; on `Ok`, the subscription has been
    /// recorded and its listener is to be started.
    Finish(Result<String, PubSubError>),
}

/// The signal is the one the flow waits for in its phase.
pub open spec fn subscribe_awaits(phase: SubscribePhase, signal: SubscribeSignal) -> bool {
    match (phase, signal) {
        (SubscribePhase::AwaitingConnection(_), SubscribeSignal::Connected(_)) => true,
        (SubscribePhase::AwaitingSubscription(_), SubscribeSignal::Subscribed(_)) => true,
        _ => false,
    }
}

/// The entry that a flow still carries.
pub open spec fn carried(phase: SubscribePhase) -> ActiveSubscription
    recommends
        !(phase is Finished),
{
    match phase {
        SubscribePhase::AwaitingConnection(s) => s,
        SubscribePhase::AwaitingSubscription(s) => s,
        SubscribePhase::Finished => arbitrary(),
    }
}

/// One step of setting up a subscription: from `before`, on `signal`, the
/// flow becomes `after`, the table goes from `table` to `table_after`, and
/// the flow hands out `action`.
pub open spec fn subscribe_step(
    before: SubscribePhase,
    signal: SubscribeSignal,
    after: SubscribePhase,
    table: Map<Seq<char>, ActiveSubscription>,
    table_after: Map<Seq<char>, ActiveSubscription>,
    action: SubscribeAction,
) -> bool {
    let s = carried(before);
    match signal {
        SubscribeSignal::Connected(r) => table_after == table && match r {
            Ok(_) => after == SubscribePhase::AwaitingSubscription(s) && action == (SubscribeAction::Subscribe {
                topic: s.topic,
            }),
            Err(d) => after is Finished && (action matches SubscribeAction::Finish(Err(e)) && e@
                == subscribe_failed_view(s.topic@, "Failed to get PubSub connection: "@ + d@)),
        },
        SubscribeSignal::Subscribed(r) => after is Finished && match r {
            Ok(_) => table_after == table.insert(s.subscription_id@, s) && (action matches SubscribeAction::Finish(Ok(id))
                && id@ == s.subscription_id@),
            Err(d) => table_after == table && (action matches SubscribeAction::Finish(Err(e))
                && e@ == subscribe_failed_view(s.topic@, "SUBSCRIBE command failed: "@ + d@)),
        },
    }
}

impl SubscribeFlow {
    /// Starts setting up `subscription`, with the first action.
    pub fn begin(subscription: ActiveSubscription) -> (r: (SubscribeFlow, SubscribeAction))
        ensures
            r.0.phase == SubscribePhase::AwaitingConnection(subscription),
            r.1 == SubscribeAction::Connect,
    {
        (SubscribeFlow { phase: SubscribePhase::AwaitingConnection(subscription) }, SubscribeAction::Connect)
    }

    /// Whether the flow waits for `signal` now.
    pub fn accepts(&self, signal: &SubscribeSignal) -> (b: bool)
        ensures
            b == subscribe_awaits(self.phase, *signal),
    {
        match (&self.phase, signal) {
            (SubscribePhase::AwaitingConnection(_), SubscribeSignal::Connected(_)) => true,
            (SubscribePhase::AwaitingSubscription(_), SubscribeSignal::Subscribed(_)) => true,
            _ => false,
        }
    }

    /// Takes in how the pending work went and hands out the next action.
    /// The subscription is recorded in `table` once SUBSCRIBE succeeded,
    /// and only then.
    pub fn step(&mut self, signal: SubscribeSignal, table: &mut SubscriptionRegistry) -> (action:
        SubscribeAction)
        requires
            subscribe_awaits(old(self).phase, signal),
        ensures
            subscribe_step(old(self).phase, signal, final(self).phase, old(table)@, final(table)@, action),
    {
        let mut phase = SubscribePhase::Finished;
        std::mem::swap(&mut phase, &mut self.phase);
        match (phase, signal) {
            (SubscribePhase::AwaitingConnection(s), SubscribeSignal::Connected(r)) => match r {
                Ok(_) => {
                    let topic = s.topic.clone();
                    self.phase = SubscribePhase::AwaitingSubscription(s);
                    SubscribeAction::Subscribe { topic }
                },
                Err(d) => SubscribeAction::Finish(
                    Err(
                        subscribe_failed(
                            s.topic.as_str(),
                            joined("Failed to get PubSub connection: ", d.as_str()).as_str(),
                        ),
                    ),
                ),
            },
            (SubscribePhase::AwaitingSubscription(s), SubscribeSignal::Subscribed(r)) => match r {
                Ok(_) => {
                    let id = s.subscription_id.clone();
                    table.register(s);
                    SubscribeAction::Finish(Ok(id))
                },
                Err(d) => SubscribeAction::Finish(
                    Err(
                        subscribe_failed(
                            s.topic.as_str(),
                            joined("SUBSCRIBE command failed: ", d.as_str()).as_str(),
                        ),
                    ),
                ),
            },
            // `requires` rules out a signal that the phase does not wait for.
            _ => vstd::pervasive::unreached(),
        }
    }
}

/// A subscription recorded by a successful setup is in the table under its
/// id, and the caller is told that id; a setup that fails leaves the table
/// as it was.
pub proof fn lemma_subscribe_records_only_on_success(
    before: SubscribePhase,
    signal: SubscribeSignal,
    after: SubscribePhase,
    table: Map<Seq<char>, ActiveSubscription>,
    table_after: Map<Seq<char>, ActiveSubscription>,
    action: SubscribeAction,
)
    requires
        subscribe_step(before, signal, after, table, table_after, action),
    ensures
        action matches SubscribeAction::Finish(Ok(id)) ==> table_after.contains_key(id@)
            && table_after[id@] == carried(before),
        action matches SubscribeAction::Finish(Err(_)) ==> table_after == table,
        !(action is Finish) ==> table_after == table,
{
}

/// A subscription set up on a table that did not hold its id, once
/// unsubscribed (which removes its id), leaves the table as it was before
/// the setup; in between, the table holds it with its topic.
pub proof fn lemma_subscribe_then_unsubscribe_restores(
    subscription: ActiveSubscription,
    after: SubscribePhase,
    table: Map<Seq<char>, ActiveSubscription>,
    table_after: Map<Seq<char>, ActiveSubscription>,
    action: SubscribeAction,
)
    requires
        subscribe_step(
            SubscribePhase::AwaitingSubscription(subscription),
            SubscribeSignal::Subscribed(Ok(())),
            after,
            table,
            table_after,
            action,
        ),
        !table.contains_key(subscription.subscription_id@),
    ensures
        table_after.contains_key(subscription.subscription_id@),
        table_after[subscription.subscription_id@].topic == subscription.topic,
        table_after.remove(subscription.subscription_id@) =~= table,
{
}

/// Two subscriptions set up one after the other, with different ids, are
/// both kept, each with its own entry, even on the same topic.
pub proof fn lemma_subscriptions_are_kept_apart(
    first: ActiveSubscription,
    second: ActiveSubscription,
    after_first: SubscribePhase,
    after_second: SubscribePhase,
    table: Map<Seq<char>, ActiveSubscription>,
    table_mid: Map<Seq<char>, ActiveSubscription>,
    table_after: Map<Seq<char>, ActiveSubscription>,
    first_action: SubscribeAction,
    second_action: SubscribeAction,
)
    requires
        subscribe_step(
            SubscribePhase::AwaitingSubscription(first),
            SubscribeSignal::Subscribed(Ok(())),
            after_first,
            table,
            table_mid,
            first_action,
        ),
        subscribe_step(
            SubscribePhase::AwaitingSubscription(second),
            SubscribeSignal::Subscribed(Ok(())),
            after_second,
            table_mid,
            table_after,
            second_action,
        ),
        first.subscription_id@ != second.subscription_id@,
    ensures
        table_after.contains_key(first.subscription_id@),
        table_after[first.subscription_id@] == first,
        table_after.contains_key(second.subscription_id@),
        table_after[second.subscription_id@] == second,
{
}

/// What a subscription's listener sees next.
#[derive(Debug)]
pub enum ListenerSignal {
    /// The subscription was told to stop.
    ShutdownRequested,
    /// The message stream gave nothing.
    StreamIdle,
    /// A message arrived; its payload could be read as text, or not.
    Message(Result<String, String>),
    /// The last payload decoded into an event, or did not.
    Decoded(bool),
}

/// What a listener does next.
#[derive(Debug)]
pub enum ListenerAction {
    /// Leave the loop; the subscription's entry is then to be taken out of
    /// the table (`SubscriptionRegistry::remove`).
    Stop,
    /// Wait for the next signal.
    Wait,
    /// Decode this payload into an event.
    Decode(String),
    /// Hand the decoded event to the handler, then wait.
    Deliver,
}

/// The listener's answer to `signal`: stop when told to; skip messages
/// whose payload cannot be read or decoded; decode, then deliver, the rest.
pub open spec fn listener_response(signal: ListenerSignal) -> ListenerAction {
    match signal {
        ListenerSignal::ShutdownRequested => ListenerAction::Stop,
        ListenerSignal::StreamIdle => ListenerAction::Wait,
        ListenerSignal::Message(Ok(payload)) => ListenerAction::Decode(payload),
        ListenerSignal::Message(Err(_)) => ListenerAction::Wait,
        ListenerSignal::Decoded(ok) => if ok {
            ListenerAction::Deliver
        } else {
            ListenerAction::Wait
        },
    }
}

/// The listener's decision on `signal`.
pub fn listener_step(signal: ListenerSignal) -> (action: ListenerAction)
    ensures
        action == listener_response(signal),
{
    match signal {
        ListenerSignal::ShutdownRequested => ListenerAction::Stop,
        ListenerSignal::StreamIdle => ListenerAction::Wait,
        ListenerSignal::Message(Ok(payload)) => ListenerAction::Decode(payload),
        ListenerSignal::Message(Err(_)) => ListenerAction::Wait,
        ListenerSignal::Decoded(ok) => if ok {
            ListenerAction::Deliver
        } else {
            ListenerAction::Wait
        },
    }
}

/// In every phase, a subscription setup accepts every outcome, success or
/// failure, of the work it waits for in that phase.
pub proof fn lemma_subscribe_accepts_every_outcome(
    subscription: ActiveSubscription,
    r: Result<(), String>,
)
    ensures
        subscribe_awaits(SubscribePhase::AwaitingConnection(subscription), SubscribeSignal::Connected(r)),
        subscribe_awaits(
            SubscribePhase::AwaitingSubscription(subscription),
            SubscribeSignal::Subscribed(r),
        ),
{
}

/// A setup run from its start (`begin(subscription)`), whose connection is
/// had, sends SUBSCRIBE for the subscription's own topic, leaves the table
/// alone, and then accepts either answer. On success it records exactly
/// the entry it was given (so the status reports the topic that was
/// subscribed to) and reports that entry's id; on failure the table stays
/// as it was and the error names the topic.
pub proof fn lemma_subscribe_run_records_what_it_subscribed(
    subscription: ActiveSubscription,
    mid: SubscribePhase,
    after: SubscribePhase,
    table: Map<Seq<char>, ActiveSubscription>,
    table_mid: Map<Seq<char>, ActiveSubscription>,
    table_after: Map<Seq<char>, ActiveSubscription>,
    first_action: SubscribeAction,
    second_action: SubscribeAction,
    answer: Result<(), String>,
)
    requires
        subscribe_step(
            SubscribePhase::AwaitingConnection(subscription),
            SubscribeSignal::Connected(Ok(())),
            mid,
            table,
            table_mid,
            first_action,
        ),
        subscribe_step(mid, SubscribeSignal::Subscribed(answer), after, table_mid, table_after, second_action),
    ensures
        first_action == (SubscribeAction::Subscribe { topic: subscription.topic }),
        table_mid == table,
        subscribe_awaits(mid, SubscribeSignal::Subscribed(answer)),
        answer is Ok ==> table_after == table.insert(subscription.subscription_id@, subscription),
        answer is Ok ==> table_after[subscription.subscription_id@].topic == subscription.topic,
        answer is Ok ==> (second_action matches SubscribeAction::Finish(Ok(id)) && id@
            == subscription.subscription_id@),
        answer matches Err(d) ==> table_after == table && (second_action matches SubscribeAction::Finish(
            Err(e),
        ) && e@ == subscribe_failed_view(subscription.topic@, "SUBSCRIBE command failed: "@ + d@)),
{
}

/// Every message whose payload can be read is decoded, whatever its
/// contents or length; every decoded event is delivered; and the listener
/// stops on a shutdown request and on nothing else.
pub proof fn lemma_listener_hands_on_every_readable_message(payload: String, signal: ListenerSignal)
    ensures
        listener_response(ListenerSignal::Message(Ok(payload))) == ListenerAction::Decode(payload),
        listener_response(ListenerSignal::Decoded(true)) == ListenerAction::Deliver,
        (listener_response(signal) is Stop) <==> (signal is ShutdownRequested),
{
}

} // verus!
