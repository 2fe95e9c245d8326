//! The steps of a single publish, as a machine that the adapter drives.
//!
//! Each step of a publish waits on outside work (encoding the event, getting
//! a connection, sending PUBLISH). The adapter performs the action that the
//! machine hands out, then reports how it went; the machine decides what
//! comes next and, at the end, what the caller is told.

use vstd::prelude::*;
use crate::redis_pubsub_errors::{
    PubSubError, ErrorView, connection_failed, connection_failed_view, joined, publish_failed,
    publish_failed_view, serialization_failed, serialization_failed_view,
};

verus! {

/// Which publish operation a flow carries out.
#[derive(Clone, Copy, PartialEq, Eq, Structural, Debug)]
pub enum PublishMode {
    /// `publish`: the bare event is encoded once as a check, then wrapped
    /// with fresh metadata; the id reported is the wrapper's, that of the
    /// event published.
    Plain,
    /// `publish_with_key`: the event is wrapped with a partition key; the id
    /// reported is the wrapper's.
    Keyed,
    /// `publish_event`: the caller hands over a complete event; the id
    /// reported is that event's.
    Complete,
}

/// Where a publish stands.
#[derive(Debug)]
pub enum PublishPhase {
    /// Waiting for the bare event to be encoded (`Plain` only).
    AwaitingEventCheck,
    /// Waiting for the wrapped event to be encoded.
    AwaitingEnvelope,
    /// Waiting for a connection; `payload` is the encoded event to send.
    AwaitingConnection { id: String, payload: String },
    /// Waiting for PUBLISH to be answered.
    AwaitingDelivery { id: String },
    /// Done; the outcome has been handed out.
    Finished,
}

/// A publish in progress.
#[derive(Debug)]
pub struct PublishFlow {
    pub mode: PublishMode,
    pub topic: String,
    pub phase: PublishPhase,
}

/// How a piece of outside work went; an `Err` carries the failure's text.
#[derive(Debug)]
pub enum PublishSignal {
    /// The bare event was encoded, or could not be.
    EventChecked(Result<(), String>),
    /// The wrapped event, whose reported id is `id`, was encoded into
    /// `payload`, or could not be.
    EnvelopeEncoded { id: String, payload: Result<String, String> },
    /// A connection to the broker was had, or not.
    Connected(Result<(), String>),
    /// PUBLISH was answered, or failed.
    Delivered(Result<(), String>),
}

/// What the adapter is to do next.
#[derive(Debug)]
pub enum PublishAction {
    /// Encode the bare event.
    CheckEvent,
    /// Wrap the event with its metadata and encode the wrapper.
    EncodeEnvelope,
    /// Get a connection to the broker.
    Connect,
    /// Send `PUBLISH topic payload`.
    Deliver { topic: String, payload: String },
    /// Stop and tell the caller this.
    Finish(Result<String, PubSubError>),
}

/// The phase a flow of `mode` starts in.
pub open spec fn initial_phase(mode: PublishMode) -> PublishPhase {
    match mode {
        PublishMode::Plain => PublishPhase::AwaitingEventCheck,
        _ => PublishPhase::AwaitingEnvelope,
    }
}

/// The first action of a flow of `mode`.
pub open spec fn initial_action(mode: PublishMode) -> PublishAction {
    match mode {
        PublishMode::Plain => PublishAction::CheckEvent,
        _ => PublishAction::EncodeEnvelope,
    }
}

/// The words before an envelope encoding failure.
pub open spec fn envelope_failure_text(mode: PublishMode) -> Seq<char> {
    match mode {
        PublishMode::Plain => "Failed to serialize event wrapper: "@,
        PublishMode::Keyed => "Failed to serialize keyed event: "@,
        PublishMode::Complete => "Failed to serialize complete event: "@,
    }
}

/// The words before a PUBLISH failure.
pub open spec fn delivery_failure_text(mode: PublishMode) -> Seq<char> {
    match mode {
        PublishMode::Plain => "PUBLISH command failed: "@,
        PublishMode::Keyed => "PUBLISH with key failed: "@,
        PublishMode::Complete => "PUBLISH event failed: "@,
    }
}

fn envelope_failure_prefix(mode: PublishMode) -> (s: &'static str)
    ensures
        s@ == envelope_failure_text(mode),
{
    match mode {
        PublishMode::Plain => "Failed to serialize event wrapper: ",
        PublishMode::Keyed => "Failed to serialize keyed event: ",
        PublishMode::Complete => "Failed to serialize complete event: ",
    }
}

fn delivery_failure_prefix(mode: PublishMode) -> (s: &'static str)
    ensures
        s@ == delivery_failure_text(mode),
{
    match mode {
        PublishMode::Plain => "PUBLISH command failed: ",
        PublishMode::Keyed => "PUBLISH with key failed: ",
        PublishMode::Complete => "PUBLISH event failed: ",
    }
}

/// The signal is the one the flow waits for in its phase.
pub open spec fn awaits(phase: PublishPhase, signal: PublishSignal) -> bool {
    match (phase, signal) {
        (PublishPhase::AwaitingEventCheck, PublishSignal::EventChecked(_)) => true,
        (PublishPhase::AwaitingEnvelope, PublishSignal::EnvelopeEncoded { .. }) => true,
        (PublishPhase::AwaitingConnection { .. }, PublishSignal::Connected(_)) => true,
        (PublishPhase::AwaitingDelivery { .. }, PublishSignal::Delivered(_)) => true,
        _ => false,
    }
}

/// The action stops the flow with the error `e`.
pub open spec fn fails_with(action: PublishAction, e: ErrorView) -> bool {
    action matches PublishAction::Finish(Err(err)) && err@ == e
}

/// One step of a publish: from `before`, on `signal`, the flow becomes
/// `after` and hands out `action`.
pub open spec fn publish_step(
    before: PublishFlow,
    signal: PublishSignal,
    after: PublishFlow,
    action: PublishAction,
) -> bool {
    &&& after.mode == before.mode
    &&& after.topic == before.topic
    &&& match signal {
        PublishSignal::EventChecked(r) => match r {
            Ok(_) => after.phase == PublishPhase::AwaitingEnvelope && action
                == PublishAction::EncodeEnvelope,
            Err(d) => after.phase == PublishPhase::Finished && fails_with(
                action,
                serialization_failed_view("Failed to serialize event: "@ + d@),
            ),
        },
        PublishSignal::EnvelopeEncoded { id, payload } => match payload {
            Ok(p) => after.phase == (PublishPhase::AwaitingConnection { id, payload: p })
                && action == PublishAction::Connect,
            Err(d) => after.phase == PublishPhase::Finished && fails_with(
                action,
                serialization_failed_view(envelope_failure_text(before.mode) + d@),
            ),
        },
        PublishSignal::Connected(r) => match r {
            Ok(_) => match before.phase {
                PublishPhase::AwaitingConnection { id, payload } => after.phase
                    == (PublishPhase::AwaitingDelivery { id }) && action == (PublishAction::Deliver {
                    topic: before.topic,
                    payload,
                }),
                _ => false,
            },
            Err(d) => after.phase == PublishPhase::Finished && fails_with(
                action,
                connection_failed_view("Failed to get Redis connection: "@ + d@),
            ),
        },
        PublishSignal::Delivered(r) => match r {
            Ok(_) => match before.phase {
                PublishPhase::AwaitingDelivery { id } => after.phase == PublishPhase::Finished
                    && action == PublishAction::Finish(Ok(id)),
                _ => false,
            },
            Err(d) => after.phase == PublishPhase::Finished && fails_with(
                action,
                publish_failed_view(before.topic@, delivery_failure_text(before.mode) + d@),
            ),
        },
    }
}

impl PublishFlow {
    /// Starts a publish of `mode` to `topic`, with its first action.
    pub fn begin(mode: PublishMode, topic: String) -> (r: (PublishFlow, PublishAction))
        ensures
            r.0.mode == mode,
            r.0.topic == topic,
            r.0.phase == initial_phase(mode),
            r.1 == initial_action(mode),
    {
        match mode {
            PublishMode::Plain => (
                PublishFlow { mode, topic, phase: PublishPhase::AwaitingEventCheck },
                PublishAction::CheckEvent,
            ),
            _ => (
                PublishFlow { mode, topic, phase: PublishPhase::AwaitingEnvelope },
                PublishAction::EncodeEnvelope,
            ),
        }
    }

    /// Whether the flow waits for `signal` now.
    pub fn accepts(&self, signal: &PublishSignal) -> (b: bool)
        ensures
            b == awaits(self.phase, *signal),
    {
        match (&self.phase, signal) {
            (PublishPhase::AwaitingEventCheck, PublishSignal::EventChecked(_)) => true,
            (PublishPhase::AwaitingEnvelope, PublishSignal::EnvelopeEncoded { .. }) => true,
            (PublishPhase::AwaitingConnection { .. }, PublishSignal::Connected(_)) => true,
            (PublishPhase::AwaitingDelivery { .. }, PublishSignal::Delivered(_)) => true,
            _ => false,
        }
    }

    /// Takes in how the pending work went and hands out the next action.
    pub fn step(&mut self, signal: PublishSignal) -> (action: PublishAction)
        requires
            awaits(old(self).phase, signal),
        ensures
            publish_step(*old(self), signal, *final(self), action),
    {
        let mut phase = PublishPhase::Finished;
        std::mem::swap(&mut phase, &mut self.phase);
        match (phase, signal) {
            (PublishPhase::AwaitingEventCheck, PublishSignal::EventChecked(r)) => match r {
                Ok(_) => {
                    self.phase = PublishPhase::AwaitingEnvelope;
                    PublishAction::EncodeEnvelope
                },
                Err(d) => PublishAction::Finish(
                    Err(serialization_failed(joined("Failed to serialize event: ", d.as_str()).as_str())),
                ),
            },
            (PublishPhase::AwaitingEnvelope, PublishSignal::EnvelopeEncoded { id, payload }) => match payload {
                Ok(p) => {
                    self.phase = PublishPhase::AwaitingConnection { id, payload: p };
                    PublishAction::Connect
                },
                Err(d) => PublishAction::Finish(
                    Err(
                        serialization_failed(
                            joined(envelope_failure_prefix(self.mode), d.as_str()).as_str(),
                        ),
                    ),
                ),
            },
            (PublishPhase::AwaitingConnection { id, payload }, PublishSignal::Connected(r)) => match r {
                Ok(_) => {
                    self.phase = PublishPhase::AwaitingDelivery { id };
                    PublishAction::Deliver { topic: self.topic.clone(), payload }
                },
                Err(d) => PublishAction::Finish(
                    Err(
                        connection_failed(
                            joined("Failed to get Redis connection: ", d.as_str()).as_str(),
                        ),
                    ),
                ),
            },
            (PublishPhase::AwaitingDelivery { id }, PublishSignal::Delivered(r)) => match r {
                Ok(_) => PublishAction::Finish(Ok(id)),
                Err(d) => PublishAction::Finish(
                    Err(
                        publish_failed(
                            self.topic.as_str(),
                            joined(delivery_failure_prefix(self.mode), d.as_str()).as_str(),
                        ),
                    ),
                ),
            },
            // `requires` rules out a signal that the phase does not wait for.
            _ => vstd::pervasive::unreached(),
        }
    }
}

/// A publish whose event is encoded, whose connection is had and whose
/// PUBLISH is answered sends the encoded event to the flow's topic and
/// reports the id that came with the encoding.
pub proof fn lemma_publish_reports_its_id(
    f0: PublishFlow,
    f1: PublishFlow,
    f2: PublishFlow,
    f3: PublishFlow,
    a1: PublishAction,
    a2: PublishAction,
    a3: PublishAction,
    id: String,
    payload: String,
)
    requires
        publish_step(f0, PublishSignal::EnvelopeEncoded { id, payload: Ok(payload) }, f1, a1),
        publish_step(f1, PublishSignal::Connected(Ok(())), f2, a2),
        publish_step(f2, PublishSignal::Delivered(Ok(())), f3, a3),
    ensures
        a1 == PublishAction::Connect,
        a2 == (PublishAction::Deliver { topic: f0.topic, payload }),
        a3 == PublishAction::Finish(Ok(id)),
        f3.phase == PublishPhase::Finished,
{
}

/// A publish whose event is encoded and whose connection is had sends the
/// encoded event to the flow's topic.
pub proof fn lemma_publish_delivers_its_payload(
    f0: PublishFlow,
    f1: PublishFlow,
    f2: PublishFlow,
    a1: PublishAction,
    a2: PublishAction,
    id: String,
    payload: String,
)
    requires
        publish_step(f0, PublishSignal::EnvelopeEncoded { id, payload: Ok(payload) }, f1, a1),
        publish_step(f1, PublishSignal::Connected(Ok(())), f2, a2),
    ensures
        a2 == (PublishAction::Deliver { topic: f0.topic, payload }),
{
}

/// A failure at any step ends the publish with an error: nothing more is
/// sent.
pub proof fn lemma_publish_failure_is_final(
    before: PublishFlow,
    signal: PublishSignal,
    after: PublishFlow,
    action: PublishAction,
)
    requires
        publish_step(before, signal, after, action),
        match signal {
            PublishSignal::EventChecked(r) => r is Err,
            PublishSignal::EnvelopeEncoded { payload, .. } => payload is Err,
            PublishSignal::Connected(r) => r is Err,
            PublishSignal::Delivered(r) => r is Err,
        },
    ensures
        after.phase == PublishPhase::Finished,
        action matches PublishAction::Finish(Err(_)),
{
}

/// A publish step reports success only when PUBLISH was answered, and what
/// it reports is the id the flow was carrying while waiting for that answer.
pub proof fn lemma_publish_succeeds_only_on_delivery(
    before: PublishFlow,
    signal: PublishSignal,
    after: PublishFlow,
    action: PublishAction,
    id: String,
)
    requires
        publish_step(before, signal, after, action),
        action == PublishAction::Finish(Ok(id)),
    ensures
        signal matches PublishSignal::Delivered(Ok(_)),
        before.phase == (PublishPhase::AwaitingDelivery { id }),
        after.phase == PublishPhase::Finished,
{
}

/// A publish step comes to wait for PUBLISH's answer only by sending, to
/// the flow's topic, the encoded event that it was holding, under that
/// event's id.
pub proof fn lemma_publish_waits_only_after_sending(
    before: PublishFlow,
    signal: PublishSignal,
    after: PublishFlow,
    action: PublishAction,
    id: String,
)
    requires
        publish_step(before, signal, after, action),
        after.phase == (PublishPhase::AwaitingDelivery { id }),
    ensures
        signal matches PublishSignal::Connected(Ok(_)),
        exists|payload: String|
            before.phase == (PublishPhase::AwaitingConnection { id, payload }) && action == (
            PublishAction::Deliver { topic: before.topic, payload }),
{
    match before.phase {
        PublishPhase::AwaitingConnection { id: i, payload } => {
            assert(before.phase == (PublishPhase::AwaitingConnection { id, payload }));
        },
        _ => {},
    }
}

/// A publish step comes to hold an encoded event only from a successful
/// encoding, which brings both the event and its id.
pub proof fn lemma_publish_holds_only_what_was_encoded(
    before: PublishFlow,
    signal: PublishSignal,
    after: PublishFlow,
    action: PublishAction,
    id: String,
    payload: String,
)
    requires
        publish_step(before, signal, after, action),
        after.phase == (PublishPhase::AwaitingConnection { id, payload }),
    ensures
        signal == (PublishSignal::EnvelopeEncoded { id, payload: Ok(payload) }),
        action == PublishAction::Connect,
{
}

/// `flows`, `signals` and `actions` are a run of publish steps.
pub open spec fn publish_run(
    flows: Seq<PublishFlow>,
    signals: Seq<PublishSignal>,
    actions: Seq<PublishAction>,
) -> bool {
    &&& flows.len() == signals.len() + 1
    &&& actions.len() == signals.len()
    &&& forall|k: int|
        #![trigger signals[k]]
        0 <= k < signals.len() ==> publish_step(flows[k], signals[k], flows[k + 1], actions[k])
}

proof fn lemma_publish_run_keeps_topic(
    flows: Seq<PublishFlow>,
    signals: Seq<PublishSignal>,
    actions: Seq<PublishAction>,
    k: nat,
)
    requires
        publish_run(flows, signals, actions),
        k < flows.len(),
    ensures
        flows[k as int].topic == flows[0].topic,
        flows[k as int].mode == flows[0].mode,
    decreases k,
{
    if k > 0 {
        lemma_publish_run_keeps_topic(flows, signals, actions, (k - 1) as nat);
        assert(publish_step(flows[k - 1], signals[k - 1], flows[k as int], actions[k - 1]));
    }
}

/// In a publish run from its start, success is reported only after the run
/// handed out a PUBLISH of an encoded event to the publish's own topic and
/// that PUBLISH was answered; the id reported is the one that came with
/// that very encoding.
pub proof fn lemma_publish_run_reports_what_it_published(
    flows: Seq<PublishFlow>,
    signals: Seq<PublishSignal>,
    actions: Seq<PublishAction>,
    k: int,
    id: String,
)
    requires
        publish_run(flows, signals, actions),
        flows[0].phase == initial_phase(flows[0].mode),
        0 <= k < actions.len(),
        actions[k] == PublishAction::Finish(Ok(id)),
    ensures
        k >= 2,
        signals[k] matches PublishSignal::Delivered(Ok(_)),
        signals[k - 1] matches PublishSignal::Connected(Ok(_)),
        exists|payload: String|
            signals[k - 2] == (PublishSignal::EnvelopeEncoded { id, payload: Ok(payload) })
                && actions[k - 1] == (PublishAction::Deliver { topic: flows[0].topic, payload }),
{
    assert(publish_step(flows[k], signals[k], flows[k + 1], actions[k]));
    lemma_publish_succeeds_only_on_delivery(flows[k], signals[k], flows[k + 1], actions[k], id);
    assert(k >= 1);
    assert(publish_step(flows[k - 1], signals[k - 1], flows[k], actions[k - 1]));
    lemma_publish_waits_only_after_sending(flows[k - 1], signals[k - 1], flows[k], actions[k - 1], id);
    let payload = choose|payload: String|
        flows[k - 1].phase == (PublishPhase::AwaitingConnection { id, payload }) && actions[k - 1] == (
        PublishAction::Deliver { topic: flows[k - 1].topic, payload });
    assert(k >= 2);
    assert(publish_step(flows[k - 2], signals[k - 2], flows[k - 1], actions[k - 2]));
    lemma_publish_holds_only_what_was_encoded(
        flows[k - 2],
        signals[k - 2],
        flows[k - 1],
        actions[k - 2],
        id,
        payload,
    );
    lemma_publish_run_keeps_topic(flows, signals, actions, (k - 1) as nat);
}

/// A plain publish whose bare event encodes goes on to wrap and encode the
/// event, whatever the topic: the check only decides on failure.
pub proof fn lemma_plain_publish_check_goes_on(
    before: PublishFlow,
    after: PublishFlow,
    action: PublishAction,
)
    requires
        publish_step(before, PublishSignal::EventChecked(Ok(())), after, action),
    ensures
        action == PublishAction::EncodeEnvelope,
        after.phase == PublishPhase::AwaitingEnvelope,
        after.topic == before.topic,
{
}

} // verus!
