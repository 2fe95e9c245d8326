//! The steps of a batch publish (a pipeline) and of a transactional one
//! (a MULTI/EXEC pipeline), as a machine that the adapter drives.
//!
//! A connection is had first; then each event is wrapped and encoded in
//! turn and queued as a PUBLISH; then the queue is executed at once. The
//! caller is told the ids of the events, one per event, in order.

use vstd::prelude::*;
use crate::publishing::{
    lemma_publish_delivers_its_payload, publish_step, PublishAction, PublishFlow, PublishSignal,
};
use crate::redis_pubsub_errors::{
    PubSubError, ErrorView, connection_failed, connection_failed_view, joined, publish_failed,
    publish_failed_view, serialization_failed, serialization_failed_view,
};

verus! {

/// Which batch operation a flow carries out.
#[derive(Clone, Copy, PartialEq, Eq, Structural, Debug)]
pub enum BatchMode {
    /// `publish_batch`: a plain pipeline.
    Pipeline,
    /// `publish_transactional`: an atomic (MULTI/EXEC) pipeline.
    Transaction,
}

/// One queued `PUBLISH topic payload`.
#[derive(Debug)]
pub struct PublishCommand {
    pub topic: String,
    pub payload: String,
}

/// Where a batch stands.
#[derive(Clone, Copy, PartialEq, Eq, Structural, Debug)]
pub enum BatchPhase {
    /// Waiting for a connection.
    AwaitingConnection,
    /// Waiting for the event at index `ids.len()` to be encoded.
    Encoding,
    /// Waiting for the queued commands to run.
    AwaitingExecution,
    /// Done; the outcome has been handed out.
    Finished,
}

/// A batch publish in progress, over events bound for `topics`, in order.
#[derive(Debug)]
pub struct BatchFlow {
    pub mode: BatchMode,
    /// The topic of each event of the batch.
    pub topics: Vec<String>,
    pub phase: BatchPhase,
    /// The commands queued so far.
    pub commands: Vec<PublishCommand>,
    /// The ids of the events encoded so far, in order.
    pub ids: Vec<String>,
}

/// How a piece of outside work went; an `Err` carries the failure's text.
#[derive(Debug)]
pub enum BatchSignal {
    /// A connection to the broker was had, or not.
    Connected(Result<(), String>),
    /// The next event, wrapped with the id `id`, was encoded into
    /// `payload`, or could not be.
    Encoded { id: String, payload: Result<String, String> },
    /// The queued commands ran, or failed.
    Executed(Result<(), String>),
}

/// What the adapter is to do next.
#[derive(Debug)]
pub enum BatchAction {
    /// Get a connection to the broker.
    Connect,
    /// Wrap and encode the event at `index` of the batch.
    Encode { index: usize },
    /// Run `commands` in one pipeline, atomically when `atomic`.
    Execute { commands: Vec<PublishCommand>, atomic: bool },
    /// Stop and tell the caller this.
    Finish(Result<Vec<String>, PubSubError>),
}

/// The words before a connection failure.
pub open spec fn connect_failure_text(mode: BatchMode) -> Seq<char> {
    match mode {
        BatchMode::Pipeline => "Failed to get Redis connection for batch: "@,
        BatchMode::Transaction => "Failed to get Redis connection for transaction: "@,
    }
}

/// The words before an encoding failure.
pub open spec fn encode_failure_text(mode: BatchMode) -> Seq<char> {
    match mode {
        BatchMode::Pipeline => "Failed to serialize batch event: "@,
        BatchMode::Transaction => "Failed to serialize transactional event: "@,
    }
}

/// What an execution failure names in place of a topic.
pub open spec fn execution_label(mode: BatchMode) -> Seq<char> {
    match mode {
        BatchMode::Pipeline => "batch"@,
        BatchMode::Transaction => "transaction"@,
    }
}

/// The words before an execution failure.
pub open spec fn execution_failure_text(mode: BatchMode) -> Seq<char> {
    match mode {
        BatchMode::Pipeline => "Pipeline execution failed: "@,
        BatchMode::Transaction => "Transaction execution failed: "@,
    }
}

/// Whether the pipeline of `mode` runs atomically.
pub open spec fn is_atomic(mode: BatchMode) -> bool {
    mode == BatchMode::Transaction
}

fn connect_failure_prefix(mode: BatchMode) -> (s: &'static str)
    ensures
        s@ == connect_failure_text(mode),
{
    match mode {
        BatchMode::Pipeline => "Failed to get Redis connection for batch: ",
        BatchMode::Transaction => "Failed to get Redis connection for transaction: ",
    }
}

fn encode_failure_prefix(mode: BatchMode) -> (s: &'static str)
    ensures
        s@ == encode_failure_text(mode),
{
    match mode {
        BatchMode::Pipeline => "Failed to serialize batch event: ",
        BatchMode::Transaction => "Failed to serialize transactional event: ",
    }
}

fn execution_label_text(mode: BatchMode) -> (s: &'static str)
    ensures
        s@ == execution_label(mode),
{
    match mode {
        BatchMode::Pipeline => "batch",
        BatchMode::Transaction => "transaction",
    }
}

fn execution_failure_prefix(mode: BatchMode) -> (s: &'static str)
    ensures
        s@ == execution_failure_text(mode),
{
    match mode {
        BatchMode::Pipeline => "Pipeline execution failed: ",
        BatchMode::Transaction => "Transaction execution failed: ",
    }
}

/// The signal is the one the flow waits for in its phase.
pub open spec fn batch_awaits(phase: BatchPhase, signal: BatchSignal) -> bool {
    match (phase, signal) {
        (BatchPhase::AwaitingConnection, BatchSignal::Connected(_)) => true,
        (BatchPhase::Encoding, BatchSignal::Encoded { .. }) => true,
        (BatchPhase::AwaitingExecution, BatchSignal::Executed(_)) => true,
        _ => false,
    }
}

/// The action stops the batch with the error `e`.
pub open spec fn batch_fails_with(action: BatchAction, e: ErrorView) -> bool {
    action matches BatchAction::Finish(Err(err)) && err@ == e
}

/// The action runs exactly `commands`, atomically as `mode` asks.
pub open spec fn executes(action: BatchAction, commands: Seq<PublishCommand>, mode: BatchMode) -> bool {
    action matches BatchAction::Execute { commands: c, atomic } && c@ == commands && atomic
        == is_atomic(mode)
}

/// Every queued command goes to the topic of its event.
pub open spec fn commands_follow_topics(commands: Seq<PublishCommand>, topics: Seq<String>) -> bool {
    &&& commands.len() <= topics.len()
    &&& forall|i: int| 0 <= i < commands.len() ==> #[trigger] commands[i].topic == topics[i]
}

impl BatchFlow {
    /// The number of events of the batch.
    pub open spec fn total(&self) -> nat {
        self.topics@.len()
    }

    /// The bookkeeping of the flow agrees with its phase.
    pub open spec fn wf(&self) -> bool {
        &&& commands_follow_topics(self.commands@, self.topics@)
        &&& match self.phase {
            BatchPhase::AwaitingConnection => self.ids@.len() == 0 && self.commands@.len() == 0,
            BatchPhase::Encoding => self.ids@.len() == self.commands@.len() && self.ids@.len()
                < self.total(),
            BatchPhase::AwaitingExecution => self.ids@.len() == self.total(),
            BatchPhase::Finished => true,
        }
    }
}

/// One step of a batch: from `before`, on `signal`, the flow becomes
/// `after` and hands out `action`.
pub open spec fn batch_step(
    before: BatchFlow,
    signal: BatchSignal,
    after: BatchFlow,
    action: BatchAction,
) -> bool {
    &&& after.mode == before.mode
    &&& after.topics@ == before.topics@
    &&& match signal {
        BatchSignal::Connected(r) => match r {
            Ok(_) => after.ids@ == before.ids@ && if before.total() == 0 {
                after.phase == BatchPhase::AwaitingExecution && after.commands@.len() == 0
                    && executes(action, before.commands@, before.mode)
            } else {
                after.phase == BatchPhase::Encoding && after.commands@ == before.commands@
                    && action == (BatchAction::Encode { index: 0 })
            },
            Err(d) => after.phase == BatchPhase::Finished && batch_fails_with(
                action,
                connection_failed_view(connect_failure_text(before.mode) + d@),
            ),
        },
        BatchSignal::Encoded { id, payload } => match payload {
            Ok(p) => {
                let queued = before.commands@.push(
                    PublishCommand { topic: before.topics@[before.ids@.len() as int], payload: p },
                );
                &&& after.ids@ == before.ids@.push(id)
                &&& if after.ids@.len() == before.total() {
                    after.phase == BatchPhase::AwaitingExecution && after.commands@.len() == 0
                        && executes(action, queued, before.mode)
                } else {
                    after.phase == BatchPhase::Encoding && after.commands@ == queued && action
                        == (BatchAction::Encode { index: after.ids@.len() as usize })
                }
            },
            Err(d) => after.phase == BatchPhase::Finished && batch_fails_with(
                action,
                serialization_failed_view(encode_failure_text(before.mode) + d@),
            ),
        },
        BatchSignal::Executed(r) => after.phase == BatchPhase::Finished && match r {
            Ok(_) => action matches BatchAction::Finish(Ok(v)) && v@ == before.ids@,
            Err(d) => batch_fails_with(
                action,
                publish_failed_view(execution_label(before.mode), execution_failure_text(before.mode) + d@),
            ),
        },
    }
}

impl BatchFlow {
    /// Starts a batch of `mode` over events bound for `topics`, with its
    /// first action.
    pub fn begin(mode: BatchMode, topics: Vec<String>) -> (r: (BatchFlow, BatchAction))
        ensures
            r.0.wf(),
            r.0.mode == mode,
            r.0.topics@ == topics@,
            r.0.phase == BatchPhase::AwaitingConnection,
            r.1 == BatchAction::Connect,
    {
        (
            BatchFlow { mode, topics, phase: BatchPhase::AwaitingConnection, commands: Vec::new(), ids: Vec::new() },
            BatchAction::Connect,
        )
    }

    /// Whether the flow waits for `signal` now.
    pub fn accepts(&self, signal: &BatchSignal) -> (b: bool)
        ensures
            b == batch_awaits(self.phase, *signal),
    {
        match (self.phase, signal) {
            (BatchPhase::AwaitingConnection, BatchSignal::Connected(_)) => true,
            (BatchPhase::Encoding, BatchSignal::Encoded { .. }) => true,
            (BatchPhase::AwaitingExecution, BatchSignal::Executed(_)) => true,
            _ => false,
        }
    }

    fn hand_over_commands(&mut self) -> (action: BatchAction)
        ensures
            final(self).mode == old(self).mode,
            final(self).topics == old(self).topics,
            final(self).ids == old(self).ids,
            final(self).phase == BatchPhase::AwaitingExecution,
            final(self).commands@.len() == 0,
            executes(action, old(self).commands@, old(self).mode),
    {
        let mut commands = Vec::new();
        std::mem::swap(&mut commands, &mut self.commands);
        self.phase = BatchPhase::AwaitingExecution;
        let atomic = match self.mode {
            BatchMode::Transaction => true,
            BatchMode::Pipeline => false,
        };
        BatchAction::Execute { commands, atomic }
    }

    /// Takes in how the pending work went and hands out the next action.
    /// The pipeline it hands out holds one PUBLISH per event, each to the
    /// event's topic; when the batch succeeds, it reports one id per event.
    pub fn step(&mut self, signal: BatchSignal) -> (action: BatchAction)
        requires
            old(self).wf(),
            batch_awaits(old(self).phase, signal),
        ensures
            final(self).wf(),
            batch_step(*old(self), signal, *final(self), action),
            action matches BatchAction::Execute { commands, .. } ==> commands@.len() == old(self).total()
                && commands_follow_topics(commands@, old(self).topics@),
            action matches BatchAction::Finish(Ok(v)) ==> v@.len() == old(self).total(),
    {
        match signal {
            BatchSignal::Connected(r) => match r {
                Ok(_) => {
                    if self.topics.len() == 0 {
                        self.hand_over_commands()
                    } else {
                        self.phase = BatchPhase::Encoding;
                        BatchAction::Encode { index: 0 }
                    }
                },
                Err(d) => {
                    self.phase = BatchPhase::Finished;
                    BatchAction::Finish(
                        Err(
                            connection_failed(
                                joined(connect_failure_prefix(self.mode), d.as_str()).as_str(),
                            ),
                        ),
                    )
                },
            },
            BatchSignal::Encoded { id, payload } => match payload {
                Ok(p) => {
                    let topic = self.topics[self.ids.len()].clone();
                    self.commands.push(PublishCommand { topic, payload: p });
                    self.ids.push(id);
                    if self.ids.len() == self.topics.len() {
                        self.hand_over_commands()
                    } else {
                        BatchAction::Encode { index: self.ids.len() }
                    }
                },
                Err(d) => {
                    self.phase = BatchPhase::Finished;
                    BatchAction::Finish(
                        Err(
                            serialization_failed(
                                joined(encode_failure_prefix(self.mode), d.as_str()).as_str(),
                            ),
                        ),
                    )
                },
            },
            BatchSignal::Executed(r) => {
                self.phase = BatchPhase::Finished;
                match r {
                    Ok(_) => {
                        let mut ids = Vec::new();
                        std::mem::swap(&mut ids, &mut self.ids);
                        BatchAction::Finish(Ok(ids))
                    },
                    Err(d) => BatchAction::Finish(
                        Err(
                            publish_failed(
                                execution_label_text(self.mode),
                                joined(execution_failure_prefix(self.mode), d.as_str()).as_str(),
                            ),
                        ),
                    ),
                }
            },
        }
    }
}

/// The id that an encoding signal brings.
pub open spec fn encoded_id(signal: BatchSignal) -> String {
    match signal {
        BatchSignal::Encoded { id, .. } => id,
        _ => arbitrary(),
    }
}

/// The payload that a successful encoding signal brings.
pub open spec fn encoded_payload(signal: BatchSignal) -> String {
    match signal {
        BatchSignal::Encoded { payload: Ok(p), .. } => p,
        _ => arbitrary(),
    }
}

/// The ids brought by the `count` encodings that follow the connection.
pub open spec fn encoded_ids(signals: Seq<BatchSignal>, count: nat) -> Seq<String> {
    Seq::new(count, |k: int| encoded_id(signals[k + 1]))
}

/// The commands for the first `count` events of a batch over `topics`,
/// whose encodings follow the connection in `signals`.
pub open spec fn encoded_commands(topics: Seq<String>, signals: Seq<BatchSignal>, count: nat) -> Seq<
    PublishCommand,
> {
    Seq::new(
        count,
        |k: int| PublishCommand { topic: topics[k], payload: encoded_payload(signals[k + 1]) },
    )
}

/// `flows`, `signals` and `actions` are a run of batch steps.
pub open spec fn batch_run(
    flows: Seq<BatchFlow>,
    signals: Seq<BatchSignal>,
    actions: Seq<BatchAction>,
) -> bool {
    &&& flows.len() == signals.len() + 1
    &&& actions.len() == signals.len()
    &&& forall|k: int|
        #![trigger signals[k]]
        0 <= k < signals.len() ==> batch_step(flows[k], signals[k], flows[k + 1], actions[k])
}

/// The run of a batch in which the connection is had, every event is
/// encoded and the pipeline runs.
pub open spec fn batch_succeeds(
    flows: Seq<BatchFlow>,
    signals: Seq<BatchSignal>,
    actions: Seq<BatchAction>,
) -> bool {
    &&& batch_run(flows, signals, actions)
    &&& flows[0].wf()
    &&& flows[0].phase == BatchPhase::AwaitingConnection
    &&& signals.len() == flows[0].total() + 2
    &&& signals[0] == BatchSignal::Connected(Ok(()))
    &&& forall|j: int|
        1 <= j <= flows[0].total() ==> (#[trigger] signals[j] matches BatchSignal::Encoded {
            payload,
            ..
        } && payload is Ok)
    &&& signals[flows[0].total() as int + 1] == BatchSignal::Executed(Ok(()))
}

/// Where in a successful run of `count` events the pipeline is handed out:
/// at the connection when there is no event, else at the last encoding.
pub open spec fn execution_step(count: nat) -> int {
    if count == 0 {
        0
    } else {
        count as int
    }
}

proof fn lemma_batch_so_far(
    flows: Seq<BatchFlow>,
    signals: Seq<BatchSignal>,
    actions: Seq<BatchAction>,
    k: nat,
)
    requires
        batch_succeeds(flows, signals, actions),
        1 <= k <= flows[0].total() + 1,
    ensures
        flows[k as int].topics@ == flows[0].topics@,
        flows[k as int].ids@ == encoded_ids(signals, (k - 1) as nat),
        k <= flows[0].total() ==> flows[k as int].commands@ == encoded_commands(
            flows[0].topics@,
            signals,
            (k - 1) as nat,
        ),
        k == flows[0].total() + 1 ==> executes(
            actions[execution_step(flows[0].total())],
            encoded_commands(flows[0].topics@, signals, flows[0].total()),
            flows[0].mode,
        ),
        flows[k as int].mode == flows[0].mode,
        k <= flows[0].total() ==> flows[k as int].phase == BatchPhase::Encoding,
        k == flows[0].total() + 1 ==> flows[k as int].phase == BatchPhase::AwaitingExecution,
    decreases k,
{
    let n = flows[0].total();
    if k == 1 {
        assert(batch_step(flows[0], signals[0], flows[1], actions[0]));
        assert(encoded_ids(signals, 0) =~= Seq::<String>::empty());
        assert(encoded_commands(flows[0].topics@, signals, 0) =~= Seq::<PublishCommand>::empty());
        if n == 0 {
            assert(execution_step(n) == 0);
            assert(flows[0].commands@ =~= encoded_commands(flows[0].topics@, signals, 0));
        }
    } else {
        lemma_batch_so_far(flows, signals, actions, (k - 1) as nat);
        let j = k - 1;
        assert(batch_step(flows[j as int], signals[j as int], flows[k as int], actions[j as int]));
        assert(signals[j as int] matches BatchSignal::Encoded { payload, .. } && payload is Ok);
        assert(encoded_ids(signals, (k - 1) as nat) =~= encoded_ids(signals, (j - 1) as nat).push(
            encoded_id(signals[j as int]),
        ));
        assert(encoded_commands(flows[0].topics@, signals, (k - 1) as nat) =~= encoded_commands(
            flows[0].topics@,
            signals,
            (j - 1) as nat,
        ).push(
            PublishCommand {
                topic: flows[0].topics@[(j - 1) as int],
                payload: encoded_payload(signals[j as int]),
            },
        ));
        if k == n + 1 {
            assert(flows[k as int].ids@.len() == n);
        }
    }
}

/// A batch whose connection is had, whose every event is encoded and
/// whose pipeline runs sends one PUBLISH per event, in the order of the
/// events, each to its event's topic with its event's encoding, atomically
/// as the mode asks; and it reports the ids of its events, one per event,
/// in order.
pub proof fn lemma_batch_reports_every_id(
    flows: Seq<BatchFlow>,
    signals: Seq<BatchSignal>,
    actions: Seq<BatchAction>,
)
    requires
        batch_succeeds(flows, signals, actions),
    ensures
        executes(
            actions[execution_step(flows[0].total())],
            encoded_commands(flows[0].topics@, signals, flows[0].total()),
            flows[0].mode,
        ),
        actions[flows[0].total() as int + 1] matches BatchAction::Finish(Ok(v)) && v@ == encoded_ids(
            signals,
            flows[0].total(),
        ),
{
    let n = flows[0].total();
    lemma_batch_so_far(flows, signals, actions, n + 1);
    let last: int = n as int + 1;
    assert(batch_step(flows[last], signals[last], flows[last + 1], actions[last]));
}

/// A batch sends, for each event, the very PUBLISH that a single publish of
/// that event (to the same topic, with the same encoding) sends.
pub proof fn lemma_batch_sends_what_single_publishes_send(
    flows: Seq<BatchFlow>,
    signals: Seq<BatchSignal>,
    actions: Seq<BatchAction>,
    j: int,
    f0: PublishFlow,
    f1: PublishFlow,
    f2: PublishFlow,
    a1: PublishAction,
    a2: PublishAction,
    id: String,
)
    requires
        batch_succeeds(flows, signals, actions),
        0 <= j < flows[0].total(),
        f0.topic == flows[0].topics@[j],
        publish_step(
            f0,
            PublishSignal::EnvelopeEncoded { id, payload: Ok(encoded_payload(signals[j + 1])) },
            f1,
            a1,
        ),
        publish_step(f1, PublishSignal::Connected(Ok(())), f2, a2),
    ensures
        actions[execution_step(flows[0].total())] matches BatchAction::Execute { commands, .. } && (
        a2 matches PublishAction::Deliver { topic, payload } && commands@[j].topic == topic
            && commands@[j].payload == payload),
{
    lemma_batch_reports_every_id(flows, signals, actions);
    lemma_publish_delivers_its_payload(f0, f1, f2, a1, a2, id, encoded_payload(signals[j + 1]));
}

/// A failure at any step ends the batch with an error: nothing more is
/// encoded or sent.
pub proof fn lemma_batch_failure_is_final(
    before: BatchFlow,
    signal: BatchSignal,
    after: BatchFlow,
    action: BatchAction,
)
    requires
        batch_step(before, signal, after, action),
        match signal {
            BatchSignal::Connected(r) => r is Err,
            BatchSignal::Encoded { payload, .. } => payload is Err,
            BatchSignal::Executed(r) => r is Err,
        },
    ensures
        after.phase == BatchPhase::Finished,
        action matches BatchAction::Finish(Err(_)),
{
}

/// In every phase, a batch flow accepts every outcome, success or failure,
/// of the work it waits for in that phase.
pub proof fn lemma_batch_accepts_every_outcome(
    r: Result<(), String>,
    id: String,
    payload: Result<String, String>,
)
    ensures
        batch_awaits(BatchPhase::AwaitingConnection, BatchSignal::Connected(r)),
        batch_awaits(BatchPhase::Encoding, BatchSignal::Encoded { id, payload }),
        batch_awaits(BatchPhase::AwaitingExecution, BatchSignal::Executed(r)),
{
}

/// Along a successful batch run, the flow accepts each signal when it comes:
/// a driver that checks acceptance before each step goes through the whole
/// run, up to the ids.
pub proof fn lemma_batch_run_is_accepted(
    flows: Seq<BatchFlow>,
    signals: Seq<BatchSignal>,
    actions: Seq<BatchAction>,
)
    requires
        batch_succeeds(flows, signals, actions),
    ensures
        forall|k: int| 0 <= k < signals.len() ==> batch_awaits(flows[k].phase, #[trigger] signals[k]),
{
    let n = flows[0].total();
    assert forall|k: int| 0 <= k < signals.len() implies batch_awaits(flows[k].phase, #[trigger] signals[k]) by {
        if k >= 1 {
            lemma_batch_so_far(flows, signals, actions, k as nat);
        }
    }
}

} // verus!
