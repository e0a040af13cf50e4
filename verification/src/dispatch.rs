//! The broadcast dispatcher: one change event of the message table is fanned
//! out to the live connections of its room. The dispatcher performs no
//! outside work itself. Each step hands its caller the measurements to write
//! and one action to perform, and takes the action's answer as the next
//! event.

use crate::connection::LambdaResponse;
use crate::delivery::{
    connection_to_prune, classify_gateway, classify_local, gateway_result, local_result,
    plan_delivery, planned_delivery, stale_connection, Delivery, DeliveryResult, DeliveryView,
    GatewayOutcome, LocalOutcome,
};
use crate::metrics::{
    message_broadcast_metrics, message_sent_metrics, Metric, MetricView, MetricsHelper,
    MetricsHelperView,
};
use crate::outside::rfc3339_utc;
use crate::payload::{
    created_at_text, encode_payload, is_instant_text, message_of_record, payload_json,
    read_record, DynamoDBRecord, DynamoDBRecordView, RecordError,
};
use crate::types::ChatMessageView;
use crate::store::{Attribute, AttributeView};
use vstd::prelude::*;
use vstd::string::*;
use vstd::utf8::encode_utf8;

verus! {

/// The fan-out of one message in progress.
#[derive(Debug)]
pub struct Fanout {
    pub room_id: String,
    pub message_id: String,
    pub payload: String,
    /// The connections of the room, as the registry reported them once.
    pub connections: Vec<Vec<Attribute>>,
    /// How many of them have been taken up.
    pub next: usize,
    /// How many deliveries succeeded.
    pub successes: usize,
    /// How many stale connections were handed over for deletion.
    pub pruned: usize,
}

/// Where a dispatch stands.
#[derive(Debug)]
pub enum Phase {
    /// The registry was asked for the connections of the room.
    AwaitingConnections {
        room_id: String,
        message_id: String,
        text_length: usize,
        payload: String,
    },
    /// A delivery was handed over; its answer is awaited.
    Delivering { fanout: Fanout, delivery: Delivery },
    /// The deletion of a stale connection was handed over.
    Pruning { fanout: Fanout },
    /// Nothing is left to do.
    Finished,
}

/// The dispatch of one change event.
#[derive(Debug)]
pub struct Dispatch {
    phase: Phase,
}

/// The tally of a completed fan-out. `attempts` counts the connections that
/// the registry reported.
#[derive(Debug, PartialEq, Eq, Structural, Clone, Copy)]
pub struct Report {
    pub attempts: usize,
    pub successes: usize,
    pub pruned: usize,
}

/// How the dispatch of one change event ended.
#[derive(Debug, PartialEq, Eq, Structural, Clone, Copy)]
pub enum Outcome {
    /// The event was no insert.
    Skipped,
    /// The event could not be dispatched.
    Failed(RecordError),
    /// Every connection of the room was taken up.
    Completed(Report),
}

/// What the caller is to do next.
#[derive(Debug)]
pub enum Action {
    /// Ask the registry for the connections of a room.
    Query { room_id: String },
    /// Push the payload through the gateway.
    PostToConnection { connection_id: String, data: String },
    /// Push the payload through the local path.
    PostToUrl { push_url: String, body: String },
    /// Delete a registry record; whether that works is of no consequence.
    DeleteConnection { connection_id: String },
    /// Stop: the dispatch has ended.
    Finish(Outcome),
}

/// One step of a dispatch: the measurements to write, then the action.
#[derive(Debug)]
pub struct Step {
    pub metrics: Vec<Metric>,
    pub action: Action,
}

/// The answer to an action.
#[derive(Debug)]
pub enum Event {
    /// The registry's connections of the room, as of now.
    Connections(Vec<Vec<Attribute>>),
    /// The registry could not be asked.
    QueryFailed,
    /// The gateway's answer to a push.
    Gateway(GatewayOutcome),
    /// The local path's answer to a push.
    Local(LocalOutcome),
    /// The deletion was tried.
    Deleted,
}

/// What became of a batch of change events. Each event is dispatched on its
/// own, so the batch as a whole always succeeds.
#[derive(Debug, PartialEq, Eq, Structural, Clone, Copy)]
pub struct BatchReport {
    pub response: LambdaResponse,
    pub completed: usize,
    pub skipped: usize,
    pub failed: usize,
}

/// A fan-out as a mathematical value.
pub struct FanoutView {
    pub room_id: Seq<char>,
    pub message_id: Seq<char>,
    pub payload: Seq<char>,
    pub connections: Seq<Seq<AttributeView>>,
    pub next: int,
    pub successes: int,
    pub pruned: int,
}

/// A phase as a mathematical value.
pub enum PhaseView {
    AwaitingConnections {
        room_id: Seq<char>,
        message_id: Seq<char>,
        text_length: usize,
        payload: Seq<char>,
    },
    Delivering { fanout: FanoutView, delivery: DeliveryView },
    Pruning { fanout: FanoutView },
    Finished,
}

/// An action as a mathematical value.
pub enum ActionView {
    Query { room_id: Seq<char> },
    PostToConnection { connection_id: Seq<char>, data: Seq<char> },
    PostToUrl { push_url: Seq<char>, body: Seq<char> },
    DeleteConnection { connection_id: Seq<char> },
    Finish(Outcome),
}

/// A step as a mathematical value.
pub struct StepView {
    pub metrics: Seq<MetricView>,
    pub action: ActionView,
}

/// An event as a mathematical value.
pub enum EventView {
    Connections(Seq<Seq<AttributeView>>),
    QueryFailed,
    Gateway(GatewayOutcome),
    Local(LocalOutcome),
    Deleted,
}

impl View for Fanout {
    type V = FanoutView;

    open spec fn view(&self) -> FanoutView {
        FanoutView {
            room_id: self.room_id@,
            message_id: self.message_id@,
            payload: self.payload@,
            connections: self.connections.deep_view(),
            next: self.next as int,
            successes: self.successes as int,
            pruned: self.pruned as int,
        }
    }
}

impl View for Phase {
    type V = PhaseView;

    open spec fn view(&self) -> PhaseView {
        match self {
            Phase::AwaitingConnections {
                room_id,
                message_id,
                text_length,
                payload,
            } => PhaseView::AwaitingConnections {
                room_id: room_id@,
                message_id: message_id@,
                text_length: *text_length,
                payload: payload@,
            },
            Phase::Delivering { fanout, delivery } => PhaseView::Delivering {
                fanout: fanout@,
                delivery: delivery@,
            },
            Phase::Pruning { fanout } => PhaseView::Pruning { fanout: fanout@ },
            Phase::Finished => PhaseView::Finished,
        }
    }
}

impl View for Action {
    type V = ActionView;

    open spec fn view(&self) -> ActionView {
        match self {
            Action::Query { room_id } => ActionView::Query { room_id: room_id@ },
            Action::PostToConnection { connection_id, data } => ActionView::PostToConnection {
                connection_id: connection_id@,
                data: data@,
            },
            Action::PostToUrl { push_url, body } => ActionView::PostToUrl {
                push_url: push_url@,
                body: body@,
            },
            Action::DeleteConnection { connection_id } => ActionView::DeleteConnection {
                connection_id: connection_id@,
            },
            Action::Finish(outcome) => ActionView::Finish(*outcome),
        }
    }
}

impl View for Step {
    type V = StepView;

    open spec fn view(&self) -> StepView {
        StepView { metrics: self.metrics.deep_view(), action: self.action@ }
    }
}

impl View for Event {
    type V = EventView;

    open spec fn view(&self) -> EventView {
        match self {
            Event::Connections(items) => EventView::Connections(items.deep_view()),
            Event::QueryFailed => EventView::QueryFailed,
            Event::Gateway(o) => EventView::Gateway(*o),
            Event::Local(o) => EventView::Local(*o),
            Event::Deleted => EventView::Deleted,
        }
    }
}

impl View for Dispatch {
    type V = PhaseView;

    closed spec fn view(&self) -> PhaseView {
        self.phase@
    }
}

/// A count as a 32-bit measurement: the count, or the largest value there is.
pub open spec fn count_i32(n: int) -> int {
    if n <= i32::MAX {
        n
    } else {
        i32::MAX as int
    }
}

/// The length of a text in bytes of UTF-8.
pub open spec fn utf8_length(s: Seq<char>) -> usize {
    encode_utf8(s).len() as usize
}

/// Whether the counters of a fan-out fit its connections: no more connections
/// are taken up than there are, and each of those taken up counts at most
/// once, as a success or as pruned.
pub open spec fn fanout_wf(f: FanoutView) -> bool {
    &&& 0 <= f.next <= f.connections.len()
    &&& 0 <= f.successes
    &&& 0 <= f.pruned
    &&& f.successes + f.pruned <= f.next
}

/// Whether a phase is one that a dispatch can reach.
pub open spec fn phase_wf(p: PhaseView) -> bool {
    match p {
        PhaseView::AwaitingConnections { .. } => true,
        PhaseView::Delivering { fanout, delivery } => {
            &&& fanout_wf(fanout)
            &&& fanout.successes + fanout.pruned < fanout.next
            &&& delivery == planned_delivery(fanout.connections[fanout.next - 1])
            &&& delivery !is Skip
        },
        PhaseView::Pruning { fanout } => fanout_wf(fanout),
        PhaseView::Finished => true,
    }
}

/// The step that ends a dispatch without any measurement.
pub open spec fn ending(outcome: Outcome) -> (PhaseView, StepView) {
    (PhaseView::Finished, StepView { metrics: Seq::empty(), action: ActionView::Finish(outcome) })
}

/// The step that completes a fan-out: the three broadcast measurements, and
/// the report.
pub open spec fn completion(helper: MetricsHelperView, f: FanoutView) -> (PhaseView, StepView) {
    (
        PhaseView::Finished,
        StepView {
            metrics: message_broadcast_metrics(
                helper,
                f.room_id,
                count_i32(f.connections.len() as int),
                count_i32(f.successes),
            ),
            action: ActionView::Finish(
                Outcome::Completed(
                    Report {
                        attempts: f.connections.len() as usize,
                        successes: f.successes as usize,
                        pruned: f.pruned as usize,
                    },
                ),
            ),
        },
    )
}

/// From a fan-out to its next action: connections that cannot be reached are
/// passed over, the first that can be is delivered to, and when none is left
/// the fan-out completes.
pub open spec fn advance(helper: MetricsHelperView, f: FanoutView) -> (PhaseView, StepView)
    decreases f.connections.len() - f.next,
{
    if f.next < 0 || f.next >= f.connections.len() {
        completion(helper, f)
    } else {
        let delivery = planned_delivery(f.connections[f.next]);
        let taken = FanoutView { next: f.next + 1, ..f };
        match delivery {
            DeliveryView::Skip => advance(helper, taken),
            DeliveryView::Gateway { connection_id } => (
                PhaseView::Delivering { fanout: taken, delivery },
                StepView {
                    metrics: Seq::empty(),
                    action: ActionView::PostToConnection { connection_id, data: f.payload },
                },
            ),
            DeliveryView::Local { push_url, connection_id } => (
                PhaseView::Delivering { fanout: taken, delivery },
                StepView {
                    metrics: Seq::empty(),
                    action: ActionView::PostToUrl { push_url, body: f.payload },
                },
            ),
        }
    }
}

/// What a sink's answer means for the delivery that was handed over. An
/// answer of the other sink counts as a transient failure.
pub open spec fn delivery_result(delivery: DeliveryView, event: EventView) -> DeliveryResult {
    match (delivery, event) {
        (DeliveryView::Gateway { .. }, EventView::Gateway(o)) => gateway_result(o),
        (DeliveryView::Local { .. }, EventView::Local(o)) => local_result(o),
        _ => DeliveryResult::Transient,
    }
}

/// After a delivery came to `result`: a success is counted; a stale
/// connection whose id is known is handed over for deletion; else the
/// fan-out goes on.
pub open spec fn settle(
    helper: MetricsHelperView,
    f: FanoutView,
    delivery: DeliveryView,
    result: DeliveryResult,
) -> (PhaseView, StepView) {
    let counted = FanoutView {
        successes: if result == DeliveryResult::Delivered {
            f.successes + 1
        } else {
            f.successes
        },
        ..f
    };
    match stale_connection(delivery, result) {
        Some(connection_id) => (
            PhaseView::Pruning { fanout: FanoutView { pruned: f.pruned + 1, ..counted } },
            StepView {
                metrics: Seq::empty(),
                action: ActionView::DeleteConnection { connection_id },
            },
        ),
        None => advance(helper, counted),
    }
}

/// The fan-out that starts once the registry has reported `connections`.
pub open spec fn opening_fanout(
    room_id: Seq<char>,
    message_id: Seq<char>,
    payload: Seq<char>,
    connections: Seq<Seq<AttributeView>>,
) -> FanoutView {
    FanoutView { room_id, message_id, payload, connections, next: 0, successes: 0, pruned: 0 }
}

/// The step that follows `event` in `phase`.
pub open spec fn next_step(helper: MetricsHelperView, phase: PhaseView, event: EventView) -> (
    PhaseView,
    StepView,
) {
    match phase {
        PhaseView::AwaitingConnections {
            room_id,
            message_id,
            text_length,
            payload,
        } => match event {
            EventView::Connections(connections) => {
                let (p, s) = advance(
                    helper,
                    opening_fanout(room_id, message_id, payload, connections),
                );
                (
                    p,
                    StepView {
                        metrics: message_sent_metrics(helper, room_id, text_length as nat)
                            + s.metrics,
                        action: s.action,
                    },
                )
            },
            EventView::QueryFailed => ending(Outcome::Failed(RecordError::QueryFailed)),
            _ => ending(Outcome::Failed(RecordError::UnexpectedEvent)),
        },
        PhaseView::Delivering { fanout, delivery } => match event {
            EventView::Gateway(_) | EventView::Local(_) => settle(
                helper,
                fanout,
                delivery,
                delivery_result(delivery, event),
            ),
            _ => ending(Outcome::Failed(RecordError::UnexpectedEvent)),
        },
        PhaseView::Pruning { fanout } => match event {
            EventView::Deleted => advance(helper, fanout),
            _ => ending(Outcome::Failed(RecordError::UnexpectedEvent)),
        },
        PhaseView::Finished => ending(Outcome::Failed(RecordError::UnexpectedEvent)),
    }
}

/// The payload that a phase carries while the registry is being asked.
pub open spec fn awaited_payload(phase: PhaseView) -> Option<Seq<char>> {
    match phase {
        PhaseView::AwaitingConnections { payload, .. } => Some(payload),
        _ => None,
    }
}

/// The first step of the dispatch of `record`, where `payload` is the
/// encoded message: an event that is no insert is skipped, a malformed one
/// fails, and for a message the registry is asked for the connections of
/// its room.
pub open spec fn opening_step(record: DynamoDBRecordView, payload: Seq<char>) -> (
    PhaseView,
    StepView,
) {
    match message_of_record(record) {
        Ok(None) => ending(Outcome::Skipped),
        Err(e) => ending(Outcome::Failed(e)),
        Ok(Some(message)) => (
            PhaseView::AwaitingConnections {
                room_id: message.room_id,
                message_id: message.id,
                text_length: utf8_length(message.message_text),
                payload,
            },
            StepView {
                metrics: Seq::empty(),
                action: ActionView::Query { room_id: message.room_id },
            },
        ),
    }
}

/// Whether `payload` is the encoded form of `message`: its JSON object with
/// the instant in RFC 3339 or, where the calendar cannot represent the
/// message's instant, with the text of some other instant in its place.
pub open spec fn is_payload_of(message: ChatMessageView, payload: Seq<char>) -> bool {
    match rfc3339_utc(message.created_at) {
        Some(created_at) => payload == payload_json(message, created_at),
        None => exists|text: Seq<char>|
            is_instant_text(text) && payload == #[trigger] payload_json(message, text),
    }
}

/// Whether `phase` and `step` open the dispatch of `record`: for a message
/// the registry is asked, and the phase carries the message's payload; any
/// other event ends the dispatch at once.
pub open spec fn opens(record: DynamoDBRecordView, phase: PhaseView, step: StepView) -> bool {
    match message_of_record(record) {
        Ok(Some(message)) => {
            &&& awaited_payload(phase) matches Some(payload)
            &&& (phase, step) == opening_step(record, payload)
            &&& is_payload_of(message, payload)
        },
        _ => (phase, step) == opening_step(record, Seq::empty()),
    }
}

pub proof fn lemma_advance_wf(helper: MetricsHelperView, f: FanoutView)
    requires
        fanout_wf(f),
    ensures
        phase_wf(advance(helper, f).0),
        advance(helper, f).1.action matches ActionView::Finish(outcome) ==> outcome
            == Outcome::Completed(
            Report {
                attempts: f.connections.len() as usize,
                successes: f.successes as usize,
                pruned: f.pruned as usize,
            },
        ),
    decreases f.connections.len() - f.next,
{
    if f.next < f.connections.len() {
        let taken = FanoutView { next: f.next + 1, ..f };
        if planned_delivery(f.connections[f.next]) is Skip {
            lemma_advance_wf(helper, taken);
        }
    }
}

/// An event that is no insert leads to nothing: the dispatch ends at once,
/// skipped, with no measurement, no question to the registry and no
/// delivery.
pub proof fn law_only_inserts_are_dispatched(record: DynamoDBRecordView, payload: Seq<char>)
    requires
        record.event_name != "INSERT"@,
    ensures
        opening_step(record, payload) == ending(Outcome::Skipped),
        opening_step(record, payload).1.metrics.len() == 0,
        opening_step(record, payload).0 is Finished,
{
}

/// A malformed insert fails on its own: the dispatch ends with the reason,
/// and nothing is measured or delivered for it.
pub proof fn law_malformed_events_fail_alone(
    record: DynamoDBRecordView,
    payload: Seq<char>,
    e: RecordError,
)
    requires
        message_of_record(record) == Err::<Option<ChatMessageView>, RecordError>(e),
    ensures
        opening_step(record, payload) == ending(Outcome::Failed(e)),
{
}

/// A well-formed insert always reaches the registry: its dispatch opens by
/// asking for the connections of the message's room, once, with nothing
/// measured yet, and carries the payload that every connection will get.
pub proof fn law_inserts_reach_the_registry(
    record: DynamoDBRecordView,
    phase: PhaseView,
    step: StepView,
    message: ChatMessageView,
)
    requires
        message_of_record(record) == Ok::<Option<ChatMessageView>, RecordError>(Some(message)),
        opens(record, phase, step),
    ensures
        step.action == (ActionView::Query { room_id: message.room_id }),
        step.metrics.len() == 0,
        phase matches PhaseView::AwaitingConnections { room_id, message_id, text_length, payload }
            && room_id == message.room_id && message_id == message.id && text_length
            == utf8_length(message.message_text) && is_payload_of(message, payload),
{
}

/// Every step leads from a reachable phase to a reachable phase, whatever
/// the event.
pub proof fn law_steps_stay_reachable(helper: MetricsHelperView, phase: PhaseView, event: EventView)
    requires
        phase_wf(phase),
    ensures
        phase_wf(next_step(helper, phase, event).0),
{
    match phase {
        PhaseView::AwaitingConnections { room_id, message_id, text_length, payload } => {
            if let EventView::Connections(connections) = event {
                lemma_advance_wf(helper, opening_fanout(room_id, message_id, payload, connections));
            }
        },
        PhaseView::Delivering { fanout, delivery } => {
            let result = delivery_result(delivery, event);
            let counted = FanoutView {
                successes: if result == DeliveryResult::Delivered {
                    fanout.successes + 1
                } else {
                    fanout.successes
                },
                ..fanout
            };
            if stale_connection(delivery, result) is None {
                lemma_advance_wf(helper, counted);
            }
        },
        PhaseView::Pruning { fanout } => {
            lemma_advance_wf(helper, fanout);
        },
        PhaseView::Finished => {},
    }
}

/// A fan-out that completes reports every connection of the room as an
/// attempt, and no more successes and prunings together than attempts: each
/// connection counts at most once. A delivery is counted as a success only
/// when its sink said so, and a connection as pruned only when it proved
/// stale.
pub proof fn law_reports_add_up(
    helper: MetricsHelperView,
    phase: PhaseView,
    event: EventView,
    report: Report,
)
    requires
        phase_wf(phase),
        next_step(helper, phase, event).1.action == ActionView::Finish(Outcome::Completed(report)),
        phase matches PhaseView::Delivering { fanout, .. } ==> fanout.connections.len()
            <= usize::MAX,
        phase matches PhaseView::Pruning { fanout } ==> fanout.connections.len() <= usize::MAX,
        event matches EventView::Connections(connections) ==> connections.len() <= usize::MAX,
    ensures
        report.successes + report.pruned <= report.attempts,
        phase matches PhaseView::Delivering { fanout, .. } ==> report.attempts
            == fanout.connections.len(),
        phase matches PhaseView::Pruning { fanout } ==> report.attempts
            == fanout.connections.len(),
        phase is AwaitingConnections ==> (event matches EventView::Connections(connections)
            && report.attempts == connections.len()),
{
    match phase {
        PhaseView::AwaitingConnections { room_id, message_id, text_length, payload } => {
            if let EventView::Connections(connections) = event {
                lemma_advance_wf(helper, opening_fanout(room_id, message_id, payload, connections));
            }
        },
        PhaseView::Delivering { fanout, delivery } => {
            let result = delivery_result(delivery, event);
            let counted = FanoutView {
                successes: if result == DeliveryResult::Delivered {
                    fanout.successes + 1
                } else {
                    fanout.successes
                },
                ..fanout
            };
            if stale_connection(delivery, result) is None {
                lemma_advance_wf(helper, counted);
            }
        },
        PhaseView::Pruning { fanout } => {
            lemma_advance_wf(helper, fanout);
        },
        PhaseView::Finished => {},
    }
}

/// A registry record is handed over for deletion only in answer to a
/// delivery that proved its connection stale, and it is that connection's
/// record.
pub proof fn law_deletions_follow_staleness(
    helper: MetricsHelperView,
    phase: PhaseView,
    event: EventView,
    connection_id: Seq<char>,
)
    requires
        phase_wf(phase),
        next_step(helper, phase, event).1.action == (ActionView::DeleteConnection {
            connection_id,
        }),
    ensures
        phase matches PhaseView::Delivering { fanout, delivery } && delivery_result(delivery, event)
            == DeliveryResult::Stale && stale_connection(delivery, DeliveryResult::Stale) == Some(
            connection_id,
        ),
{
    match phase {
        PhaseView::AwaitingConnections { room_id, message_id, text_length, payload } => {
            if let EventView::Connections(connections) = event {
                lemma_advance_never_deletes(
                    helper,
                    opening_fanout(room_id, message_id, payload, connections),
                );
            }
        },
        PhaseView::Delivering { fanout, delivery } => {
            let result = delivery_result(delivery, event);
            let counted = FanoutView {
                successes: if result == DeliveryResult::Delivered {
                    fanout.successes + 1
                } else {
                    fanout.successes
                },
                ..fanout
            };
            if stale_connection(delivery, result) is None {
                lemma_advance_never_deletes(helper, counted);
            }
        },
        PhaseView::Pruning { fanout } => {
            lemma_advance_never_deletes(helper, fanout);
        },
        PhaseView::Finished => {},
    }
}

pub proof fn lemma_advance_never_deletes(helper: MetricsHelperView, f: FanoutView)
    ensures
        !(advance(helper, f).1.action is DeleteConnection),
        !(advance(helper, f).1.action is Query),
    decreases f.connections.len() - f.next,
{
    if 0 <= f.next < f.connections.len() {
        let taken = FanoutView { next: f.next + 1, ..f };
        if planned_delivery(f.connections[f.next]) is Skip {
            lemma_advance_never_deletes(helper, taken);
        }
    }
}

/// How many of the outcomes are completed fan-outs.
pub open spec fn completed_count(outcomes: Seq<Outcome>) -> nat
    decreases outcomes.len(),
{
    if outcomes.len() == 0 {
        0
    } else {
        completed_count(outcomes.drop_last()) + if outcomes.last() is Completed {
            1nat
        } else {
            0nat
        }
    }
}

/// How many of the outcomes are skipped events.
pub open spec fn skipped_count(outcomes: Seq<Outcome>) -> nat
    decreases outcomes.len(),
{
    if outcomes.len() == 0 {
        0
    } else {
        skipped_count(outcomes.drop_last()) + if outcomes.last() is Skipped {
            1nat
        } else {
            0nat
        }
    }
}

/// How many of the outcomes are failures.
pub open spec fn failed_count(outcomes: Seq<Outcome>) -> nat
    decreases outcomes.len(),
{
    if outcomes.len() == 0 {
        0
    } else {
        failed_count(outcomes.drop_last()) + if outcomes.last() is Failed {
            1nat
        } else {
            0nat
        }
    }
}

/// Every outcome of a batch is of exactly one kind, and a failure among them
/// takes nothing from the others.
pub proof fn law_batch_counts_add_up(outcomes: Seq<Outcome>)
    ensures
        completed_count(outcomes) + skipped_count(outcomes) + failed_count(outcomes)
            == outcomes.len(),
    decreases outcomes.len(),
{
    if outcomes.len() > 0 {
        law_batch_counts_add_up(outcomes.drop_last());
    }
}

/// Sums up a batch from the outcomes of its events. The answer is a success
/// whatever the outcomes are.
pub fn function_handler(outcomes: &Vec<Outcome>) -> (r: BatchReport)
    ensures
        r.response.status_code == 200,
        r.completed == completed_count(outcomes@),
        r.skipped == skipped_count(outcomes@),
        r.failed == failed_count(outcomes@),
{
    let mut completed: usize = 0;
    let mut skipped: usize = 0;
    let mut failed: usize = 0;
    let mut i: usize = 0;
    assert(outcomes@.take(0) =~= Seq::<Outcome>::empty());
    while i < outcomes.len()
        invariant
            i <= outcomes.len(),
            completed == completed_count(outcomes@.take(i as int)),
            skipped == skipped_count(outcomes@.take(i as int)),
            failed == failed_count(outcomes@.take(i as int)),
            completed + skipped + failed == i,
        decreases outcomes.len() - i,
    {
        assert(outcomes@.take(i + 1).drop_last() =~= outcomes@.take(i as int));
        match outcomes[i] {
            Outcome::Completed(_) => {
                completed = completed + 1;
            },
            Outcome::Skipped => {
                skipped = skipped + 1;
            },
            Outcome::Failed(_) => {
                failed = failed + 1;
            },
        }
        i = i + 1;
    }
    assert(outcomes@.take(outcomes.len() as int) =~= outcomes@);
    BatchReport { response: LambdaResponse { status_code: 200 }, completed, skipped, failed }
}

fn saturating_i32(n: usize) -> (r: i32)
    ensures
        r == count_i32(n as int),
{
    if n <= 0x7fff_ffff {
        n as i32
    } else {
        i32::MAX
    }
}

fn end_step(outcome: Outcome) -> (r: (Phase, Step))
    ensures
        (r.0@, r.1@) == ending(outcome),
{
    let metrics: Vec<Metric> = Vec::new();
    assert(metrics.deep_view() =~= Seq::<MetricView>::empty());
    (Phase::Finished, Step { metrics, action: Action::Finish(outcome) })
}

fn advance_fanout(helper: &MetricsHelper, initial: Fanout) -> (r: (Phase, Step))
    requires
        fanout_wf(initial@),
    ensures
        (r.0@, r.1@) == advance(helper@, initial@),
        phase_wf(r.0@),
{
    let ghost start = initial@;
    let mut fanout = initial;
    while fanout.next < fanout.connections.len()
        invariant
            fanout_wf(fanout@),
            start == initial@,
            advance(helper@, fanout@) == advance(helper@, start),
        decreases fanout.connections.len() - fanout.next,
    {
        let ghost before = fanout@;
        let delivery = plan_delivery(&fanout.connections[fanout.next]);
        assert(fanout.connections.deep_view()[fanout.next as int]
            == fanout.connections[fanout.next as int].deep_view());
        fanout.next = fanout.next + 1;
        assert(fanout@ == FanoutView { next: before.next + 1, ..before });
        match delivery {
            Delivery::Skip => {},
            Delivery::Gateway { connection_id } => {
                let metrics: Vec<Metric> = Vec::new();
                assert(metrics.deep_view() =~= Seq::<MetricView>::empty());
                let action = Action::PostToConnection {
                    connection_id: connection_id.clone(),
                    data: fanout.payload.clone(),
                };
                return (
                    Phase::Delivering { fanout, delivery: Delivery::Gateway { connection_id } },
                    Step { metrics, action },
                );
            },
            Delivery::Local { push_url, connection_id } => {
                let metrics: Vec<Metric> = Vec::new();
                assert(metrics.deep_view() =~= Seq::<MetricView>::empty());
                let action = Action::PostToUrl {
                    push_url: push_url.clone(),
                    body: fanout.payload.clone(),
                };
                return (
                    Phase::Delivering {
                        fanout,
                        delivery: Delivery::Local { push_url, connection_id },
                    },
                    Step { metrics, action },
                );
            },
        }
    }
    let metrics = helper.emit_message_broadcast(
        fanout.room_id.as_str(),
        saturating_i32(fanout.connections.len()),
        saturating_i32(fanout.successes),
    );
    let report = Report {
        attempts: fanout.connections.len(),
        successes: fanout.successes,
        pruned: fanout.pruned,
    };
    (Phase::Finished, Step { metrics, action: Action::Finish(Outcome::Completed(report)) })
}

impl Dispatch {
    #[verifier::type_invariant]
    spec fn reachable(self) -> bool {
        phase_wf(self.phase@)
    }

    /// Whether nothing is left to do.
    pub open spec fn is_finished(self) -> bool {
        self@ is Finished
    }

    /// Whether nothing is left to do.
    pub fn finished(&self) -> (r: bool)
        ensures
            r == self.is_finished(),
    {
        match &self.phase {
            Phase::Finished => true,
            _ => false,
        }
    }

    /// Starts the dispatch of one change event. Only an insert is acted on:
    /// any other event ends the dispatch at once, with no measurement and no
    /// delivery. For an insert the payload is encoded, its instant in
    /// RFC 3339, and the registry is asked for the connections of the room.
    pub fn start(record: &DynamoDBRecord) -> (r: (Dispatch, Step))
        ensures
            opens(record@, r.0@, r.1@),
            phase_wf(r.0@),
    {
        let message = match read_record(record) {
            Ok(Some(message)) => message,
            Ok(None) => {
                let (phase, step) = end_step(Outcome::Skipped);
                return (Dispatch { phase }, step);
            },
            Err(e) => {
                let (phase, step) = end_step(Outcome::Failed(e));
                return (Dispatch { phase }, step);
            },
        };
        let created_at = created_at_text(message.created_at);
        proof {
            if rfc3339_utc(message@.created_at) is None {
                assert(is_instant_text(created_at@));
                let p = payload_json(message@, created_at@);
                assert(is_payload_of(message@, p));
            }
        }
        let payload = match encode_payload(&message, created_at.as_str()) {
            Ok(payload) => payload,
            Err(e) => {
                let (phase, step) = end_step(Outcome::Failed(e));
                return (Dispatch { phase }, step);
            },
        };
        let text_length = message.message_text.as_str().len();
        let metrics: Vec<Metric> = Vec::new();
        assert(metrics.deep_view() =~= Seq::<MetricView>::empty());
        let action = Action::Query { room_id: message.room_id.clone() };
        let phase = Phase::AwaitingConnections {
            room_id: message.room_id,
            message_id: message.id,
            text_length,
            payload,
        };
        (Dispatch { phase }, Step { metrics, action })
    }

    /// Takes the answer to the last action and gives the next step.
    pub fn on_event(self, helper: &MetricsHelper, event: Event) -> (r: (Dispatch, Step))
        ensures
            (r.0@, r.1@) == next_step(helper@, self@, event@),
            phase_wf(r.0@),
    {
        proof {
            use_type_invariant(&self);
        }
        match self.phase {
            Phase::AwaitingConnections {
                room_id,
                message_id,
                text_length,
                payload,
            } => match event {
                Event::Connections(connections) => {
                    let mut metrics = helper.emit_message_sent(room_id.as_str(), text_length);
                    let fanout = Fanout {
                        room_id,
                        message_id,
                        payload,
                        connections,
                        next: 0,
                        successes: 0,
                        pruned: 0,
                    };
                    let ghost sent = metrics.deep_view();
                    let (phase, step) = advance_fanout(helper, fanout);
                    let Step { metrics: mut later, action } = step;
                    let ghost rest = later.deep_view();
                    metrics.append(&mut later);
                    assert(metrics.deep_view() =~= sent + rest);
                    (Dispatch { phase }, Step { metrics, action })
                },
                Event::QueryFailed => {
                    let (phase, step) = end_step(Outcome::Failed(RecordError::QueryFailed));
                    (Dispatch { phase }, step)
                },
                _ => {
                    let (phase, step) = end_step(Outcome::Failed(RecordError::UnexpectedEvent));
                    (Dispatch { phase }, step)
                },
            },
            Phase::Delivering { fanout, delivery } => {
                let result = match (&delivery, &event) {
                    (Delivery::Gateway { .. }, Event::Gateway(o)) => Some(classify_gateway(*o)),
                    (Delivery::Local { .. }, Event::Local(o)) => Some(classify_local(*o)),
                    (_, Event::Gateway(_)) => Some(DeliveryResult::Transient),
                    (_, Event::Local(_)) => Some(DeliveryResult::Transient),
                    _ => None,
                };
                match result {
                    None => {
                        let (phase, step) = end_step(Outcome::Failed(RecordError::UnexpectedEvent));
                        (Dispatch { phase }, step)
                    },
                    Some(result) => {
                        let mut fanout = fanout;
                        if result == DeliveryResult::Delivered {
                            fanout.successes = fanout.successes + 1;
                        }
                        match connection_to_prune(&delivery, result) {
                            Some(connection_id) => {
                                fanout.pruned = fanout.pruned + 1;
                                let metrics: Vec<Metric> = Vec::new();
                                assert(metrics.deep_view() =~= Seq::<MetricView>::empty());
                                (
                                    Dispatch { phase: Phase::Pruning { fanout } },
                                    Step {
                                        metrics,
                                        action: Action::DeleteConnection { connection_id },
                                    },
                                )
                            },
                            None => {
                                let (phase, step) = advance_fanout(helper, fanout);
                                (Dispatch { phase }, step)
                            },
                        }
                    },
                }
            },
            Phase::Pruning { fanout } => match event {
                Event::Deleted => {
                    let (phase, step) = advance_fanout(helper, fanout);
                    (Dispatch { phase }, step)
                },
                _ => {
                    let (phase, step) = end_step(Outcome::Failed(RecordError::UnexpectedEvent));
                    (Dispatch { phase }, step)
                },
            },
            Phase::Finished => {
                let (phase, step) = end_step(Outcome::Failed(RecordError::UnexpectedEvent));
                (Dispatch { phase }, step)
            },
        }
    }
}

} // verus!
