//! A dispatch from its first answer to its end: what a whole fan-out does,
//! whatever the sinks answer.

use crate::delivery::{
    planned_delivery, stale_connection, DeliveryResult, DeliveryView,
};
use crate::dispatch::{
    advance, count_i32, delivery_result, fanout_wf, next_step, opening_fanout, ActionView,
    EventView, FanoutView, Outcome, PhaseView, Report, StepView,
};
use crate::metrics::{
    message_broadcast_metrics, message_sent_metrics, MetricView, MetricsHelperView,
};
use crate::store::AttributeView;
use vstd::prelude::*;

verus! {

/// The event that answers the action of `phase`: for a delivery the answer
/// of the sink of the connection that was taken up last, and for a deletion
/// the notice that it was tried. `answers` holds one answer for each
/// connection of the room.
pub open spec fn answer_to(phase: PhaseView, answers: Seq<EventView>) -> EventView {
    match phase {
        PhaseView::Delivering { fanout, .. } => answers[fanout.next - 1],
        _ => EventView::Deleted,
    }
}

/// The actions of a dispatch from `step` on, in their order, when each is
/// answered as `answers` says. At most `fuel` answers are given.
pub open spec fn actions_from(
    helper: MetricsHelperView,
    phase: PhaseView,
    step: StepView,
    answers: Seq<EventView>,
    fuel: nat,
) -> Seq<ActionView>
    decreases fuel,
{
    if step.action is Finish || fuel == 0 {
        seq![step.action]
    } else {
        let (p, s) = next_step(helper, phase, answer_to(phase, answers));
        seq![step.action] + actions_from(helper, p, s, answers, (fuel - 1) as nat)
    }
}

/// The measurements of a dispatch from `step` on, in their order, when each
/// action is answered as `answers` says. At most `fuel` answers are given.
pub open spec fn metrics_from(
    helper: MetricsHelperView,
    phase: PhaseView,
    step: StepView,
    answers: Seq<EventView>,
    fuel: nat,
) -> Seq<MetricView>
    decreases fuel,
{
    if step.action is Finish || fuel == 0 {
        step.metrics
    } else {
        let (p, s) = next_step(helper, phase, answer_to(phase, answers));
        step.metrics + metrics_from(helper, p, s, answers, (fuel - 1) as nat)
    }
}

/// What the sink of the connection at index `k` answered, read for that
/// connection.
pub open spec fn result_at(
    connections: Seq<Seq<AttributeView>>,
    answers: Seq<EventView>,
    k: int,
) -> DeliveryResult {
    delivery_result(planned_delivery(connections[k]), answers[k])
}

/// How many of the first `n` connections were delivered to.
pub open spec fn delivered_among(
    connections: Seq<Seq<AttributeView>>,
    answers: Seq<EventView>,
    n: int,
) -> int
    decreases n,
{
    if n <= 0 {
        0
    } else {
        delivered_among(connections, answers, n - 1) + if !(planned_delivery(
            connections[n - 1],
        ) is Skip) && result_at(connections, answers, n - 1) == DeliveryResult::Delivered {
            1int
        } else {
            0int
        }
    }
}

/// How many of the first `n` connections proved stale under a known id.
pub open spec fn pruned_among(
    connections: Seq<Seq<AttributeView>>,
    answers: Seq<EventView>,
    n: int,
) -> int
    decreases n,
{
    if n <= 0 {
        0
    } else {
        pruned_among(connections, answers, n - 1) + if stale_connection(
            planned_delivery(connections[n - 1]),
            result_at(connections, answers, n - 1),
        ) is Some {
            1int
        } else {
            0int
        }
    }
}

/// The deletion that follows the delivery to the connection at index `k`,
/// if any.
pub open spec fn deletion_after(
    connections: Seq<Seq<AttributeView>>,
    answers: Seq<EventView>,
    k: int,
) -> Seq<ActionView> {
    match stale_connection(planned_delivery(connections[k]), result_at(connections, answers, k)) {
        Some(connection_id) => seq![ActionView::DeleteConnection { connection_id }],
        None => Seq::empty(),
    }
}

/// What a fan-out owes the connections from index `from` on: one delivery of
/// the payload to each connection that can be reached, in the registry's
/// order, each followed by the deletion of its record where it proved stale
/// under a known id; and nothing for a connection that cannot be reached.
pub open spec fn owed_actions(
    connections: Seq<Seq<AttributeView>>,
    answers: Seq<EventView>,
    payload: Seq<char>,
    from: int,
) -> Seq<ActionView>
    decreases connections.len() - from,
{
    if from < 0 || from >= connections.len() {
        Seq::empty()
    } else {
        let rest = owed_actions(connections, answers, payload, from + 1);
        match planned_delivery(connections[from]) {
            DeliveryView::Skip => rest,
            DeliveryView::Gateway { connection_id } => seq![
                ActionView::PostToConnection { connection_id, data: payload },
            ] + deletion_after(connections, answers, from) + rest,
            DeliveryView::Local { push_url, connection_id } => seq![
                ActionView::PostToUrl { push_url, body: payload },
            ] + deletion_after(connections, answers, from) + rest,
        }
    }
}

/// The report of a fan-out that took up every connection.
pub open spec fn full_report(
    connections: Seq<Seq<AttributeView>>,
    answers: Seq<EventView>,
) -> Report {
    Report {
        attempts: connections.len() as usize,
        successes: delivered_among(connections, answers, connections.len() as int) as usize,
        pruned: pruned_among(connections, answers, connections.len() as int) as usize,
    }
}

/// Whether every connection has an answer, and each answer is one of a sink.
pub open spec fn answers_fit(
    connections: Seq<Seq<AttributeView>>,
    answers: Seq<EventView>,
) -> bool {
    &&& answers.len() == connections.len()
    &&& forall|k: int|
        0 <= k < answers.len() ==> (#[trigger] answers[k]) is Gateway || answers[k] is Local
}

pub proof fn lemma_counts_bounded(
    connections: Seq<Seq<AttributeView>>,
    answers: Seq<EventView>,
    n: int,
)
    requires
        0 <= n,
    ensures
        0 <= delivered_among(connections, answers, n),
        0 <= pruned_among(connections, answers, n),
        delivered_among(connections, answers, n) + pruned_among(connections, answers, n) <= n,
    decreases n,
{
    if n > 0 {
        lemma_counts_bounded(connections, answers, n - 1);
    }
}

pub proof fn lemma_run_from(
    helper: MetricsHelperView,
    f: FanoutView,
    answers: Seq<EventView>,
    fuel: nat,
)
    requires
        fanout_wf(f),
        answers_fit(f.connections, answers),
        f.successes == delivered_among(f.connections, answers, f.next),
        f.pruned == pruned_among(f.connections, answers, f.next),
        fuel >= 2 * (f.connections.len() - f.next) + 1,
    ensures
        actions_from(helper, advance(helper, f).0, advance(helper, f).1, answers, fuel)
            == owed_actions(f.connections, answers, f.payload, f.next) + seq![
            ActionView::Finish(Outcome::Completed(full_report(f.connections, answers))),
        ],
    decreases f.connections.len() - f.next,
{
    let cs = f.connections;
    let (phase, step) = advance(helper, f);
    let ending = seq![ActionView::Finish(Outcome::Completed(full_report(cs, answers)))];
    if f.next >= cs.len() {
        assert(actions_from(helper, phase, step, answers, fuel) =~= owed_actions(
            cs,
            answers,
            f.payload,
            f.next,
        ) + ending);
    } else {
        let k = f.next;
        let delivery = planned_delivery(cs[k]);
        let taken = FanoutView { next: k + 1, ..f };
        if delivery is Skip {
            lemma_run_from(helper, taken, answers, fuel);
        } else {
            let event = answers[k];
            let result = delivery_result(delivery, event);
            assert(answer_to(phase, answers) == event);
            assert(event is Gateway || event is Local);
            let (phase_b, step_b) = next_step(helper, phase, event);
            let counted = FanoutView {
                successes: if result == DeliveryResult::Delivered {
                    taken.successes + 1
                } else {
                    taken.successes
                },
                ..taken
            };
            let rest = owed_actions(cs, answers, f.payload, k + 1);
            assert(!(step.action is Finish));
            assert(actions_from(helper, phase, step, answers, fuel) == seq![step.action]
                + actions_from(helper, phase_b, step_b, answers, (fuel - 1) as nat));
            match stale_connection(delivery, result) {
                Some(connection_id) => {
                    let pruned = FanoutView { pruned: taken.pruned + 1, ..counted };
                    assert(phase_b == PhaseView::Pruning { fanout: pruned });
                    assert(answer_to(phase_b, answers) == EventView::Deleted);
                    assert(next_step(helper, phase_b, EventView::Deleted) == advance(
                        helper,
                        pruned,
                    ));
                    lemma_run_from(helper, pruned, answers, (fuel - 2) as nat);
                    assert(actions_from(helper, phase_b, step_b, answers, (fuel - 1) as nat)
                        == seq![
                        step_b.action,
                    ] + actions_from(
                        helper,
                        advance(helper, pruned).0,
                        advance(helper, pruned).1,
                        answers,
                        (fuel - 2) as nat,
                    ));
                    assert(actions_from(helper, phase, step, answers, fuel) =~= owed_actions(
                        cs,
                        answers,
                        f.payload,
                        k,
                    ) + ending);
                },
                None => {
                    assert((phase_b, step_b) == advance(helper, counted));
                    lemma_run_from(helper, counted, answers, (fuel - 1) as nat);
                    assert(actions_from(helper, phase, step, answers, fuel) =~= owed_actions(
                        cs,
                        answers,
                        f.payload,
                        k,
                    ) + ending);
                },
            }
        }
    }
}

pub proof fn lemma_metrics_from(
    helper: MetricsHelperView,
    f: FanoutView,
    answers: Seq<EventView>,
    fuel: nat,
)
    requires
        fanout_wf(f),
        answers_fit(f.connections, answers),
        f.successes == delivered_among(f.connections, answers, f.next),
        f.pruned == pruned_among(f.connections, answers, f.next),
        fuel >= 2 * (f.connections.len() - f.next) + 1,
    ensures
        metrics_from(helper, advance(helper, f).0, advance(helper, f).1, answers, fuel)
            == message_broadcast_metrics(
            helper,
            f.room_id,
            count_i32(f.connections.len() as int),
            count_i32(delivered_among(f.connections, answers, f.connections.len() as int)),
        ),
    decreases f.connections.len() - f.next,
{
    let cs = f.connections;
    let (phase, step) = advance(helper, f);
    if f.next < cs.len() {
        let k = f.next;
        let delivery = planned_delivery(cs[k]);
        let taken = FanoutView { next: k + 1, ..f };
        if delivery is Skip {
            lemma_metrics_from(helper, taken, answers, fuel);
        } else {
            let event = answers[k];
            let result = delivery_result(delivery, event);
            assert(answer_to(phase, answers) == event);
            assert(event is Gateway || event is Local);
            let (phase_b, step_b) = next_step(helper, phase, event);
            let counted = FanoutView {
                successes: if result == DeliveryResult::Delivered {
                    taken.successes + 1
                } else {
                    taken.successes
                },
                ..taken
            };
            assert(!(step.action is Finish));
            assert(step.metrics =~= Seq::<MetricView>::empty());
            assert(metrics_from(helper, phase, step, answers, fuel) =~= metrics_from(
                helper,
                phase_b,
                step_b,
                answers,
                (fuel - 1) as nat,
            ));
            match stale_connection(delivery, result) {
                Some(connection_id) => {
                    let pruned = FanoutView { pruned: taken.pruned + 1, ..counted };
                    assert(phase_b == PhaseView::Pruning { fanout: pruned });
                    assert(answer_to(phase_b, answers) == EventView::Deleted);
                    assert(next_step(helper, phase_b, EventView::Deleted) == advance(
                        helper,
                        pruned,
                    ));
                    lemma_metrics_from(helper, pruned, answers, (fuel - 2) as nat);
                    assert(step_b.metrics =~= Seq::<MetricView>::empty());
                    assert(metrics_from(helper, phase_b, step_b, answers, (fuel - 1) as nat)
                        =~= metrics_from(
                        helper,
                        advance(helper, pruned).0,
                        advance(helper, pruned).1,
                        answers,
                        (fuel - 2) as nat,
                    ));
                },
                None => {
                    assert((phase_b, step_b) == advance(helper, counted));
                    lemma_metrics_from(helper, counted, answers, (fuel - 1) as nat);
                },
            }
        }
    }
}

/// Over a whole fan-out exactly five measurements are written: the two of
/// the posted message, when the registry has answered, and at the end the
/// three of the broadcast, which count every connection of the room as an
/// attempt, the confirmed deliveries as successes and the rest as failures.
/// No step in between writes any.
pub proof fn law_fan_out_measures_once(
    helper: MetricsHelperView,
    room_id: Seq<char>,
    message_id: Seq<char>,
    text_length: usize,
    payload: Seq<char>,
    connections: Seq<Seq<AttributeView>>,
    answers: Seq<EventView>,
)
    requires
        answers_fit(connections, answers),
    ensures
        ({
            let waiting = PhaseView::AwaitingConnections {
                room_id,
                message_id,
                text_length,
                payload,
            };
            let (phase, step) = next_step(helper, waiting, EventView::Connections(connections));
            metrics_from(helper, phase, step, answers, (2 * connections.len() + 1) as nat)
                == message_sent_metrics(helper, room_id, text_length as nat)
                + message_broadcast_metrics(
                helper,
                room_id,
                count_i32(connections.len() as int),
                count_i32(delivered_among(connections, answers, connections.len() as int)),
            )
        }),
{
    let f = opening_fanout(room_id, message_id, payload, connections);
    let fuel = (2 * connections.len() + 1) as nat;
    lemma_metrics_from(helper, f, answers, fuel);
    let waiting = PhaseView::AwaitingConnections { room_id, message_id, text_length, payload };
    let (phase, step) = next_step(helper, waiting, EventView::Connections(connections));
    let (phase_a, step_a) = advance(helper, f);
    let sent = message_sent_metrics(helper, room_id, text_length as nat);
    assert(phase == phase_a);
    assert(step.action == step_a.action);
    assert(step.metrics == sent + step_a.metrics);
    if step.action is Finish {
        assert(metrics_from(helper, phase, step, answers, fuel) =~= sent + metrics_from(
            helper,
            phase_a,
            step_a,
            answers,
            fuel,
        ));
    } else {
        let (p, s) = next_step(helper, phase, answer_to(phase, answers));
        let rest = metrics_from(helper, p, s, answers, (fuel - 1) as nat);
        assert(metrics_from(helper, phase, step, answers, fuel) == step.metrics + rest);
        assert(metrics_from(helper, phase_a, step_a, answers, fuel) == step_a.metrics + rest);
        assert((sent + step_a.metrics) + rest =~= sent + (step_a.metrics + rest));
    }
}

/// Once the registry has reported the connections of the room, the dispatch
/// does exactly what it owes them, whatever the sinks answer: it asks the
/// registry no second time, delivers the payload once to each connection
/// that can be reached, in the registry's order, deletes the record of each
/// connection that proved stale under a known id right after its delivery,
/// and deletes no other. It then ends with a report that counts every
/// connection as an attempt, each delivery that its sink confirmed as a
/// success and each deletion as pruned, so that no connection counts twice.
pub proof fn law_fan_out_serves_every_connection(
    helper: MetricsHelperView,
    room_id: Seq<char>,
    message_id: Seq<char>,
    text_length: usize,
    payload: Seq<char>,
    connections: Seq<Seq<AttributeView>>,
    answers: Seq<EventView>,
)
    requires
        answers_fit(connections, answers),
    ensures
        ({
            let waiting = PhaseView::AwaitingConnections {
                room_id,
                message_id,
                text_length,
                payload,
            };
            let (phase, step) = next_step(helper, waiting, EventView::Connections(connections));
            actions_from(helper, phase, step, answers, (2 * connections.len() + 1) as nat)
                == owed_actions(connections, answers, payload, 0) + seq![
                ActionView::Finish(Outcome::Completed(full_report(connections, answers))),
            ]
        }),
        0 <= delivered_among(connections, answers, connections.len() as int),
        0 <= pruned_among(connections, answers, connections.len() as int),
        delivered_among(connections, answers, connections.len() as int) + pruned_among(
            connections,
            answers,
            connections.len() as int,
        ) <= connections.len(),
{
    let f = opening_fanout(room_id, message_id, payload, connections);
    let fuel = (2 * connections.len() + 1) as nat;
    lemma_run_from(helper, f, answers, fuel);
    lemma_counts_bounded(connections, answers, connections.len() as int);
    let waiting = PhaseView::AwaitingConnections { room_id, message_id, text_length, payload };
    let (phase, step) = next_step(helper, waiting, EventView::Connections(connections));
    let (phase_a, step_a) = advance(helper, f);
    assert(phase == phase_a);
    assert(step.action == step_a.action);
    lemma_actions_ignore_metrics(helper, phase, step, step_a, answers, fuel);
}

pub proof fn lemma_actions_ignore_metrics(
    helper: MetricsHelperView,
    phase: PhaseView,
    a: StepView,
    b: StepView,
    answers: Seq<EventView>,
    fuel: nat,
)
    requires
        a.action == b.action,
    ensures
        actions_from(helper, phase, a, answers, fuel) == actions_from(
            helper,
            phase,
            b,
            answers,
            fuel,
        ),
{
}

} // verus!
