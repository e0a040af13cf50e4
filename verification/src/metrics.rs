//! Named measurements for the metrics pipeline. The helper decides which
//! measurements an occurrence yields, with which names, units, values and
//! dimensions; writing them out is left to the caller.

use crate::outside::now_millis;
use vstd::prelude::*;
use vstd::string::*;

verus! {

/// The unit in which a measurement counts.
#[derive(Debug, PartialEq, Eq, Structural, Clone, Copy)]
pub enum MetricUnit {
    Count,
    Unitless,
    Milliseconds,
}

/// One dimension of a measurement: a name and its value.
#[derive(Debug)]
pub struct Dimension {
    pub name: String,
    pub value: String,
}

/// One measurement, ready to be written out. `timestamp` is the instant at
/// which it was taken.
#[derive(Debug)]
pub struct Metric {
    pub namespace: String,
    pub stage: String,
    pub name: String,
    pub value: i64,
    pub unit: MetricUnit,
    pub dimensions: Vec<Dimension>,
    pub timestamp: i64,
}

/// Makes the measurements of one deployment stage.
#[derive(Debug)]
pub struct MetricsHelper {
    namespace: String,
    stage: String,
}

/// A dimension as a mathematical value.
pub struct DimensionView {
    pub name: Seq<char>,
    pub value: Seq<char>,
}

/// What a measurement says, apart from the instant at which it was taken.
pub struct MetricView {
    pub namespace: Seq<char>,
    pub stage: Seq<char>,
    pub name: Seq<char>,
    pub value: int,
    pub unit: MetricUnit,
    pub dimensions: Seq<DimensionView>,
}

/// A helper as a mathematical value.
pub struct MetricsHelperView {
    pub namespace: Seq<char>,
    pub stage: Seq<char>,
}

impl View for Dimension {
    type V = DimensionView;

    open spec fn view(&self) -> DimensionView {
        DimensionView { name: self.name@, value: self.value@ }
    }
}

impl DeepView for Dimension {
    type V = DimensionView;

    open spec fn deep_view(&self) -> DimensionView {
        self@
    }
}

impl View for Metric {
    type V = MetricView;

    open spec fn view(&self) -> MetricView {
        MetricView {
            namespace: self.namespace@,
            stage: self.stage@,
            name: self.name@,
            value: self.value as int,
            unit: self.unit,
            dimensions: self.dimensions.deep_view(),
        }
    }
}

impl DeepView for Metric {
    type V = MetricView;

    open spec fn deep_view(&self) -> MetricView {
        self@
    }
}

impl View for MetricsHelper {
    type V = MetricsHelperView;

    closed spec fn view(&self) -> MetricsHelperView {
        MetricsHelperView { namespace: self.namespace@, stage: self.stage@ }
    }
}

/// The stage that a helper works for: the configured one, or `unknown`.
pub open spec fn stage_or_unknown(stage: Option<Seq<char>>) -> Seq<char> {
    match stage {
        Some(s) => s,
        None => "unknown"@,
    }
}

/// The measurement that `helper` makes of `value` under `name`.
pub open spec fn measurement(
    helper: MetricsHelperView,
    name: Seq<char>,
    value: int,
    unit: MetricUnit,
    dimensions: Seq<DimensionView>,
) -> MetricView {
    MetricView { namespace: helper.namespace, stage: helper.stage, name, value, unit, dimensions }
}

/// The dimensions of a measurement that belongs to one room.
pub open spec fn room_dimensions(room_id: Seq<char>) -> Seq<DimensionView> {
    seq![DimensionView { name: "RoomId"@, value: room_id }]
}

/// The dimensions of a connection event: its kind and its room.
pub open spec fn event_dimensions(event_type: Seq<char>, room_id: Seq<char>) -> Seq<
    DimensionView,
> {
    seq![
        DimensionView { name: "EventType"@, value: event_type },
        DimensionView { name: "RoomId"@, value: room_id },
    ]
}

/// A length as a measured value: the length itself, or the largest value
/// that a measurement can hold.
pub open spec fn length_value(length: nat) -> int {
    if length <= i64::MAX {
        length as int
    } else {
        i64::MAX as int
    }
}

/// The measurements of one posted message: a count of one, and the length of
/// its text.
pub open spec fn message_sent_metrics(
    helper: MetricsHelperView,
    room_id: Seq<char>,
    message_length: nat,
) -> Seq<MetricView> {
    seq![
        measurement(helper, "MessagesPosted"@, 1, MetricUnit::Count, room_dimensions(room_id)),
        measurement(
            helper,
            "MessageLength"@,
            length_value(message_length),
            MetricUnit::Unitless,
            room_dimensions(room_id),
        ),
    ]
}

/// The measurements of one connection event: a count of one and, where the
/// number of live connections is known, that number.
pub open spec fn connection_event_metrics(
    helper: MetricsHelperView,
    event_type: Seq<char>,
    room_id: Seq<char>,
    total_connections: Option<i32>,
) -> Seq<MetricView> {
    let dims = event_dimensions(event_type, room_id);
    let counted = seq![measurement(helper, "ConnectionEvents"@, 1, MetricUnit::Count, dims)];
    match total_connections {
        Some(count) => counted.push(
            measurement(helper, "ActiveConnections"@, count as int, MetricUnit::Unitless, dims),
        ),
        None => counted,
    }
}

/// The measurements of one fan-out: the deliveries attempted, those that
/// succeeded, and the difference as failures.
pub open spec fn message_broadcast_metrics(
    helper: MetricsHelperView,
    room_id: Seq<char>,
    connection_count: int,
    successful_sends: int,
) -> Seq<MetricView> {
    let dims = room_dimensions(room_id);
    seq![
        measurement(helper, "BroadcastAttempts"@, connection_count, MetricUnit::Count, dims),
        measurement(helper, "BroadcastSuccesses"@, successful_sends, MetricUnit::Count, dims),
        measurement(
            helper,
            "BroadcastFailures"@,
            connection_count - successful_sends,
            MetricUnit::Count,
            dims,
        ),
    ]
}

/// The failure measurement of a registry write or delete that went wrong.
pub open spec fn database_error_metric(
    helper: MetricsHelperView,
    metric_name: Seq<char>,
    room_id: Seq<char>,
) -> MetricView {
    measurement(
        helper,
        metric_name,
        1,
        MetricUnit::Count,
        seq![
            DimensionView { name: "ErrorType"@, value: "DatabaseError"@ },
            DimensionView { name: "RoomId"@, value: room_id },
        ],
    )
}

impl MetricUnit {
    /// The unit's name in the metrics pipeline.
    pub open spec fn label(self) -> Seq<char> {
        match self {
            MetricUnit::Count => "Count"@,
            MetricUnit::Unitless => "None"@,
            MetricUnit::Milliseconds => "Milliseconds"@,
        }
    }

    /// The unit's name in the metrics pipeline.
    pub fn name(&self) -> (r: &'static str)
        ensures
            r@ == self.label(),
    {
        match self {
            MetricUnit::Count => "Count",
            MetricUnit::Unitless => "None",
            MetricUnit::Milliseconds => "Milliseconds",
        }
    }
}

fn room_dimension_list(room_id: &str) -> (r: Vec<Dimension>)
    ensures
        r.deep_view() == room_dimensions(room_id@),
{
    let mut dims: Vec<Dimension> = Vec::new();
    dims.push(Dimension { name: String::from_str("RoomId"), value: String::from_str(room_id) });
    assert(dims.deep_view() =~= room_dimensions(room_id@));
    dims
}

fn event_dimension_list(event_type: &str, room_id: &str) -> (r: Vec<Dimension>)
    ensures
        r.deep_view() == event_dimensions(event_type@, room_id@),
{
    let mut dims: Vec<Dimension> = Vec::new();
    dims.push(
        Dimension { name: String::from_str("EventType"), value: String::from_str(event_type) },
    );
    dims.push(Dimension { name: String::from_str("RoomId"), value: String::from_str(room_id) });
    assert(dims.deep_view() =~= event_dimensions(event_type@, room_id@));
    dims
}

impl MetricsHelper {
    /// The helper of the given deployment stage, or of the stage `unknown`
    /// where none is configured. Its namespace is `SwflcodersChat/` and the
    /// stage.
    pub fn new(stage: Option<String>) -> (r: Self)
        ensures
            r@.stage == stage_or_unknown(crate::text::opt_text(stage)),
            r@.namespace == "SwflcodersChat/"@ + r@.stage,
    {
        let stage = match stage {
            Some(s) => s,
            None => String::from_str("unknown"),
        };
        let namespace = String::from_str("SwflcodersChat/").concat(stage.as_str());
        MetricsHelper { namespace, stage }
    }

    /// The namespace under which the helper's measurements go.
    pub fn namespace(&self) -> (r: &String)
        ensures
            r@ == self@.namespace,
    {
        &self.namespace
    }

    /// The deployment stage that the helper works for.
    pub fn stage(&self) -> (r: &String)
        ensures
            r@ == self@.stage,
    {
        &self.stage
    }

    /// The measurement of `value` under `metric_name`, taken at `timestamp`.
    pub fn metric_at(
        &self,
        metric_name: &str,
        value: i64,
        unit: MetricUnit,
        dimensions: Vec<Dimension>,
        timestamp: i64,
    ) -> (m: Metric)
        ensures
            m@ == measurement(self@, metric_name@, value as int, unit, dimensions.deep_view()),
            m.timestamp == timestamp,
    {
        Metric {
            namespace: self.namespace.clone(),
            stage: self.stage.clone(),
            name: String::from_str(metric_name),
            value,
            unit,
            dimensions,
            timestamp,
        }
    }

    /// The measurement of `value` under `metric_name`, taken now. Without
    /// dimensions of its own it carries none but the stage.
    pub fn emit_emf_metric(
        &self,
        metric_name: &str,
        value: i64,
        unit: MetricUnit,
        dimensions: Option<Vec<Dimension>>,
    ) -> (m: Metric)
        ensures
            m@ == measurement(
                self@,
                metric_name@,
                value as int,
                unit,
                match dimensions {
                    Some(d) => d.deep_view(),
                    None => Seq::empty(),
                },
            ),
    {
        let dims = match dimensions {
            Some(d) => d,
            None => {
                let empty: Vec<Dimension> = Vec::new();
                assert(empty.deep_view() =~= Seq::<DimensionView>::empty());
                empty
            },
        };
        self.metric_at(metric_name, value, unit, dims, now_millis())
    }

    /// A count.
    pub fn emit_count(
        &self,
        metric_name: &str,
        value: i64,
        dimensions: Option<Vec<Dimension>>,
    ) -> (m: Metric)
        ensures
            m@ == measurement(
                self@,
                metric_name@,
                value as int,
                MetricUnit::Count,
                match dimensions {
                    Some(d) => d.deep_view(),
                    None => Seq::empty(),
                },
            ),
    {
        self.emit_emf_metric(metric_name, value, MetricUnit::Count, dimensions)
    }

    /// A gauge: a level rather than a count, such as a number of connections.
    pub fn emit_gauge(
        &self,
        metric_name: &str,
        value: i64,
        dimensions: Option<Vec<Dimension>>,
    ) -> (m: Metric)
        ensures
            m@ == measurement(
                self@,
                metric_name@,
                value as int,
                MetricUnit::Unitless,
                match dimensions {
                    Some(d) => d.deep_view(),
                    None => Seq::empty(),
                },
            ),
    {
        self.emit_emf_metric(metric_name, value, MetricUnit::Unitless, dimensions)
    }

    /// A duration in milliseconds.
    pub fn emit_duration_ms(
        &self,
        metric_name: &str,
        duration_ms: i64,
        dimensions: Option<Vec<Dimension>>,
    ) -> (m: Metric)
        ensures
            m@ == measurement(
                self@,
                metric_name@,
                duration_ms as int,
                MetricUnit::Milliseconds,
                match dimensions {
                    Some(d) => d.deep_view(),
                    None => Seq::empty(),
                },
            ),
    {
        self.emit_emf_metric(metric_name, duration_ms, MetricUnit::Milliseconds, dimensions)
    }

    /// The measurements of one message posted to `room_id`.
    pub fn emit_message_sent(&self, room_id: &str, message_length: usize) -> (r: Vec<Metric>)
        ensures
            r.deep_view() == message_sent_metrics(self@, room_id@, message_length as nat),
    {
        let length: i64 = if (message_length as u64) <= 0x7fff_ffff_ffff_ffffu64 {
            message_length as i64
        } else {
            i64::MAX
        };
        let mut out: Vec<Metric> = Vec::new();
        out.push(self.emit_count("MessagesPosted", 1, Some(room_dimension_list(room_id))));
        out.push(self.emit_gauge("MessageLength", length, Some(room_dimension_list(room_id))));
        assert(out.deep_view() =~= message_sent_metrics(
            self@,
            room_id@,
            message_length as nat,
        ));
        out
    }

    /// The measurements of one connection event of the kind `event_type` in
    /// `room_id`.
    pub fn emit_connection_event(
        &self,
        event_type: &str,
        room_id: &str,
        total_connections: Option<i32>,
    ) -> (r: Vec<Metric>)
        ensures
            r.deep_view() == connection_event_metrics(
                self@,
                event_type@,
                room_id@,
                total_connections,
            ),
    {
        let mut out: Vec<Metric> = Vec::new();
        out.push(
            self.emit_count("ConnectionEvents", 1, Some(event_dimension_list(event_type, room_id))),
        );
        if let Some(count) = total_connections {
            out.push(
                self.emit_gauge(
                    "ActiveConnections",
                    count as i64,
                    Some(event_dimension_list(event_type, room_id)),
                ),
            );
        }
        assert(out.deep_view() =~= connection_event_metrics(
            self@,
            event_type@,
            room_id@,
            total_connections,
        ));
        out
    }

    /// The measurements of one fan-out to `room_id`: attempts, successes and
    /// failures, the last being the attempts less the successes.
    pub fn emit_message_broadcast(
        &self,
        room_id: &str,
        connection_count: i32,
        successful_sends: i32,
    ) -> (r: Vec<Metric>)
        ensures
            r.deep_view() == message_broadcast_metrics(
                self@,
                room_id@,
                connection_count as int,
                successful_sends as int,
            ),
    {
        let attempts: i64 = connection_count as i64;
        let successes: i64 = successful_sends as i64;
        let mut out: Vec<Metric> = Vec::new();
        out.push(
            self.emit_count("BroadcastAttempts", attempts, Some(room_dimension_list(room_id))),
        );
        out.push(
            self.emit_count("BroadcastSuccesses", successes, Some(room_dimension_list(room_id))),
        );
        out.push(
            self.emit_count(
                "BroadcastFailures",
                attempts - successes,
                Some(room_dimension_list(room_id)),
            ),
        );
        assert(out.deep_view() =~= message_broadcast_metrics(
            self@,
            room_id@,
            connection_count as int,
            successful_sends as int,
        ));
        out
    }

    /// The failure count of a registry write or delete that went wrong for a
    /// connection of `room_id`.
    pub fn emit_database_error(&self, metric_name: &str, room_id: &str) -> (m: Metric)
        ensures
            m@ == database_error_metric(self@, metric_name@, room_id@),
    {
        let mut dims: Vec<Dimension> = Vec::new();
        dims.push(
            Dimension {
                name: String::from_str("ErrorType"),
                value: String::from_str("DatabaseError"),
            },
        );
        dims.push(Dimension { name: String::from_str("RoomId"), value: String::from_str(room_id) });
        assert(dims.deep_view() =~= seq![
            DimensionView { name: "ErrorType"@, value: "DatabaseError"@ },
            DimensionView { name: "RoomId"@, value: room_id@ },
        ]);
        self.emit_count(metric_name, 1, Some(dims))
    }
}

impl Clone for MetricsHelper {
    fn clone(&self) -> (r: Self)
        ensures
            r == *self,
    {
        MetricsHelper { namespace: self.namespace.clone(), stage: self.stage.clone() }
    }
}

/// The failures of a fan-out are its attempts less its successes, so the
/// three measurements always add up.
pub proof fn law_broadcast_metrics_add_up(
    helper: MetricsHelperView,
    room_id: Seq<char>,
    connection_count: int,
    successful_sends: int,
)
    ensures
        ({
            let m = message_broadcast_metrics(helper, room_id, connection_count, successful_sends);
            &&& m.len() == 3
            &&& m[0].value == connection_count
            &&& m[1].value == successful_sends
            &&& m[1].value + m[2].value == m[0].value
        }),
{
}

} // verus!
