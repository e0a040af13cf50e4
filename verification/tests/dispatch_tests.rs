use chat_backend::delivery::{
    classify_gateway, classify_local, connection_to_prune, plan_delivery, Delivery,
    DeliveryResult, GatewayOutcome, LocalOutcome,
};
use chat_backend::dispatch::{
    function_handler, Action, Dispatch, Event, Outcome, Report, Step,
};
use chat_backend::metrics::{Metric, MetricUnit, MetricsHelper};
use chat_backend::payload::{
    created_at_text, encode_payload, frame_payload, read_record, DynamoDBRecord,
    DynamoDBStreamRecord, RecordError,
};
use chat_backend::store::{Attribute, AttributeValue};
use chat_backend::types::ChatMessage;
use serde_json::Value;

fn s(name: &str, value: &str) -> Attribute {
    Attribute { name: name.to_string(), value: AttributeValue::S(value.to_string()) }
}

fn n(name: &str, value: &str) -> Attribute {
    Attribute { name: name.to_string(), value: AttributeValue::N(value.to_string()) }
}

fn image() -> Vec<Attribute> {
    vec![
        s("id", "m-1"),
        s("room_id", "general"),
        s("user_id", "u-1"),
        s("username", "alice"),
        s("message_text", "Hello!"),
        n("ts", "947638923004"),
        s("client_message_id", "c-1"),
    ]
}

fn record(event_name: &str, new_image: Option<Vec<Attribute>>) -> DynamoDBRecord {
    DynamoDBRecord {
        event_name: event_name.to_string(),
        dynamodb: Some(DynamoDBStreamRecord { new_image }),
    }
}

fn without(image: Vec<Attribute>, name: &str) -> Vec<Attribute> {
    image.into_iter().filter(|a| a.name != name).collect()
}

fn gateway_connection(id: &str) -> Vec<Attribute> {
    vec![s("connection_id", id), s("room_id", "general"), s("transport", "apigw")]
}

fn local_connection(id: &str, url: &str) -> Vec<Attribute> {
    vec![s("connection_id", id), s("room_id", "general"), s("transport", "dev"), s("push_url", url)]
}

fn helper() -> MetricsHelper {
    MetricsHelper::new(Some("test".to_string()))
}

fn names(metrics: &[Metric]) -> Vec<String> {
    metrics.iter().map(|m| m.name.clone()).collect()
}

fn value_of(metrics: &[Metric], name: &str) -> i64 {
    metrics.iter().find(|m| m.name == name).expect("the metric").value
}

/// Runs a dispatch to its end against a registry that holds `connections` and
/// a gateway and a local path that answer as the two tables say.
fn run(
    record: &DynamoDBRecord,
    connections: Vec<Vec<Attribute>>,
    gateway: &[(&str, GatewayOutcome)],
    local: &[(&str, LocalOutcome)],
) -> (Outcome, Vec<Metric>, Vec<String>, Vec<String>) {
    let helper = helper();
    let mut metrics: Vec<Metric> = Vec::new();
    let mut delivered_to: Vec<String> = Vec::new();
    let mut deleted: Vec<String> = Vec::new();
    let (mut dispatch, mut step) = Dispatch::start(record);
    let mut connections = Some(connections);
    loop {
        let Step { metrics: mut now, action } = step;
        metrics.append(&mut now);
        let event = match action {
            Action::Finish(outcome) => {
                assert!(dispatch.finished());
                return (outcome, metrics, delivered_to, deleted);
            }
            Action::Query { room_id } => {
                assert_eq!(room_id, "general");
                Event::Connections(connections.take().expect("one query"))
            }
            Action::PostToConnection { connection_id, data } => {
                assert!(data.starts_with("{\"id\":"));
                delivered_to.push(connection_id.clone());
                let answer = gateway.iter().find(|(id, _)| *id == connection_id).unwrap().1;
                Event::Gateway(answer)
            }
            Action::PostToUrl { push_url, body } => {
                assert!(body.starts_with("{\"id\":"));
                delivered_to.push(push_url.clone());
                let answer = local.iter().find(|(url, _)| *url == push_url).unwrap().1;
                Event::Local(answer)
            }
            Action::DeleteConnection { connection_id } => {
                deleted.push(connection_id);
                Event::Deleted
            }
        };
        assert!(!dispatch.finished());
        let next = dispatch.on_event(&helper, event);
        dispatch = next.0;
        step = next.1;
    }
}

#[test]
fn three_gateway_connections_one_gone() {
    let connections =
        vec![gateway_connection("c-1"), gateway_connection("c-2"), gateway_connection("c-3")];
    let (outcome, metrics, delivered_to, deleted) = run(
        &record("INSERT", Some(image())),
        connections,
        &[
            ("c-1", GatewayOutcome::Success),
            ("c-2", GatewayOutcome::Gone),
            ("c-3", GatewayOutcome::Success),
        ],
        &[],
    );
    assert_eq!(outcome, Outcome::Completed(Report { attempts: 3, successes: 2, pruned: 1 }));
    assert_eq!(delivered_to, vec!["c-1", "c-2", "c-3"]);
    assert_eq!(deleted, vec!["c-2"]);
    assert_eq!(
        names(&metrics),
        vec![
            "MessagesPosted",
            "MessageLength",
            "BroadcastAttempts",
            "BroadcastSuccesses",
            "BroadcastFailures"
        ]
    );
    assert_eq!(value_of(&metrics, "MessagesPosted"), 1);
    assert_eq!(value_of(&metrics, "MessageLength"), 6);
    assert_eq!(value_of(&metrics, "BroadcastAttempts"), 3);
    assert_eq!(value_of(&metrics, "BroadcastSuccesses"), 2);
    assert_eq!(value_of(&metrics, "BroadcastFailures"), 1);
    for metric in &metrics {
        assert_eq!(metric.namespace, "SwflcodersChat/test");
        assert_eq!(metric.stage, "test");
        assert_eq!(metric.dimensions.len(), 1);
        assert_eq!(metric.dimensions[0].name, "RoomId");
        assert_eq!(metric.dimensions[0].value, "general");
    }
}

#[test]
fn modify_event_does_nothing() {
    let (dispatch, step) = Dispatch::start(&record("MODIFY", Some(image())));
    assert!(dispatch.finished());
    assert!(step.metrics.is_empty());
    assert!(matches!(step.action, Action::Finish(Outcome::Skipped)));
}

#[test]
fn remove_event_does_nothing() {
    let (outcome, metrics, delivered_to, deleted) =
        run(&record("REMOVE", None), vec![gateway_connection("c-1")], &[], &[]);
    assert_eq!(outcome, Outcome::Skipped);
    assert!(metrics.is_empty());
    assert!(delivered_to.is_empty());
    assert!(deleted.is_empty());
}

#[test]
fn event_kind_is_matched_exactly() {
    let (dispatch, step) = Dispatch::start(&record("insert", Some(image())));
    assert!(dispatch.finished());
    assert!(matches!(step.action, Action::Finish(Outcome::Skipped)));
}

#[test]
fn insert_without_stream_data_fails() {
    let bare = DynamoDBRecord { event_name: "INSERT".to_string(), dynamodb: None };
    let (_, step) = Dispatch::start(&bare);
    assert!(step.metrics.is_empty());
    assert!(matches!(step.action, Action::Finish(Outcome::Failed(RecordError::NoStreamData))));
    let (_, step) = Dispatch::start(&record("INSERT", None));
    assert!(matches!(step.action, Action::Finish(Outcome::Failed(RecordError::NoNewImage))));
}

#[test]
fn each_required_field_is_missed_in_turn() {
    let cases = [
        ("room_id", RecordError::MissingRoomId),
        ("id", RecordError::MissingId),
        ("username", RecordError::MissingUsername),
        ("message_text", RecordError::MissingMessageText),
        ("ts", RecordError::InvalidTimestamp),
    ];
    for (name, error) in cases {
        let r = read_record(&record("INSERT", Some(without(image(), name))));
        assert_eq!(r.err(), Some(error), "{}", name);
    }
    let nothing = read_record(&record("INSERT", Some(Vec::new())));
    assert_eq!(nothing.err(), Some(RecordError::MissingRoomId));
}

#[test]
fn a_field_of_the_wrong_kind_counts_as_missing() {
    let mut wrong = without(image(), "id");
    wrong.push(n("id", "17"));
    assert_eq!(read_record(&record("INSERT", Some(wrong))).err(), Some(RecordError::MissingId));
    let mut text_ts = without(image(), "ts");
    text_ts.push(s("ts", "947638923004"));
    assert_eq!(
        read_record(&record("INSERT", Some(text_ts))).err(),
        Some(RecordError::InvalidTimestamp)
    );
    let mut bad_ts = without(image(), "ts");
    bad_ts.push(n("ts", "12.5"));
    assert_eq!(
        read_record(&record("INSERT", Some(bad_ts))).err(),
        Some(RecordError::InvalidTimestamp)
    );
}

#[test]
fn optional_fields_default() {
    let bare = without(without(image(), "user_id"), "client_message_id");
    let message = read_record(&record("INSERT", Some(bare))).unwrap().unwrap();
    assert_eq!(message.user_id, "unknown");
    assert_eq!(message.client_message_id, None);
    assert_eq!(message.id, "m-1");
    assert_eq!(message.room_id, "general");
    assert_eq!(message.username, "alice");
    assert_eq!(message.message_text, "Hello!");
    assert_eq!(message.created_at, 947638923004);
}

#[test]
fn record_errors_read_as_in_the_logs() {
    assert_eq!(RecordError::NoStreamData.message(), "No dynamodb data in record");
    assert_eq!(RecordError::NoNewImage.message(), "No NewImage in record");
    assert_eq!(RecordError::MissingRoomId.message(), "Missing room_id");
    assert_eq!(RecordError::MissingId.message(), "Missing id");
    assert_eq!(RecordError::MissingUsername.message(), "Missing username");
    assert_eq!(RecordError::MissingMessageText.message(), "Missing message_text");
    assert_eq!(RecordError::InvalidTimestamp.message(), "Missing or invalid ts");
    assert_eq!(RecordError::EncodingFailed.message(), "Failed to encode the message");
    assert_eq!(RecordError::QueryFailed.message(), "Failed to query connections");
    assert_eq!(RecordError::UnexpectedEvent.message(), "Unexpected event");
}

#[test]
fn timestamp_is_written_in_rfc3339() {
    assert_eq!(created_at_text(0), "1970-01-01T00:00:00+00:00");
    assert_eq!(created_at_text(947638923004), "2000-01-12T01:02:03.004+00:00");
    assert_eq!(created_at_text(-1), "1969-12-31T23:59:59.999+00:00");
}

#[test]
fn unrepresentable_timestamp_falls_back_to_now() {
    let text = created_at_text(i64::MAX);
    let parsed = chrono::DateTime::parse_from_rfc3339(&text).expect("a date and time");
    let now = chrono::Utc::now().timestamp_millis();
    assert!((now - parsed.timestamp_millis()).abs() < 60_000);
}

#[test]
fn payload_is_the_json_object_of_the_message() {
    let message = ChatMessage {
        id: "m-1".to_string(),
        room_id: "general".to_string(),
        user_id: "u-1".to_string(),
        username: "al\"ice".to_string(),
        message_text: "line one\nline \\ two é".to_string(),
        created_at: 947638923004,
        client_message_id: Some("c-1".to_string()),
    };
    let payload = encode_payload(&message, "2000-01-12T01:02:03.004+00:00").unwrap();
    assert_eq!(
        payload,
        "{\"id\":\"m-1\",\"room_id\":\"general\",\"user_id\":\"u-1\",\"username\":\"al\\\"ice\",\
         \"message_text\":\"line one\\nline \\\\ two é\",\
         \"created_at\":\"2000-01-12T01:02:03.004+00:00\",\"client_message_id\":\"c-1\"}"
    );
    let value: Value = serde_json::from_str(&payload).unwrap();
    assert_eq!(value.get("username").and_then(|v| v.as_str()), Some("al\"ice"));
    assert_eq!(
        value.get("message_text").and_then(|v| v.as_str()),
        Some("line one\nline \\ two é")
    );
    assert_eq!(value.as_object().unwrap().len(), 7);
}

#[test]
fn payload_leaves_out_a_missing_client_token() {
    let message = ChatMessage {
        id: "m-1".to_string(),
        room_id: "general".to_string(),
        user_id: "u-1".to_string(),
        username: "alice".to_string(),
        message_text: "Hello!".to_string(),
        created_at: 0,
        client_message_id: None,
    };
    let payload = encode_payload(&message, "1970-01-01T00:00:00+00:00").unwrap();
    assert_eq!(
        payload,
        "{\"id\":\"m-1\",\"room_id\":\"general\",\"user_id\":\"u-1\",\"username\":\"alice\",\
         \"message_text\":\"Hello!\",\"created_at\":\"1970-01-01T00:00:00+00:00\"}"
    );
    let value: Value = serde_json::from_str(&payload).unwrap();
    assert!(value.get("client_message_id").is_none());
}

#[test]
fn frame_joins_the_encoded_fields() {
    assert_eq!(
        frame_payload("1", "2", "3", "4", "5", "6", Some("7")),
        "{\"id\":1,\"room_id\":2,\"user_id\":3,\"username\":4,\"message_text\":5,\
         \"created_at\":6,\"client_message_id\":7}"
    );
    assert_eq!(
        frame_payload("1", "2", "3", "4", "5", "6", None),
        "{\"id\":1,\"room_id\":2,\"user_id\":3,\"username\":4,\"message_text\":5,\"created_at\":6}"
    );
}

#[test]
fn dispatch_carries_the_payload_to_the_sink() {
    let helper = helper();
    let (dispatch, step) = Dispatch::start(&record("INSERT", Some(image())));
    assert!(step.metrics.is_empty());
    assert!(matches!(&step.action, Action::Query { room_id } if room_id == "general"));
    let (_, step) =
        dispatch.on_event(&helper, Event::Connections(vec![gateway_connection("c-1")]));
    match step.action {
        Action::PostToConnection { connection_id, data } => {
            assert_eq!(connection_id, "c-1");
            assert_eq!(
                data,
                "{\"id\":\"m-1\",\"room_id\":\"general\",\"user_id\":\"u-1\",\
                 \"username\":\"alice\",\"message_text\":\"Hello!\",\
                 \"created_at\":\"2000-01-12T01:02:03.004+00:00\",\"client_message_id\":\"c-1\"}"
            );
        }
        other => panic!("unexpected action {:?}", other),
    }
    assert_eq!(names(&step.metrics), vec!["MessagesPosted", "MessageLength"]);
}

#[test]
fn room_without_connections_completes_at_once() {
    let (outcome, metrics, delivered_to, deleted) =
        run(&record("INSERT", Some(image())), Vec::new(), &[], &[]);
    assert_eq!(outcome, Outcome::Completed(Report { attempts: 0, successes: 0, pruned: 0 }));
    assert!(delivered_to.is_empty());
    assert!(deleted.is_empty());
    assert_eq!(metrics.len(), 5);
    assert_eq!(value_of(&metrics, "BroadcastAttempts"), 0);
    assert_eq!(value_of(&metrics, "BroadcastSuccesses"), 0);
    assert_eq!(value_of(&metrics, "BroadcastFailures"), 0);
}

#[test]
fn transient_gateway_failure_prunes_nothing() {
    let (outcome, metrics, _, deleted) = run(
        &record("INSERT", Some(image())),
        vec![gateway_connection("c-1"), gateway_connection("c-2")],
        &[("c-1", GatewayOutcome::OtherError), ("c-2", GatewayOutcome::Success)],
        &[],
    );
    assert_eq!(outcome, Outcome::Completed(Report { attempts: 2, successes: 1, pruned: 0 }));
    assert!(deleted.is_empty());
    assert_eq!(value_of(&metrics, "BroadcastFailures"), 1);
}

#[test]
fn local_connections_are_pushed_and_pruned_by_status() {
    let connections = vec![
        local_connection("l-1", "http://a/send"),
        local_connection("l-2", "http://b/send"),
        local_connection("l-3", "http://c/send"),
        local_connection("l-4", "http://d/send"),
        local_connection("l-5", "http://e/send"),
    ];
    let (outcome, metrics, delivered_to, deleted) = run(
        &record("INSERT", Some(image())),
        connections,
        &[],
        &[
            ("http://a/send", LocalOutcome::Status(200)),
            ("http://b/send", LocalOutcome::Status(404)),
            ("http://c/send", LocalOutcome::Status(410)),
            ("http://d/send", LocalOutcome::Status(500)),
            ("http://e/send", LocalOutcome::Unreachable),
        ],
    );
    assert_eq!(outcome, Outcome::Completed(Report { attempts: 5, successes: 1, pruned: 2 }));
    assert_eq!(delivered_to.len(), 5);
    assert_eq!(deleted, vec!["l-2", "l-3"]);
    assert_eq!(value_of(&metrics, "BroadcastAttempts"), 5);
    assert_eq!(value_of(&metrics, "BroadcastSuccesses"), 1);
    assert_eq!(value_of(&metrics, "BroadcastFailures"), 4);
}

#[test]
fn unreachable_records_are_passed_over_but_counted() {
    let connections = vec![
        vec![s("connection_id", "x-1"), s("transport", "carrier-pigeon")],
        vec![s("transport", "apigw")],
        vec![s("connection_id", "x-3"), s("transport", "dev")],
        vec![s("connection_id", "c-4")],
    ];
    let (outcome, metrics, delivered_to, deleted) = run(
        &record("INSERT", Some(image())),
        connections,
        &[("c-4", GatewayOutcome::Success)],
        &[],
    );
    assert_eq!(outcome, Outcome::Completed(Report { attempts: 4, successes: 1, pruned: 0 }));
    assert_eq!(delivered_to, vec!["c-4"]);
    assert!(deleted.is_empty());
    assert_eq!(value_of(&metrics, "BroadcastFailures"), 3);
}

#[test]
fn failed_query_fails_the_event_alone() {
    let helper = helper();
    let (dispatch, _) = Dispatch::start(&record("INSERT", Some(image())));
    let (dispatch, step) = dispatch.on_event(&helper, Event::QueryFailed);
    assert!(dispatch.finished());
    assert!(step.metrics.is_empty());
    assert!(matches!(step.action, Action::Finish(Outcome::Failed(RecordError::QueryFailed))));
}

#[test]
fn events_out_of_turn_end_the_dispatch() {
    let helper = helper();
    let (dispatch, _) = Dispatch::start(&record("INSERT", Some(image())));
    let (dispatch, step) = dispatch.on_event(&helper, Event::Deleted);
    assert!(matches!(step.action, Action::Finish(Outcome::Failed(RecordError::UnexpectedEvent))));
    let (dispatch, step) = dispatch.on_event(&helper, Event::Connections(Vec::new()));
    assert!(dispatch.finished());
    assert!(matches!(step.action, Action::Finish(Outcome::Failed(RecordError::UnexpectedEvent))));
}

#[test]
fn answer_of_the_other_sink_counts_as_failure() {
    let helper = helper();
    let (dispatch, _) = Dispatch::start(&record("INSERT", Some(image())));
    let (dispatch, _) =
        dispatch.on_event(&helper, Event::Connections(vec![gateway_connection("c-1")]));
    let (dispatch, step) = dispatch.on_event(&helper, Event::Local(LocalOutcome::Status(200)));
    assert!(dispatch.finished());
    assert!(matches!(
        step.action,
        Action::Finish(Outcome::Completed(Report { attempts: 1, successes: 0, pruned: 0 }))
    ));
}

#[test]
fn delivery_plan_follows_the_transport() {
    assert!(matches!(
        plan_delivery(&gateway_connection("c-1")),
        Delivery::Gateway { connection_id } if connection_id == "c-1"
    ));
    assert!(matches!(
        plan_delivery(&vec![s("connection_id", "c-2")]),
        Delivery::Gateway { connection_id } if connection_id == "c-2"
    ));
    assert!(matches!(
        plan_delivery(&vec![s("connection_id", "c-3"), n("transport", "1")]),
        Delivery::Gateway { connection_id } if connection_id == "c-3"
    ));
    assert!(matches!(
        plan_delivery(&local_connection("l-1", "http://a/send")),
        Delivery::Local { push_url, connection_id }
            if push_url == "http://a/send" && connection_id == Some("l-1".to_string())
    ));
    assert!(matches!(
        plan_delivery(&vec![s("transport", "dev"), s("push_url", "http://a/send")]),
        Delivery::Local { push_url, connection_id: None } if push_url == "http://a/send"
    ));
    assert!(matches!(plan_delivery(&vec![s("transport", "dev")]), Delivery::Skip));
    assert!(matches!(plan_delivery(&vec![s("transport", "apigw")]), Delivery::Skip));
    assert!(matches!(
        plan_delivery(&vec![s("connection_id", "c"), s("transport", "APIGW")]),
        Delivery::Skip
    ));
    assert!(matches!(plan_delivery(&Vec::new()), Delivery::Skip));
}

#[test]
fn sink_answers_are_classified() {
    assert_eq!(classify_gateway(GatewayOutcome::Success), DeliveryResult::Delivered);
    assert_eq!(classify_gateway(GatewayOutcome::Gone), DeliveryResult::Stale);
    assert_eq!(classify_gateway(GatewayOutcome::OtherError), DeliveryResult::Transient);
    assert_eq!(classify_local(LocalOutcome::Status(200)), DeliveryResult::Delivered);
    assert_eq!(classify_local(LocalOutcome::Status(204)), DeliveryResult::Delivered);
    assert_eq!(classify_local(LocalOutcome::Status(299)), DeliveryResult::Delivered);
    assert_eq!(classify_local(LocalOutcome::Status(199)), DeliveryResult::Transient);
    assert_eq!(classify_local(LocalOutcome::Status(300)), DeliveryResult::Transient);
    assert_eq!(classify_local(LocalOutcome::Status(404)), DeliveryResult::Stale);
    assert_eq!(classify_local(LocalOutcome::Status(410)), DeliveryResult::Stale);
    assert_eq!(classify_local(LocalOutcome::Status(403)), DeliveryResult::Transient);
    assert_eq!(classify_local(LocalOutcome::Status(500)), DeliveryResult::Transient);
    assert_eq!(classify_local(LocalOutcome::Unreachable), DeliveryResult::Transient);
}

#[test]
fn only_a_stale_connection_with_a_known_id_is_pruned() {
    let gateway = Delivery::Gateway { connection_id: "c-1".to_string() };
    assert_eq!(connection_to_prune(&gateway, DeliveryResult::Stale), Some("c-1".to_string()));
    assert_eq!(connection_to_prune(&gateway, DeliveryResult::Delivered), None);
    assert_eq!(connection_to_prune(&gateway, DeliveryResult::Transient), None);
    let named =
        Delivery::Local { push_url: "http://a".to_string(), connection_id: Some("l".to_string()) };
    assert_eq!(connection_to_prune(&named, DeliveryResult::Stale), Some("l".to_string()));
    let nameless = Delivery::Local { push_url: "http://a".to_string(), connection_id: None };
    assert_eq!(connection_to_prune(&nameless, DeliveryResult::Stale), None);
    assert_eq!(connection_to_prune(&Delivery::Skip, DeliveryResult::Stale), None);
}

#[test]
fn stale_local_connection_without_id_is_not_pruned() {
    let connections = vec![vec![s("transport", "dev"), s("push_url", "http://a/send")]];
    let (outcome, _, _, deleted) = run(
        &record("INSERT", Some(image())),
        connections,
        &[],
        &[("http://a/send", LocalOutcome::Status(410))],
    );
    assert_eq!(outcome, Outcome::Completed(Report { attempts: 1, successes: 0, pruned: 0 }));
    assert!(deleted.is_empty());
}

#[test]
fn message_length_is_measured_in_bytes() {
    let mut wide = without(image(), "message_text");
    wide.push(s("message_text", "héllo"));
    let (_, metrics, _, _) = run(&record("INSERT", Some(wide)), Vec::new(), &[], &[]);
    assert_eq!(value_of(&metrics, "MessageLength"), 6);
    let length = metrics.iter().find(|m| m.name == "MessageLength").unwrap();
    assert_eq!(length.unit, MetricUnit::Unitless);
}

#[test]
fn batch_always_succeeds() {
    let outcomes = vec![
        Outcome::Completed(Report { attempts: 3, successes: 2, pruned: 1 }),
        Outcome::Skipped,
        Outcome::Failed(RecordError::MissingId),
        Outcome::Failed(RecordError::QueryFailed),
        Outcome::Skipped,
        Outcome::Skipped,
    ];
    let report = function_handler(&outcomes);
    assert_eq!(report.response.status_code, 200);
    assert_eq!(report.completed, 1);
    assert_eq!(report.skipped, 3);
    assert_eq!(report.failed, 2);
    let empty = function_handler(&Vec::new());
    assert_eq!(empty.response.status_code, 200);
    assert_eq!(empty.completed + empty.skipped + empty.failed, 0);
}

#[test]
fn failing_event_leaves_its_siblings_alone() {
    let records = vec![
        record("INSERT", Some(without(image(), "id"))),
        record("MODIFY", Some(image())),
        record("INSERT", Some(image())),
    ];
    let mut outcomes = Vec::new();
    for r in &records {
        let (outcome, _, _, _) =
            run(r, vec![gateway_connection("c-1")], &[("c-1", GatewayOutcome::Success)], &[]);
        outcomes.push(outcome);
    }
    assert_eq!(
        outcomes,
        vec![
            Outcome::Failed(RecordError::MissingId),
            Outcome::Skipped,
            Outcome::Completed(Report { attempts: 1, successes: 1, pruned: 0 }),
        ]
    );
    let report = function_handler(&outcomes);
    assert_eq!((report.completed, report.skipped, report.failed), (1, 1, 1));
}

#[test]
fn well_formed_insert_always_asks_the_registry() {
    let odd = vec![
        s("id", "\u{0}\u{1f}\"\\"),
        s("room_id", "räum \u{2028}"),
        s("username", "\u{feff}\u{10ffff}"),
        s("message_text", "\t\r\n\u{7f}\u{80}"),
        n("ts", "-9223372036854775808"),
    ];
    let (dispatch, step) = Dispatch::start(&record("INSERT", Some(odd)));
    assert!(!dispatch.finished());
    assert!(step.metrics.is_empty());
    assert!(matches!(&step.action, Action::Query { room_id } if room_id == "räum \u{2028}"));
    let helper = helper();
    let (_, step) =
        dispatch.on_event(&helper, Event::Connections(vec![gateway_connection("c-1")]));
    match step.action {
        Action::PostToConnection { data, .. } => {
            let value: Value = serde_json::from_str(&data).unwrap();
            assert_eq!(value.get("id").and_then(|v| v.as_str()), Some("\u{0}\u{1f}\"\\"));
            assert_eq!(
                value.get("message_text").and_then(|v| v.as_str()),
                Some("\t\r\n\u{7f}\u{80}")
            );
            assert_eq!(value.get("user_id").and_then(|v| v.as_str()), Some("unknown"));
            let created_at = value.get("created_at").and_then(|v| v.as_str()).unwrap();
            assert!(chrono::DateTime::parse_from_rfc3339(created_at).is_ok());
        }
        other => panic!("unexpected action {:?}", other),
    }
}

#[test]
fn encoding_takes_every_text() {
    let mut text = String::new();
    let mut code: u32 = 0;
    while code < 0x3000 {
        if let Some(c) = char::from_u32(code) {
            text.push(c);
        }
        code += 1;
    }
    text.push('\u{10ffff}');
    let message = ChatMessage {
        id: text.clone(),
        room_id: String::new(),
        user_id: text.clone(),
        username: text.clone(),
        message_text: text.clone(),
        created_at: 0,
        client_message_id: Some(text.clone()),
    };
    let payload = encode_payload(&message, &text).unwrap();
    let value: Value = serde_json::from_str(&payload).unwrap();
    for key in ["id", "user_id", "username", "message_text", "created_at", "client_message_id"] {
        assert_eq!(value.get(key).and_then(|v| v.as_str()), Some(text.as_str()), "{}", key);
    }
    assert_eq!(value.get("room_id").and_then(|v| v.as_str()), Some(""));
}
