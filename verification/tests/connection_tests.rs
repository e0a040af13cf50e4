use chat_backend::connection::{
    connect_reply, connection_item, disconnect_reply, expiry, gateway_connection,
    local_connection, on_connect, push_url, room_of_connection, ConnectRequest, RuntimeMode,
    Transport,
};
use chat_backend::delivery::{plan_delivery, Delivery};
use chat_backend::metrics::MetricsHelper;
use chat_backend::store::{get_number, get_text, Attribute, AttributeValue};

fn nobody() -> ConnectRequest {
    ConnectRequest { room_id: None, user_id: None, username: None }
}

fn somebody() -> ConnectRequest {
    ConnectRequest {
        room_id: Some("rust".to_string()),
        user_id: Some("u-1".to_string()),
        username: Some("alice".to_string()),
    }
}

fn helper() -> MetricsHelper {
    MetricsHelper::new(Some("test".to_string()))
}

#[test]
fn gateway_connection_defaults() {
    let c = gateway_connection("c-1".to_string(), None, None, nobody(), 1_700_000_000_123);
    assert_eq!(c.connection_id, "c-1");
    assert_eq!(c.room_id, "general");
    assert_eq!(c.user_id, "anon");
    assert_eq!(c.username, "anon");
    assert_eq!(c.transport, Transport::Gateway);
    assert_eq!(c.push_target, "c-1");
    assert_eq!(c.connected_at, 1_700_000_000_123);
    assert_eq!(c.expires_at, 1_700_000_000 + 86_400);
    assert_eq!(c.domain, "unknown");
    assert_eq!(c.stage, "unknown");
}

#[test]
fn gateway_connection_takes_what_is_given() {
    let c = gateway_connection(
        "c-1".to_string(),
        Some("ws.example.com".to_string()),
        Some("prod".to_string()),
        somebody(),
        0,
    );
    assert_eq!(c.room_id, "rust");
    assert_eq!(c.user_id, "u-1");
    assert_eq!(c.username, "alice");
    assert_eq!(c.domain, "ws.example.com");
    assert_eq!(c.stage, "prod");
    assert_eq!(c.expires_at, 86_400);
}

#[test]
fn local_connection_defaults() {
    let c = local_connection("l-1".to_string(), None, nobody(), 5_000);
    assert_eq!(c.room_id, "general");
    assert_eq!(c.user_id, "dev-user");
    assert_eq!(c.username, "Developer");
    assert_eq!(c.transport, Transport::Local);
    assert_eq!(c.push_target, "http://localhost:3001/dev/conn/l-1/send");
    assert_eq!(c.expires_at, 5 + 86_400);
    assert_eq!(c.domain, "local");
    assert_eq!(c.stage, "local");
}

#[test]
fn push_url_drops_trailing_slashes_of_the_base() {
    assert_eq!(
        push_url(&Some("https://dev.example.com//".to_string()), "l-1"),
        "https://dev.example.com/dev/conn/l-1/send"
    );
    assert_eq!(
        push_url(&Some("https://dev.example.com".to_string()), "l-1"),
        "https://dev.example.com/dev/conn/l-1/send"
    );
    assert_eq!(push_url(&None, "x"), "http://localhost:3001/dev/conn/x/send");
}

#[test]
fn expiry_is_a_day_after_connecting() {
    assert_eq!(expiry(0), 86_400);
    assert_eq!(expiry(999), 86_400);
    assert_eq!(expiry(1_000), 86_401);
    assert_eq!(expiry(-1), 86_400);
    assert_eq!(expiry(-1_000), 86_399);
    assert_eq!(expiry(i64::MAX), i64::MAX / 1000 + 86_400);
    assert_eq!(expiry(i64::MIN), i64::MIN / 1000 + 86_400);
}

#[test]
fn on_connect_behind_the_gateway_keeps_its_id() {
    let before = chrono::Utc::now().timestamp_millis();
    let c = on_connect(
        RuntimeMode::Production {
            connection_id: "c-7".to_string(),
            domain_name: None,
            stage: Some("prod".to_string()),
        },
        somebody(),
    );
    assert_eq!(c.connection_id, "c-7");
    assert_eq!(c.transport, Transport::Gateway);
    assert_eq!(c.push_target, "c-7");
    assert_eq!(c.stage, "prod");
    assert!(c.connected_at >= before);
    assert_eq!(c.expires_at, c.connected_at / 1000 + 86_400);
}

#[test]
fn on_connect_in_development_draws_an_id() {
    let first = on_connect(RuntimeMode::Development { public_base_url: None }, nobody());
    let second = on_connect(RuntimeMode::Development { public_base_url: None }, nobody());
    assert_ne!(first.connection_id, second.connection_id);
    assert_eq!(first.connection_id.len(), 36);
    assert_eq!(first.transport, Transport::Local);
    assert_eq!(
        first.push_target,
        format!("http://localhost:3001/dev/conn/{}/send", first.connection_id)
    );
    assert_eq!(first.username, "Developer");
}

#[test]
fn gateway_record_has_no_push_url() {
    let c = gateway_connection("c-1".to_string(), None, None, somebody(), 1_700_000_000_123);
    let item = connection_item(&c);
    let names: Vec<String> = item.iter().map(|a| a.name.clone()).collect();
    assert_eq!(
        names,
        vec![
            "connection_id",
            "room_id",
            "user_id",
            "username",
            "connected_at",
            "domain",
            "stage",
            "transport",
            "ttl"
        ]
    );
    assert_eq!(get_text(&item, "transport"), Some("apigw".to_string()));
    assert_eq!(get_number(&item, "connected_at"), Some("1700000000123".to_string()));
    assert_eq!(get_number(&item, "ttl"), Some("1700086400".to_string()));
    assert!(matches!(
        plan_delivery(&item),
        Delivery::Gateway { connection_id } if connection_id == "c-1"
    ));
}

#[test]
fn local_record_carries_its_push_url() {
    let c = local_connection("l-1".to_string(), None, nobody(), 0);
    let item = connection_item(&c);
    assert_eq!(item.len(), 10);
    assert_eq!(get_text(&item, "transport"), Some("dev".to_string()));
    assert_eq!(
        get_text(&item, "push_url"),
        Some("http://localhost:3001/dev/conn/l-1/send".to_string())
    );
    assert!(matches!(
        plan_delivery(&item),
        Delivery::Local { push_url, connection_id }
            if push_url == "http://localhost:3001/dev/conn/l-1/send"
                && connection_id == Some("l-1".to_string())
    ));
}

#[test]
fn connect_is_accepted_either_way() {
    let stored = connect_reply(&helper(), "rust", true);
    assert_eq!(stored.response.status_code, 200);
    assert_eq!(stored.metrics.len(), 1);
    assert_eq!(stored.metrics[0].name, "ConnectionEvents");
    assert_eq!(stored.metrics[0].value, 1);
    assert_eq!(stored.metrics[0].dimensions[0].name, "EventType");
    assert_eq!(stored.metrics[0].dimensions[0].value, "connect");
    assert_eq!(stored.metrics[0].dimensions[1].name, "RoomId");
    assert_eq!(stored.metrics[0].dimensions[1].value, "rust");
    let failed = connect_reply(&helper(), "rust", false);
    assert_eq!(failed.response.status_code, 200);
    assert_eq!(failed.metrics.len(), 1);
    assert_eq!(failed.metrics[0].name, "ConnectionErrors");
    assert_eq!(failed.metrics[0].dimensions[0].name, "ErrorType");
    assert_eq!(failed.metrics[0].dimensions[0].value, "DatabaseError");
    assert_eq!(failed.metrics[0].dimensions[1].value, "rust");
}

#[test]
fn disconnect_of_an_unknown_connection_succeeds() {
    let room = room_of_connection(&None);
    assert_eq!(room, "unknown");
    let reply = disconnect_reply(&helper(), &room, true);
    assert_eq!(reply.response.status_code, 200);
    assert_eq!(reply.metrics.len(), 1);
    assert_eq!(reply.metrics[0].name, "ConnectionEvents");
    assert_eq!(reply.metrics[0].dimensions[0].value, "disconnect");
    assert_eq!(reply.metrics[0].dimensions[1].name, "RoomId");
    assert_eq!(reply.metrics[0].dimensions[1].value, "unknown");
}

#[test]
fn disconnect_succeeds_when_the_delete_fails() {
    let reply = disconnect_reply(&helper(), "rust", false);
    assert_eq!(reply.response.status_code, 200);
    assert_eq!(reply.metrics.len(), 1);
    assert_eq!(reply.metrics[0].name, "DisconnectionErrors");
    assert_eq!(reply.metrics[0].dimensions[1].value, "rust");
}

#[test]
fn disconnect_is_attributed_to_the_room_of_the_record() {
    let c = gateway_connection("c-1".to_string(), None, None, somebody(), 0);
    assert_eq!(room_of_connection(&Some(connection_item(&c))), "rust");
    assert_eq!(room_of_connection(&Some(Vec::new())), "unknown");
    let odd = vec![Attribute { name: "room_id".to_string(), value: AttributeValue::Other }];
    assert_eq!(room_of_connection(&Some(odd)), "unknown");
}

#[test]
fn transport_names() {
    assert_eq!(Transport::Gateway.name(), "apigw");
    assert_eq!(Transport::Local.name(), "dev");
}

#[test]
fn connection_records_name_each_attribute_once() {
    let gateway = gateway_connection("c-1".to_string(), None, None, somebody(), 0);
    let local = local_connection("l-1".to_string(), None, nobody(), 0);
    for item in [connection_item(&gateway), connection_item(&local)] {
        let mut names: Vec<String> = item.iter().map(|a| a.name.clone()).collect();
        let count = names.len();
        names.sort();
        names.dedup();
        assert_eq!(names.len(), count);
    }
}

#[test]
fn on_disconnect_attributes_and_succeeds() {
    let unknown = chat_backend::connection::on_disconnect(&helper(), &None, true);
    assert_eq!(unknown.response.status_code, 200);
    assert_eq!(unknown.metrics.len(), 1);
    assert_eq!(unknown.metrics[0].name, "ConnectionEvents");
    assert_eq!(unknown.metrics[0].dimensions[0].value, "disconnect");
    assert_eq!(unknown.metrics[0].dimensions[1].value, "unknown");
    let c = gateway_connection("c-1".to_string(), None, None, somebody(), 0);
    let known =
        chat_backend::connection::on_disconnect(&helper(), &Some(connection_item(&c)), false);
    assert_eq!(known.response.status_code, 200);
    assert_eq!(known.metrics[0].name, "DisconnectionErrors");
    assert_eq!(known.metrics[0].dimensions[1].value, "rust");
}
