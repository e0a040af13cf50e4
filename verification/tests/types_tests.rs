use chat_backend::types::{
    ChatMessage, GetMessagesResponse, HealthCheck, HealthStatus, Message, SendMessageRequest,
};
use serde_json::Value;

fn utc_now() -> i64 {
    chrono::Utc::now().timestamp_millis()
}

fn text(value: &Value, key: &str) -> String {
    value.get(key).and_then(|v| v.as_str()).expect("a string field").to_string()
}

fn message_to_json(message: &Message) -> String {
    let mut map = serde_json::Map::new();
    map.insert("id".to_string(), Value::String(message.id.clone()));
    map.insert("user_id".to_string(), Value::String(message.user_id.clone()));
    map.insert("username".to_string(), Value::String(message.username.clone()));
    map.insert("text".to_string(), Value::String(message.text.clone()));
    map.insert("timestamp".to_string(), Value::from(message.timestamp));
    serde_json::to_string(&Value::Object(map)).unwrap()
}

fn message_from_json(json: &str) -> Message {
    let value: Value = serde_json::from_str(json).unwrap();
    Message {
        id: text(&value, "id"),
        user_id: text(&value, "user_id"),
        username: text(&value, "username"),
        text: text(&value, "text"),
        timestamp: value.get("timestamp").and_then(|v| v.as_i64()).unwrap(),
    }
}

fn request_to_json(request: &SendMessageRequest) -> String {
    let mut map = serde_json::Map::new();
    map.insert("room_id".to_string(), Value::String(request.room_id.clone()));
    map.insert("user_id".to_string(), Value::String(request.user_id.clone()));
    map.insert("username".to_string(), Value::String(request.username.clone()));
    map.insert("message_text".to_string(), Value::String(request.message_text.clone()));
    map.insert(
        "client_message_id".to_string(),
        match &request.client_message_id {
            Some(token) => Value::String(token.clone()),
            None => Value::Null,
        },
    );
    serde_json::to_string(&Value::Object(map)).unwrap()
}

fn request_from_json(json: &str) -> SendMessageRequest {
    let value: Value = serde_json::from_str(json).unwrap();
    SendMessageRequest {
        room_id: text(&value, "room_id"),
        user_id: text(&value, "user_id"),
        username: text(&value, "username"),
        message_text: text(&value, "message_text"),
        client_message_id: value
            .get("client_message_id")
            .and_then(|v| v.as_str())
            .map(|s| s.to_string()),
    }
}

fn chat_message_to_value(message: &ChatMessage) -> Value {
    let mut map = serde_json::Map::new();
    map.insert("id".to_string(), Value::String(message.id.clone()));
    map.insert("room_id".to_string(), Value::String(message.room_id.clone()));
    map.insert("user_id".to_string(), Value::String(message.user_id.clone()));
    map.insert("username".to_string(), Value::String(message.username.clone()));
    map.insert("message_text".to_string(), Value::String(message.message_text.clone()));
    map.insert("created_at".to_string(), Value::from(message.created_at));
    map.insert(
        "client_message_id".to_string(),
        match &message.client_message_id {
            Some(token) => Value::String(token.clone()),
            None => Value::Null,
        },
    );
    Value::Object(map)
}

fn chat_message_from_value(value: &Value) -> ChatMessage {
    ChatMessage {
        id: text(value, "id"),
        room_id: text(value, "room_id"),
        user_id: text(value, "user_id"),
        username: text(value, "username"),
        message_text: text(value, "message_text"),
        created_at: value.get("created_at").and_then(|v| v.as_i64()).unwrap(),
        client_message_id: value
            .get("client_message_id")
            .and_then(|v| v.as_str())
            .map(|s| s.to_string()),
    }
}

fn response_to_json(response: &GetMessagesResponse) -> String {
    let mut map = serde_json::Map::new();
    map.insert("room_id".to_string(), Value::String(response.room_id.clone()));
    map.insert(
        "messages".to_string(),
        Value::Array(response.messages.iter().map(chat_message_to_value).collect()),
    );
    serde_json::to_string(&Value::Object(map)).unwrap()
}

fn response_from_json(json: &str) -> GetMessagesResponse {
    let value: Value = serde_json::from_str(json).unwrap();
    GetMessagesResponse {
        room_id: text(&value, "room_id"),
        messages: value
            .get("messages")
            .and_then(|v| v.as_array())
            .unwrap()
            .iter()
            .map(chat_message_from_value)
            .collect(),
    }
}

#[test]
fn test_health_check() {
    let health = HealthCheck {
        status: HealthStatus::Healthy,
        version: "0.1.0".to_string(),
        timestamp: utc_now(),
    };

    assert_eq!(health.status, HealthStatus::Healthy);
    assert_eq!(health.version, "0.1.0");
}

#[test]
fn test_message_serialization() {
    let message = Message {
        id: "01ARZ3NDEKTSV4RRFFQ69G5FAV".to_string(),
        user_id: "01ARZ3NDEKTSV4RRFFQ69G5FB1".to_string(),
        username: "alice".to_string(),
        text: "Hello world!".to_string(),
        timestamp: utc_now(),
    };

    let json = message_to_json(&message);
    let deserialized: Message = message_from_json(&json);

    assert_eq!(message.id, deserialized.id);
    assert_eq!(message.user_id, deserialized.user_id);
    assert_eq!(message.username, deserialized.username);
    assert_eq!(message.text, deserialized.text);
}

#[test]
fn test_send_message_request_validation() {
    let request = SendMessageRequest {
        room_id: "general".to_string(),
        user_id: "01ARZ3NDEKTSV4RRFFQ69G5FB1".to_string(),
        username: "alice".to_string(),
        message_text: "Hello!".to_string(),
        client_message_id: Some("01ARZ3NDEKTSV4RRFFQ69G5FB2".to_string()),
    };

    let json = request_to_json(&request);
    let deserialized: SendMessageRequest = request_from_json(&json);

    assert_eq!(request.room_id, deserialized.room_id);
    assert_eq!(request.user_id, deserialized.user_id);
    assert_eq!(request.username, deserialized.username);
    assert_eq!(request.message_text, deserialized.message_text);
    assert_eq!(request.client_message_id, deserialized.client_message_id);
}

#[test]
fn test_get_messages_response() {
    let messages = vec![
        ChatMessage {
            id: "01ARZ3NDEKTSV4RRFFQ69G5FAV".to_string(),
            room_id: "general".to_string(),
            user_id: "01ARZ3NDEKTSV4RRFFQ69G5FB1".to_string(),
            username: "alice".to_string(),
            message_text: "Hello!".to_string(),
            created_at: utc_now(),
            client_message_id: None,
        },
        ChatMessage {
            id: "01ARZ3NDEKTSV4RRFFQ69G5FB2".to_string(),
            room_id: "general".to_string(),
            user_id: "01ARZ3NDEKTSV4RRFFQ69G5FB3".to_string(),
            username: "bob".to_string(),
            message_text: "Hi Alice!".to_string(),
            created_at: utc_now(),
            client_message_id: None,
        },
    ];

    let response = GetMessagesResponse { room_id: "general".to_string(), messages };

    let json = response_to_json(&response);
    let deserialized: GetMessagesResponse = response_from_json(&json);

    assert_eq!(response.room_id, deserialized.room_id);
    assert_eq!(response.messages.len(), deserialized.messages.len());
    assert_eq!(response.messages[0].username, "alice");
    assert_eq!(response.messages[1].username, "bob");
}

#[test]
fn health_status_variants_differ() {
    assert_ne!(HealthStatus::Healthy, HealthStatus::Degraded);
    assert_ne!(HealthStatus::Degraded, HealthStatus::Unhealthy);
    assert_ne!(HealthStatus::Healthy, HealthStatus::Unhealthy);
}

#[test]
fn chat_message_clone_keeps_every_field() {
    let message = ChatMessage {
        id: "m-1".to_string(),
        room_id: "general".to_string(),
        user_id: "u-1".to_string(),
        username: "alice".to_string(),
        message_text: "Hello!".to_string(),
        created_at: 1_700_000_000_123,
        client_message_id: Some("c-1".to_string()),
    };
    let copy = message.clone();
    assert_eq!(copy.id, "m-1");
    assert_eq!(copy.room_id, "general");
    assert_eq!(copy.user_id, "u-1");
    assert_eq!(copy.username, "alice");
    assert_eq!(copy.message_text, "Hello!");
    assert_eq!(copy.created_at, 1_700_000_000_123);
    assert_eq!(copy.client_message_id, Some("c-1".to_string()));
}
