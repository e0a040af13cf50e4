use chat_backend::posting::{PostAction, PostEvent, Posting};
use chat_backend::service::RoomWrite;
use chat_backend::store::{get_number, get_text, Attribute};
use chat_backend::types::{ChatMessage, SendMessageRequest};

fn request(room: &str, text: &str) -> SendMessageRequest {
    SendMessageRequest {
        room_id: room.to_string(),
        user_id: "u-1".to_string(),
        username: "alice".to_string(),
        message_text: text.to_string(),
        client_message_id: None,
    }
}

/// A store that holds rooms and messages in memory.
struct Store {
    rooms: Vec<Vec<Attribute>>,
    messages: Vec<Vec<Attribute>>,
    fail_lookup: bool,
    fail_room_write: bool,
    fail_message_write: bool,
    log: Vec<String>,
}

fn store() -> Store {
    Store {
        rooms: Vec::new(),
        messages: Vec::new(),
        fail_lookup: false,
        fail_room_write: false,
        fail_message_write: false,
        log: Vec::new(),
    }
}

fn has_room(store: &Store, room_id: &str) -> bool {
    store.rooms.iter().any(|room| get_text(room, "id").as_deref() == Some(room_id))
}

fn post(store: &mut Store, request: SendMessageRequest) -> Result<ChatMessage, String> {
    let (mut posting, mut action) = Posting::start_with(request, "m-1".to_string(), 947638923004);
    loop {
        let event = match action {
            PostAction::Finish(result) => {
                assert!(posting.finished());
                return result;
            }
            PostAction::GetRoom { room_id } => {
                store.log.push(format!("get {}", room_id));
                PostEvent::RoomLookup(if store.fail_lookup {
                    Err("lookup down".to_string())
                } else {
                    Ok(has_room(store, &room_id))
                })
            }
            PostAction::PutRoom { item } => {
                let id = get_text(&item, "id").unwrap();
                store.log.push(format!("put room {}", id));
                PostEvent::RoomWritten(if store.fail_room_write {
                    RoomWrite::Failed("throttled".to_string())
                } else if has_room(store, &id) {
                    RoomWrite::AlreadyExists
                } else {
                    store.rooms.push(item);
                    RoomWrite::Created
                })
            }
            PostAction::PutMessage { item } => {
                let room = get_text(&item, "room_id").unwrap();
                assert!(has_room(store, &room), "the room is there before the message");
                store.log.push(format!("put message {}", get_text(&item, "id").unwrap()));
                PostEvent::MessageWritten(if store.fail_message_write {
                    Err("write down".to_string())
                } else {
                    store.messages.push(item);
                    Ok(())
                })
            }
        };
        assert!(!posting.finished());
        let next = posting.on_event(event);
        posting = next.0;
        action = next.1;
    }
}

#[test]
fn first_post_creates_the_room_then_stores_the_message() {
    let mut store = store();
    let message = post(&mut store, request(" General ", " Hello! ")).unwrap();
    assert_eq!(message.id, "m-1");
    assert_eq!(message.room_id, "general");
    assert_eq!(message.message_text, "Hello!");
    assert_eq!(message.created_at, 947638923004);
    assert_eq!(store.log, vec!["get general", "put room general", "put message m-1"]);
    assert_eq!(store.rooms.len(), 1);
    assert_eq!(get_text(&store.rooms[0], "name"), Some("General".to_string()));
    assert_eq!(get_number(&store.rooms[0], "created_at_epoch"), Some("947638923".to_string()));
    assert_eq!(store.messages.len(), 1);
    assert_eq!(get_text(&store.messages[0], "message_text"), Some("Hello!".to_string()));
}

#[test]
fn later_posts_leave_the_room_alone() {
    let mut store = store();
    post(&mut store, request("general", "one")).unwrap();
    store.log.clear();
    post(&mut store, request("general", "two")).unwrap();
    assert_eq!(store.log, vec!["get general", "put message m-1"]);
    assert_eq!(store.rooms.len(), 1);
    assert_eq!(store.messages.len(), 2);
}

#[test]
fn losing_the_race_for_the_room_still_stores_the_message() {
    let (posting, action) = Posting::start_with(request("rust", "hi"), "m-2".to_string(), 5);
    assert!(matches!(&action, PostAction::GetRoom { room_id } if room_id == "rust"));
    let (posting, action) = posting.on_event(PostEvent::RoomLookup(Ok(false)));
    match &action {
        PostAction::PutRoom { item } => {
            assert_eq!(get_text(item, "id"), Some("rust".to_string()));
            assert_eq!(get_text(item, "name"), Some("rust".to_string()));
        }
        other => panic!("unexpected action {:?}", other),
    }
    let (posting, action) = posting.on_event(PostEvent::RoomWritten(RoomWrite::AlreadyExists));
    assert!(matches!(&action, PostAction::PutMessage { item } if item.len() == 7));
    let (posting, action) = posting.on_event(PostEvent::MessageWritten(Ok(())));
    assert!(posting.finished());
    assert!(matches!(action, PostAction::Finish(Ok(message)) if message.id == "m-2"));
}

#[test]
fn invalid_request_touches_nothing() {
    let mut store = store();
    let r = post(&mut store, request("general", &"x".repeat(501)));
    assert_eq!(r.err(), Some("Message text cannot be longer than 500 characters".to_string()));
    assert!(store.log.is_empty());
    let r = post(&mut store, request("  ", "hello"));
    assert_eq!(r.err(), Some("Room ID cannot be empty".to_string()));
    assert!(store.log.is_empty());
}

#[test]
fn failing_lookup_fails_the_post() {
    let mut store = store();
    store.fail_lookup = true;
    let r = post(&mut store, request("general", "hello"));
    assert_eq!(r.err(), Some("DynamoDB error: lookup down".to_string()));
    assert_eq!(store.log, vec!["get general"]);
}

#[test]
fn failing_room_write_fails_the_post() {
    let mut store = store();
    store.fail_room_write = true;
    let r = post(&mut store, request("general", "hello"));
    assert_eq!(r.err(), Some("Failed to create room: throttled".to_string()));
    assert_eq!(store.log, vec!["get general", "put room general"]);
    assert!(store.messages.is_empty());
}

#[test]
fn failing_message_write_fails_the_post() {
    let mut store = store();
    store.fail_message_write = true;
    let r = post(&mut store, request("general", "hello"));
    assert_eq!(r.err(), Some("DynamoDB error: write down".to_string()));
    assert_eq!(store.rooms.len(), 1);
    assert!(store.messages.is_empty());
}

#[test]
fn posting_refuses_events_out_of_turn() {
    let (posting, _) = Posting::start_with(request("general", "hello"), "m".to_string(), 0);
    let (posting, action) = posting.on_event(PostEvent::MessageWritten(Ok(())));
    assert!(posting.finished());
    assert!(matches!(action, PostAction::Finish(Err(e)) if e == "Unexpected event"));
    let (_, action) = posting.on_event(PostEvent::RoomLookup(Ok(true)));
    assert!(matches!(action, PostAction::Finish(Err(e)) if e == "Unexpected event"));
}

#[test]
fn posting_draws_its_own_id_and_instant() {
    let before = chrono::Utc::now().timestamp_millis();
    let (posting, action) = Posting::start(request("general", "hello"));
    assert!(matches!(action, PostAction::GetRoom { .. }));
    let (posting, _) = posting.on_event(PostEvent::RoomLookup(Ok(true)));
    let (_, action) = posting.on_event(PostEvent::MessageWritten(Ok(())));
    match action {
        PostAction::Finish(Ok(message)) => {
            assert_eq!(message.id.len(), 36);
            assert!(message.created_at >= before);
        }
        other => panic!("unexpected action {:?}", other),
    }
}
