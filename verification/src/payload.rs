//! From a change event of the message table to the payload that is pushed to
//! subscribers: reading the record's image, and framing the JSON object.

use crate::decimal::{parse_i64, parsed_i64};
use crate::outside::{format_rfc3339, json_string, json_string_of, now_millis, rfc3339_utc};
use crate::store::{get_number, get_text, number_of, text_of, Attribute, AttributeView};
use crate::text::opt_text;
use crate::types::{ChatMessage, ChatMessageView};
use vstd::prelude::*;
use vstd::string::*;

verus! {

/// The stream's view of one changed item.
#[derive(Debug)]
pub struct DynamoDBStreamRecord {
    pub new_image: Option<Vec<Attribute>>,
}

/// One change event: its kind and, where the stream sent it, the changed
/// item.
#[derive(Debug)]
pub struct DynamoDBRecord {
    pub event_name: String,
    pub dynamodb: Option<DynamoDBStreamRecord>,
}

/// A batch of change events.
#[derive(Debug)]
pub struct DynamoDBStreamEvent {
    pub records: Vec<DynamoDBRecord>,
}

/// Why one change event could not be dispatched.
#[derive(Debug, PartialEq, Eq, Structural, Clone, Copy)]
pub enum RecordError {
    NoStreamData,
    NoNewImage,
    MissingRoomId,
    MissingId,
    MissingUsername,
    MissingMessageText,
    InvalidTimestamp,
    EncodingFailed,
    QueryFailed,
    UnexpectedEvent,
}

/// A change event as a mathematical value.
pub struct DynamoDBRecordView {
    pub event_name: Seq<char>,
    pub dynamodb: Option<Option<Seq<AttributeView>>>,
}

impl View for DynamoDBStreamRecord {
    type V = Option<Seq<AttributeView>>;

    open spec fn view(&self) -> Option<Seq<AttributeView>> {
        match self.new_image {
            Some(image) => Some(image.deep_view()),
            None => None,
        }
    }
}

impl View for DynamoDBRecord {
    type V = DynamoDBRecordView;

    open spec fn view(&self) -> DynamoDBRecordView {
        DynamoDBRecordView {
            event_name: self.event_name@,
            dynamodb: match self.dynamodb {
                Some(stream) => Some(stream@),
                None => None,
            },
        }
    }
}

impl RecordError {
    /// The error in words.
    pub open spec fn text(self) -> Seq<char> {
        match self {
            RecordError::NoStreamData => "No dynamodb data in record"@,
            RecordError::NoNewImage => "No NewImage in record"@,
            RecordError::MissingRoomId => "Missing room_id"@,
            RecordError::MissingId => "Missing id"@,
            RecordError::MissingUsername => "Missing username"@,
            RecordError::MissingMessageText => "Missing message_text"@,
            RecordError::InvalidTimestamp => "Missing or invalid ts"@,
            RecordError::EncodingFailed => "Failed to encode the message"@,
            RecordError::QueryFailed => "Failed to query connections"@,
            RecordError::UnexpectedEvent => "Unexpected event"@,
        }
    }

    /// The error in words.
    pub fn message(&self) -> (r: String)
        ensures
            r@ == self.text(),
    {
        match self {
            RecordError::NoStreamData => String::from_str("No dynamodb data in record"),
            RecordError::NoNewImage => String::from_str("No NewImage in record"),
            RecordError::MissingRoomId => String::from_str("Missing room_id"),
            RecordError::MissingId => String::from_str("Missing id"),
            RecordError::MissingUsername => String::from_str("Missing username"),
            RecordError::MissingMessageText => String::from_str("Missing message_text"),
            RecordError::InvalidTimestamp => String::from_str("Missing or invalid ts"),
            RecordError::EncodingFailed => String::from_str("Failed to encode the message"),
            RecordError::QueryFailed => String::from_str("Failed to query connections"),
            RecordError::UnexpectedEvent => String::from_str("Unexpected event"),
        }
    }
}

/// The sender's id of an image: the stored one, or `unknown` for a message
/// that was stored without.
pub open spec fn user_id_of(image: Seq<AttributeView>) -> Seq<char> {
    match text_of(image, "user_id"@) {
        Some(id) => id,
        None => "unknown"@,
    }
}

/// The instant of an image: its `ts` attribute, a number in decimal text
/// that fits 64 bits.
pub open spec fn timestamp_of(image: Seq<AttributeView>) -> Option<i64> {
    match number_of(image, "ts"@) {
        Some(n) => parsed_i64(n),
        None => None,
    }
}

/// The message that an image of the message table holds, or the first
/// required field that it lacks, in the order room, id, username, text,
/// instant.
pub open spec fn message_of_image(image: Seq<AttributeView>) -> Result<
    ChatMessageView,
    RecordError,
> {
    if text_of(image, "room_id"@) is None {
        Err(RecordError::MissingRoomId)
    } else if text_of(image, "id"@) is None {
        Err(RecordError::MissingId)
    } else if text_of(image, "username"@) is None {
        Err(RecordError::MissingUsername)
    } else if text_of(image, "message_text"@) is None {
        Err(RecordError::MissingMessageText)
    } else if timestamp_of(image) is None {
        Err(RecordError::InvalidTimestamp)
    } else {
        Ok(
            ChatMessageView {
                id: text_of(image, "id"@)->0,
                room_id: text_of(image, "room_id"@)->0,
                user_id: user_id_of(image),
                username: text_of(image, "username"@)->0,
                message_text: text_of(image, "message_text"@)->0,
                created_at: timestamp_of(image)->0 as int,
                client_message_id: text_of(image, "client_message_id"@),
            },
        )
    }
}

/// What a change event asks for: nothing, unless it is an insert; for an
/// insert the message of its image, or the reason why there is none.
pub open spec fn message_of_record(record: DynamoDBRecordView) -> Result<
    Option<ChatMessageView>,
    RecordError,
> {
    if record.event_name != "INSERT"@ {
        Ok(None)
    } else {
        match record.dynamodb {
            None => Err(RecordError::NoStreamData),
            Some(None) => Err(RecordError::NoNewImage),
            Some(Some(image)) => match message_of_image(image) {
                Ok(message) => Ok(Some(message)),
                Err(e) => Err(e),
            },
        }
    }
}

/// The view of what reading a record gives.
pub open spec fn read_view(r: Result<Option<ChatMessage>, RecordError>) -> Result<
    Option<ChatMessageView>,
    RecordError,
> {
    match r {
        Ok(Some(m)) => Ok(Some(m@)),
        Ok(None) => Ok(None),
        Err(e) => Err(e),
    }
}

/// Reads the message out of an image of the message table.
pub fn read_image(image: &Vec<Attribute>) -> (r: Result<ChatMessage, RecordError>)
    ensures
        match r {
            Ok(m) => message_of_image(image.deep_view()) == Ok::<ChatMessageView, RecordError>(m@),
            Err(e) => message_of_image(image.deep_view()) == Err::<ChatMessageView, RecordError>(
                e,
            ),
        },
{
    let room_id = match get_text(image, "room_id") {
        Some(v) => v,
        None => { return Err(RecordError::MissingRoomId); },
    };
    let id = match get_text(image, "id") {
        Some(v) => v,
        None => { return Err(RecordError::MissingId); },
    };
    let username = match get_text(image, "username") {
        Some(v) => v,
        None => { return Err(RecordError::MissingUsername); },
    };
    let message_text = match get_text(image, "message_text") {
        Some(v) => v,
        None => { return Err(RecordError::MissingMessageText); },
    };
    let created_at = match get_number(image, "ts") {
        Some(n) => match parse_i64(n.as_str()) {
            Some(ts) => ts,
            None => { return Err(RecordError::InvalidTimestamp); },
        },
        None => { return Err(RecordError::InvalidTimestamp); },
    };
    let user_id = match get_text(image, "user_id") {
        Some(v) => v,
        None => String::from_str("unknown"),
    };
    let client_message_id = get_text(image, "client_message_id");
    Ok(ChatMessage { id, room_id, user_id, username, message_text, created_at, client_message_id })
}

/// Reads what a change event asks for. Only an insert is acted on; any other
/// kind of event yields `Ok(None)`.
pub fn read_record(record: &DynamoDBRecord) -> (r: Result<Option<ChatMessage>, RecordError>)
    ensures
        read_view(r) == message_of_record(record@),
{
    if record.event_name != String::from_str("INSERT") {
        return Ok(None);
    }
    match &record.dynamodb {
        None => Err(RecordError::NoStreamData),
        Some(stream) => match &stream.new_image {
            None => Err(RecordError::NoNewImage),
            Some(image) => match read_image(image) {
                Ok(message) => Ok(Some(message)),
                Err(e) => Err(e),
            },
        },
    }
}

/// The text of a message's instant in the payload: the first of the two
/// candidates that there is, else the empty text.
pub open spec fn first_text(primary: Option<Seq<char>>, fallback: Option<Seq<char>>) -> Seq<
    char,
> {
    match primary {
        Some(t) => t,
        None => match fallback {
            Some(t) => t,
            None => Seq::empty(),
        },
    }
}

/// Picks the text of a message's instant: `primary` where there is one, else
/// `fallback`, else the empty text.
pub fn choose_created_at(primary: Option<String>, fallback: Option<String>) -> (r: String)
    ensures
        r@ == first_text(opt_text(primary), opt_text(fallback)),
{
    match primary {
        Some(t) => t,
        None => match fallback {
            Some(t) => t,
            None => String::new(),
        },
    }
}

/// Whether `text` is the RFC 3339 text of some instant.
pub open spec fn is_instant_text(text: Seq<char>) -> bool {
    exists|n: int| #[trigger] rfc3339_utc(n) == Some(text)
}

/// What the text of the instant `millis` may be: the RFC 3339 text of that
/// instant or, where the calendar cannot represent it, the text of some
/// other instant.
pub open spec fn is_created_at_text(millis: int, text: Seq<char>) -> bool {
    match rfc3339_utc(millis) {
        Some(t) => text == t,
        None => is_instant_text(text),
    }
}

/// The RFC 3339 text of the instant `millis`. For an instant that the
/// calendar cannot represent it is the text of the present moment, which
/// only the clock determines.
pub fn created_at_text(millis: i64) -> (r: String)
    ensures
        is_created_at_text(millis as int, r@),
{
    let primary = format_rfc3339(millis);
    let fallback = match primary {
        Some(_) => None,
        None => {
            let now = now_millis();
            let text = format_rfc3339(now);
            assert(rfc3339_utc(now as int) == crate::text::opt_text(text));
            text
        },
    };
    choose_created_at(primary, fallback)
}

/// The JSON object pushed to subscribers, made of the already encoded string
/// literals of its fields. The client's token is left out where there is
/// none.
pub open spec fn framed_payload(
    id: Seq<char>,
    room_id: Seq<char>,
    user_id: Seq<char>,
    username: Seq<char>,
    message_text: Seq<char>,
    created_at: Seq<char>,
    client_message_id: Option<Seq<char>>,
) -> Seq<char> {
    let head = "{\"id\":"@ + id + ",\"room_id\":"@ + room_id + ",\"user_id\":"@ + user_id
        + ",\"username\":"@ + username + ",\"message_text\":"@ + message_text
        + ",\"created_at\":"@ + created_at;
    match client_message_id {
        Some(token) => head + ",\"client_message_id\":"@ + token + "}"@,
        None => head + "}"@,
    }
}

/// The JSON string literal of an optional text.
pub open spec fn json_opt(o: Option<Seq<char>>) -> Option<Seq<char>> {
    match o {
        Some(s) => Some(json_string_of(s)),
        None => None,
    }
}

/// The JSON payload of a message whose instant reads `created_at`.
pub open spec fn payload_json(message: ChatMessageView, created_at: Seq<char>) -> Seq<char> {
    framed_payload(
        json_string_of(message.id),
        json_string_of(message.room_id),
        json_string_of(message.user_id),
        json_string_of(message.username),
        json_string_of(message.message_text),
        json_string_of(created_at),
        json_opt(message.client_message_id),
    )
}

/// Frames the JSON object of a message from the encoded string literals of
/// its fields.
pub fn frame_payload(
    id: &str,
    room_id: &str,
    user_id: &str,
    username: &str,
    message_text: &str,
    created_at: &str,
    client_message_id: Option<&str>,
) -> (r: String)
    ensures
        r@ == framed_payload(
            id@,
            room_id@,
            user_id@,
            username@,
            message_text@,
            created_at@,
            match client_message_id {
                Some(t) => Some(t@),
                None => None,
            },
        ),
{
    let mut out = String::from_str("{\"id\":");
    out.append(id);
    out.append(",\"room_id\":");
    out.append(room_id);
    out.append(",\"user_id\":");
    out.append(user_id);
    out.append(",\"username\":");
    out.append(username);
    out.append(",\"message_text\":");
    out.append(message_text);
    out.append(",\"created_at\":");
    out.append(created_at);
    match client_message_id {
        Some(token) => {
            out.append(",\"client_message_id\":");
            out.append(token);
        },
        None => {},
    }
    out.append("}");
    out
}

/// Encodes the payload of `message`, whose instant reads `created_at`. The
/// encoder takes every text, so this always succeeds.
pub fn encode_payload(message: &ChatMessage, created_at: &str) -> (r: Result<String, RecordError>)
    ensures
        r matches Ok(p) && p@ == payload_json(message@, created_at@),
{
    let id = match json_string(message.id.as_str()) {
        Ok(t) => t,
        Err(_) => { return Err(RecordError::EncodingFailed); },
    };
    let room_id = match json_string(message.room_id.as_str()) {
        Ok(t) => t,
        Err(_) => { return Err(RecordError::EncodingFailed); },
    };
    let user_id = match json_string(message.user_id.as_str()) {
        Ok(t) => t,
        Err(_) => { return Err(RecordError::EncodingFailed); },
    };
    let username = match json_string(message.username.as_str()) {
        Ok(t) => t,
        Err(_) => { return Err(RecordError::EncodingFailed); },
    };
    let message_text = match json_string(message.message_text.as_str()) {
        Ok(t) => t,
        Err(_) => { return Err(RecordError::EncodingFailed); },
    };
    let created = match json_string(created_at) {
        Ok(t) => t,
        Err(_) => { return Err(RecordError::EncodingFailed); },
    };
    match &message.client_message_id {
        Some(token) => {
            let token_json = match json_string(token.as_str()) {
                Ok(t) => t,
                Err(_) => { return Err(RecordError::EncodingFailed); },
            };
            Ok(
                frame_payload(
                    id.as_str(),
                    room_id.as_str(),
                    user_id.as_str(),
                    username.as_str(),
                    message_text.as_str(),
                    created.as_str(),
                    Some(token_json.as_str()),
                ),
            )
        },
        None => Ok(
            frame_payload(
                id.as_str(),
                room_id.as_str(),
                user_id.as_str(),
                username.as_str(),
                message_text.as_str(),
                created.as_str(),
                None,
            ),
        ),
    }
}

} // verus!
