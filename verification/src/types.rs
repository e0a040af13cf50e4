//! The values that travel between clients and the chat service. Instants are
//! milliseconds since the Unix epoch.

use crate::text::{clone_opt, opt_text};
use vstd::prelude::*;

verus! {

/// How the service judges its own state.
#[derive(Debug, PartialEq, Eq, Structural, Clone, Copy)]
pub enum HealthStatus {
    Healthy,
    Degraded,
    Unhealthy,
}

/// The answer to a health probe.
#[derive(Debug)]
pub struct HealthCheck {
    pub status: HealthStatus,
    pub version: String,
    pub timestamp: i64,
}

/// A chat channel: the unit by which messages and subscribers are grouped.
#[derive(Debug)]
pub struct Room {
    pub id: String,
    pub name: String,
    pub created_at: i64,
}

/// A message as the newer client API shows it.
#[derive(Debug)]
pub struct Message {
    pub id: String,
    pub user_id: String,
    pub username: String,
    pub text: String,
    pub timestamp: i64,
}

/// A persisted chat message.
#[derive(Debug)]
pub struct ChatMessage {
    pub id: String,
    pub room_id: String,
    pub user_id: String,
    pub username: String,
    pub message_text: String,
    pub created_at: i64,
    pub client_message_id: Option<String>,
}

/// What a client sends to post a message to a room.
#[derive(Debug)]
pub struct SendMessageRequest {
    pub room_id: String,
    pub user_id: String,
    pub username: String,
    pub message_text: String,
    pub client_message_id: Option<String>,
}

/// The messages of one room, oldest first.
#[derive(Debug)]
pub struct GetMessagesResponse {
    pub room_id: String,
    pub messages: Vec<ChatMessage>,
}

/// What a client of the newer API sends to post a message.
#[derive(Debug)]
pub struct SendMessageApiRequest {
    pub user_id: String,
    pub username: String,
    pub text: String,
}

/// The envelope of the newer API's answers.
#[derive(Debug)]
pub struct ApiResponse<T> {
    pub success: bool,
    pub data: Option<T>,
    pub message: Option<Message>,
    pub messages: Option<Vec<Message>>,
    pub error: Option<String>,
    pub code: Option<String>,
}

/// A chat message as a mathematical value.
pub struct ChatMessageView {
    pub id: Seq<char>,
    pub room_id: Seq<char>,
    pub user_id: Seq<char>,
    pub username: Seq<char>,
    pub message_text: Seq<char>,
    pub created_at: int,
    pub client_message_id: Option<Seq<char>>,
}

impl View for ChatMessage {
    type V = ChatMessageView;

    open spec fn view(&self) -> ChatMessageView {
        ChatMessageView {
            id: self.id@,
            room_id: self.room_id@,
            user_id: self.user_id@,
            username: self.username@,
            message_text: self.message_text@,
            created_at: self.created_at as int,
            client_message_id: opt_text(self.client_message_id),
        }
    }
}

impl DeepView for ChatMessage {
    type V = ChatMessageView;

    open spec fn deep_view(&self) -> ChatMessageView {
        self@
    }
}

impl Clone for ChatMessage {
    fn clone(&self) -> (r: Self)
        ensures
            r == *self,
    {
        ChatMessage {
            id: self.id.clone(),
            room_id: self.room_id.clone(),
            user_id: self.user_id.clone(),
            username: self.username.clone(),
            message_text: self.message_text.clone(),
            created_at: self.created_at,
            client_message_id: clone_opt(&self.client_message_id),
        }
    }
}

/// A posting request as a mathematical value.
pub struct SendMessageRequestView {
    pub room_id: Seq<char>,
    pub user_id: Seq<char>,
    pub username: Seq<char>,
    pub message_text: Seq<char>,
    pub client_message_id: Option<Seq<char>>,
}

impl View for SendMessageRequest {
    type V = SendMessageRequestView;

    open spec fn view(&self) -> SendMessageRequestView {
        SendMessageRequestView {
            room_id: self.room_id@,
            user_id: self.user_id@,
            username: self.username@,
            message_text: self.message_text@,
            client_message_id: opt_text(self.client_message_id),
        }
    }
}

impl Clone for SendMessageRequest {
    fn clone(&self) -> (r: Self)
        ensures
            r == *self,
    {
        SendMessageRequest {
            room_id: self.room_id.clone(),
            user_id: self.user_id.clone(),
            username: self.username.clone(),
            message_text: self.message_text.clone(),
            client_message_id: clone_opt(&self.client_message_id),
        }
    }
}

} // verus!
