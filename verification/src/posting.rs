//! Posting a message, step by step: the room is looked up, created where it
//! is missing, and only then is the message written. As with the dispatcher,
//! each step hands its caller one action and takes the action's answer as
//! the next event.

use crate::outside::rfc3339_utc;
use crate::service::{
    ensure_room_exists, message_attributes, message_item, new_message, post_message_handler,
    post_view, posted_message, room_attributes, room_failure_of, room_written, store_failure,
    store_failure_of, RoomWrite,
};
use crate::store::{Attribute, AttributeView};
use crate::types::{ChatMessage, ChatMessageView, SendMessageRequest, SendMessageRequestView};
use vstd::prelude::*;
use vstd::string::*;

verus! {

/// Where the posting of a message stands.
#[derive(Debug)]
pub enum PostPhase {
    /// The store was asked whether the room exists.
    CheckingRoom { message: ChatMessage },
    /// The room's record was handed over to be written.
    CreatingRoom { message: ChatMessage },
    /// The message's record was handed over to be written.
    StoringMessage { message: ChatMessage },
    /// Nothing is left to do.
    Finished,
}

/// The posting of one message.
#[derive(Debug)]
pub struct Posting {
    phase: PostPhase,
}

/// What the caller is to do next.
#[derive(Debug)]
pub enum PostAction {
    /// Look up the record of a room.
    GetRoom { room_id: String },
    /// Write the record of a room, on the condition that there is none.
    PutRoom { item: Vec<Attribute> },
    /// Write the record of the message.
    PutMessage { item: Vec<Attribute> },
    /// Stop: the message is stored, or the posting failed.
    Finish(Result<ChatMessage, String>),
}

/// The answer to an action.
#[derive(Debug)]
pub enum PostEvent {
    /// Whether the room's record was found, or the store's failure.
    RoomLookup(Result<bool, String>),
    /// What the conditional write of the room came to.
    RoomWritten(RoomWrite),
    /// Whether the message was written, or the store's failure.
    MessageWritten(Result<(), String>),
}

/// A phase as a mathematical value.
pub enum PostPhaseView {
    CheckingRoom { message: ChatMessageView },
    CreatingRoom { message: ChatMessageView },
    StoringMessage { message: ChatMessageView },
    Finished,
}

/// An action as a mathematical value.
pub enum PostActionView {
    GetRoom { room_id: Seq<char> },
    PutRoom { item: Seq<AttributeView> },
    PutMessage { item: Seq<AttributeView> },
    Finish(Result<ChatMessageView, Seq<char>>),
}

/// What a write of the room came to, as a mathematical value.
pub enum RoomWriteView {
    Created,
    AlreadyExists,
    Failed(Seq<char>),
}

/// An event as a mathematical value.
pub enum PostEventView {
    RoomLookup(Result<bool, Seq<char>>),
    RoomWritten(RoomWriteView),
    MessageWritten(Result<(), Seq<char>>),
}

impl View for PostPhase {
    type V = PostPhaseView;

    open spec fn view(&self) -> PostPhaseView {
        match self {
            PostPhase::CheckingRoom { message } => PostPhaseView::CheckingRoom {
                message: message@,
            },
            PostPhase::CreatingRoom { message } => PostPhaseView::CreatingRoom {
                message: message@,
            },
            PostPhase::StoringMessage { message } => PostPhaseView::StoringMessage {
                message: message@,
            },
            PostPhase::Finished => PostPhaseView::Finished,
        }
    }
}

impl View for Posting {
    type V = PostPhaseView;

    closed spec fn view(&self) -> PostPhaseView {
        self.phase@
    }
}

impl View for PostAction {
    type V = PostActionView;

    open spec fn view(&self) -> PostActionView {
        match self {
            PostAction::GetRoom { room_id } => PostActionView::GetRoom { room_id: room_id@ },
            PostAction::PutRoom { item } => PostActionView::PutRoom { item: item.deep_view() },
            PostAction::PutMessage { item } => PostActionView::PutMessage {
                item: item.deep_view(),
            },
            PostAction::Finish(r) => PostActionView::Finish(post_view(*r)),
        }
    }
}

impl View for RoomWrite {
    type V = RoomWriteView;

    open spec fn view(&self) -> RoomWriteView {
        match self {
            RoomWrite::Created => RoomWriteView::Created,
            RoomWrite::AlreadyExists => RoomWriteView::AlreadyExists,
            RoomWrite::Failed(detail) => RoomWriteView::Failed(detail@),
        }
    }
}

impl View for PostEvent {
    type V = PostEventView;

    open spec fn view(&self) -> PostEventView {
        match self {
            PostEvent::RoomLookup(Ok(found)) => PostEventView::RoomLookup(Ok(*found)),
            PostEvent::RoomLookup(Err(detail)) => PostEventView::RoomLookup(Err(detail@)),
            PostEvent::RoomWritten(outcome) => PostEventView::RoomWritten(outcome@),
            PostEvent::MessageWritten(Ok(_)) => PostEventView::MessageWritten(Ok(())),
            PostEvent::MessageWritten(Err(detail)) => PostEventView::MessageWritten(Err(detail@)),
        }
    }
}

/// The step that ends a posting.
pub open spec fn post_ending(result: Result<ChatMessageView, Seq<char>>) -> (
    PostPhaseView,
    PostActionView,
) {
    (PostPhaseView::Finished, PostActionView::Finish(result))
}

/// The step that hands the message over to be written.
pub open spec fn storing(message: ChatMessageView) -> (PostPhaseView, PostActionView) {
    (
        PostPhaseView::StoringMessage { message },
        PostActionView::PutMessage { item: message_attributes(message) },
    )
}

/// The first step of posting `request` under the id `id` at the instant
/// `now`: a request that is not valid is refused at once; for a valid one
/// the store is asked for the room.
pub open spec fn post_opening(request: SendMessageRequestView, id: Seq<char>, now: int) -> (
    PostPhaseView,
    PostActionView,
) {
    match posted_message(request, id, now) {
        Err(e) => post_ending(Err(e)),
        Ok(message) => (
            PostPhaseView::CheckingRoom { message },
            PostActionView::GetRoom { room_id: message.room_id },
        ),
    }
}

/// The step that follows `event` in `phase`. A room that is missing is
/// created first, as of the message's instant; the message is handed over
/// only when the room is there, whoever created it; and any failure of the
/// store ends the posting.
pub open spec fn post_step(phase: PostPhaseView, event: PostEventView) -> (
    PostPhaseView,
    PostActionView,
) {
    let unexpected = post_ending(Err("Unexpected event"@));
    match phase {
        PostPhaseView::CheckingRoom { message } => match event {
            PostEventView::RoomLookup(Ok(true)) => storing(message),
            PostEventView::RoomLookup(Ok(false)) => (
                PostPhaseView::CreatingRoom { message },
                PostActionView::PutRoom {
                    item: room_attributes(message.room_id, message.created_at),
                },
            ),
            PostEventView::RoomLookup(Err(detail)) => post_ending(Err(store_failure_of(detail))),
            _ => unexpected,
        },
        PostPhaseView::CreatingRoom { message } => match event {
            PostEventView::RoomWritten(RoomWriteView::Created) => storing(message),
            PostEventView::RoomWritten(RoomWriteView::AlreadyExists) => storing(message),
            PostEventView::RoomWritten(RoomWriteView::Failed(detail)) => post_ending(
                Err(room_failure_of(detail)),
            ),
            _ => unexpected,
        },
        PostPhaseView::StoringMessage { message } => match event {
            PostEventView::MessageWritten(Ok(_)) => post_ending(Ok(message)),
            PostEventView::MessageWritten(Err(detail)) => post_ending(
                Err(store_failure_of(detail)),
            ),
            _ => unexpected,
        },
        PostPhaseView::Finished => unexpected,
    }
}

/// The message that a posting is about, while it is under way.
pub open spec fn message_of(phase: PostPhaseView) -> Option<ChatMessageView> {
    match phase {
        PostPhaseView::CheckingRoom { message } => Some(message),
        PostPhaseView::CreatingRoom { message } => Some(message),
        PostPhaseView::StoringMessage { message } => Some(message),
        PostPhaseView::Finished => None,
    }
}

fn store_message(message: ChatMessage) -> (r: (Posting, PostAction))
    ensures
        (r.0@, r.1@) == storing(message@),
{
    let item = message_item(&message);
    (Posting { phase: PostPhase::StoringMessage { message } }, PostAction::PutMessage { item })
}

fn end_posting(result: Result<ChatMessage, String>) -> (r: (Posting, PostAction))
    ensures
        (r.0@, r.1@) == post_ending(post_view(result)),
{
    (Posting { phase: PostPhase::Finished }, PostAction::Finish(result))
}

impl Posting {
    /// Whether nothing is left to do.
    pub open spec fn is_finished(self) -> bool {
        self@ is Finished
    }

    /// Whether nothing is left to do.
    pub fn finished(&self) -> (r: bool)
        ensures
            r == self.is_finished(),
    {
        match &self.phase {
            PostPhase::Finished => true,
            _ => false,
        }
    }

    /// Starts posting `request` under the id `id` at the instant `now`.
    pub fn start_with(request: SendMessageRequest, id: String, now: i64) -> (r: (
        Posting,
        PostAction,
    ))
        ensures
            (r.0@, r.1@) == post_opening(request@, id@, now as int),
    {
        match new_message(request, id, now) {
            Err(e) => end_posting(Err(e)),
            Ok(message) => {
                let room_id = message.room_id.clone();
                (
                    Posting { phase: PostPhase::CheckingRoom { message } },
                    PostAction::GetRoom { room_id },
                )
            },
        }
    }

    /// Starts posting `request`, under a fresh random id and at the instant
    /// that the clock shows, which the calendar can represent.
    pub fn start(request: SendMessageRequest) -> (r: (Posting, PostAction))
        ensures
            match message_of(r.0@) {
                Some(m) => (r.0@, r.1@) == post_opening(request@, m.id, m.created_at)
                    && rfc3339_utc(m.created_at) is Some,
                None => forall|id: Seq<char>, now: int|
                    (r.0@, r.1@) == #[trigger] post_opening(request@, id, now),
            },
    {
        match post_message_handler(request) {
            Err(e) => end_posting(Err(e)),
            Ok(message) => {
                let room_id = message.room_id.clone();
                (
                    Posting { phase: PostPhase::CheckingRoom { message } },
                    PostAction::GetRoom { room_id },
                )
            },
        }
    }

    /// Takes the answer to the last action and gives the next step.
    pub fn on_event(self, event: PostEvent) -> (r: (Posting, PostAction))
        ensures
            (r.0@, r.1@) == post_step(self@, event@),
    {
        match self.phase {
            PostPhase::CheckingRoom { message } => match event {
                PostEvent::RoomLookup(lookup) => {
                    match ensure_room_exists(lookup, message.room_id.as_str(), message.created_at) {
                        Err(e) => end_posting(Err(e)),
                        Ok(None) => store_message(message),
                        Ok(Some(item)) => (
                            Posting { phase: PostPhase::CreatingRoom { message } },
                            PostAction::PutRoom { item },
                        ),
                    }
                },
                _ => end_posting(Err(String::from_str("Unexpected event"))),
            },
            PostPhase::CreatingRoom { message } => match event {
                PostEvent::RoomWritten(outcome) => match room_written(outcome) {
                    Ok(_) => store_message(message),
                    Err(e) => end_posting(Err(e)),
                },
                _ => end_posting(Err(String::from_str("Unexpected event"))),
            },
            PostPhase::StoringMessage { message } => match event {
                PostEvent::MessageWritten(Ok(_)) => end_posting(Ok(message)),
                PostEvent::MessageWritten(Err(detail)) => end_posting(
                    Err(store_failure(detail.as_str())),
                ),
                _ => end_posting(Err(String::from_str("Unexpected event"))),
            },
            PostPhase::Finished => end_posting(Err(String::from_str("Unexpected event"))),
        }
    }
}

/// The room is there before the message is: a message is handed over to be
/// written only in answer to the news that its room exists, be it found,
/// just created, or created by another writer in the meantime. And a room
/// is created only in answer to the news that it is missing, so that one
/// posting never writes a room twice.
pub proof fn law_room_precedes_message(phase: PostPhaseView, event: PostEventView)
    ensures
        post_step(phase, event).1 is PutMessage ==> {
            ||| phase is CheckingRoom && event == PostEventView::RoomLookup(Ok(true))
            ||| phase is CreatingRoom && event == PostEventView::RoomWritten(
                RoomWriteView::Created,
            )
            ||| phase is CreatingRoom && event == PostEventView::RoomWritten(
                RoomWriteView::AlreadyExists,
            )
        },
        post_step(phase, event).1 is PutRoom ==> phase is CheckingRoom && event
            == PostEventView::RoomLookup(Ok(false)),
        post_step(phase, event).1 is PutRoom ==> post_step(phase, event).0 is CreatingRoom,
        phase is CreatingRoom ==> !(post_step(phase, event).1 is PutRoom),
{
}

/// A posting succeeds only with the message that it set out with, and only
/// in answer to the news that this message was written; what it returns is
/// what was handed over to the store.
pub proof fn law_posted_message_is_the_stored_one(
    phase: PostPhaseView,
    event: PostEventView,
    message: ChatMessageView,
)
    requires
        post_step(phase, event).1 == PostActionView::Finish(
            Ok::<ChatMessageView, Seq<char>>(message),
        ),
    ensures
        phase == (PostPhaseView::StoringMessage { message }),
        event matches PostEventView::MessageWritten(Ok(_)),
{
}

} // verus!
