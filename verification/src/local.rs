//! The local delivery path of a developer's machine: the push endpoint that
//! stands in for the gateway, and the relay that serves one open socket.

use crate::delivery::{local_result, DeliveryResult, LocalOutcome};
use vstd::prelude::*;
use vstd::string::*;

verus! {

/// What became of a push to a locally held connection.
#[derive(Debug, PartialEq, Eq, Structural, Clone, Copy)]
pub enum PushAttempt {
    /// No connection is held under the id.
    NotFound,
    /// The connection is held, but its socket no longer takes anything.
    Gone,
    /// The payload was handed to the socket's relay.
    Sent,
}

/// The answer of the push endpoint.
#[derive(Debug)]
pub struct PushReply {
    pub status: u16,
    pub label: String,
}

/// The status that the push endpoint answers with.
pub open spec fn push_status(attempt: PushAttempt) -> u16 {
    match attempt {
        PushAttempt::NotFound => 404,
        PushAttempt::Gone => 410,
        PushAttempt::Sent => 200,
    }
}

/// The word that the push endpoint answers with.
pub open spec fn push_label(attempt: PushAttempt) -> Seq<char> {
    match attempt {
        PushAttempt::NotFound => "not_found"@,
        PushAttempt::Gone => "gone"@,
        PushAttempt::Sent => "ok"@,
    }
}

/// Something that happens to an open socket and its two sources of
/// payloads: the room's channel and the connection's own.
#[derive(Debug)]
pub enum SocketEvent {
    /// The room's channel delivered a payload.
    RoomPayload(String),
    /// The room's channel was closed.
    RoomClosed,
    /// The socket fell behind the room's channel and missed payloads.
    RoomLagged(u64),
    /// The connection's own channel delivered a payload.
    DirectPayload(String),
    /// The connection's own channel was closed.
    DirectClosed,
    /// The client sent a text frame.
    ClientText(String),
    /// The client closed the socket, or the socket ended.
    ClientClosed,
    /// The socket failed.
    ClientError,
    /// The client sent a frame of another kind.
    ClientOther,
    /// A payload could not be written to the socket.
    SendFailed,
}

/// What the relay does next.
#[derive(Debug)]
pub enum SocketAction {
    /// Write the payload to the socket.
    Send(String),
    /// Wait for the next event.
    Continue,
    /// Stop serving the socket and deregister the connection.
    Close,
}

/// A socket event as a mathematical value.
pub enum SocketEventView {
    RoomPayload(Seq<char>),
    RoomClosed,
    RoomLagged(u64),
    DirectPayload(Seq<char>),
    DirectClosed,
    ClientText(Seq<char>),
    ClientClosed,
    ClientError,
    ClientOther,
    SendFailed,
}

/// A socket action as a mathematical value.
pub enum SocketActionView {
    Send(Seq<char>),
    Continue,
    Close,
}

impl View for SocketEvent {
    type V = SocketEventView;

    open spec fn view(&self) -> SocketEventView {
        match self {
            SocketEvent::RoomPayload(p) => SocketEventView::RoomPayload(p@),
            SocketEvent::RoomClosed => SocketEventView::RoomClosed,
            SocketEvent::RoomLagged(n) => SocketEventView::RoomLagged(*n),
            SocketEvent::DirectPayload(p) => SocketEventView::DirectPayload(p@),
            SocketEvent::DirectClosed => SocketEventView::DirectClosed,
            SocketEvent::ClientText(t) => SocketEventView::ClientText(t@),
            SocketEvent::ClientClosed => SocketEventView::ClientClosed,
            SocketEvent::ClientError => SocketEventView::ClientError,
            SocketEvent::ClientOther => SocketEventView::ClientOther,
            SocketEvent::SendFailed => SocketEventView::SendFailed,
        }
    }
}

impl View for SocketAction {
    type V = SocketActionView;

    open spec fn view(&self) -> SocketActionView {
        match self {
            SocketAction::Send(p) => SocketActionView::Send(p@),
            SocketAction::Continue => SocketActionView::Continue,
            SocketAction::Close => SocketActionView::Close,
        }
    }
}

/// What the relay does after `event`: a payload from either channel is
/// written to the socket; what the client sends is ignored; falling behind
/// is put up with; and the socket is given up when a channel closes, the
/// client leaves, the socket fails or a payload cannot be written.
pub open spec fn relay_of(event: SocketEventView) -> SocketActionView {
    match event {
        SocketEventView::RoomPayload(p) => SocketActionView::Send(p),
        SocketEventView::DirectPayload(p) => SocketActionView::Send(p),
        SocketEventView::RoomLagged(_) => SocketActionView::Continue,
        SocketEventView::ClientText(_) => SocketActionView::Continue,
        SocketEventView::ClientOther => SocketActionView::Continue,
        SocketEventView::RoomClosed => SocketActionView::Close,
        SocketEventView::DirectClosed => SocketActionView::Close,
        SocketEventView::ClientClosed => SocketActionView::Close,
        SocketEventView::ClientError => SocketActionView::Close,
        SocketEventView::SendFailed => SocketActionView::Close,
    }
}

/// Answers a push to a locally held connection.
pub fn dev_conn_send_handler(attempt: PushAttempt) -> (r: PushReply)
    ensures
        r.status == push_status(attempt),
        r.label@ == push_label(attempt),
{
    match attempt {
        PushAttempt::NotFound => PushReply { status: 404, label: String::from_str("not_found") },
        PushAttempt::Gone => PushReply { status: 410, label: String::from_str("gone") },
        PushAttempt::Sent => PushReply { status: 200, label: String::from_str("ok") },
    }
}

/// Decides what the relay of an open socket does after `event`.
pub fn handle_websocket(event: SocketEvent) -> (r: SocketAction)
    ensures
        r@ == relay_of(event@),
{
    match event {
        SocketEvent::RoomPayload(p) => SocketAction::Send(p),
        SocketEvent::DirectPayload(p) => SocketAction::Send(p),
        SocketEvent::RoomLagged(_) => SocketAction::Continue,
        SocketEvent::ClientText(_) => SocketAction::Continue,
        SocketEvent::ClientOther => SocketAction::Continue,
        SocketEvent::RoomClosed => SocketAction::Close,
        SocketEvent::DirectClosed => SocketAction::Close,
        SocketEvent::ClientClosed => SocketAction::Close,
        SocketEvent::ClientError => SocketAction::Close,
        SocketEvent::SendFailed => SocketAction::Close,
    }
}

/// The push endpoint and the dispatcher agree: what the endpoint answers
/// for a connection that it does not hold, or whose socket is gone, the
/// dispatcher reads as stale, and its answer to a push that was handed on as
/// a delivery.
pub proof fn law_push_replies_are_understood(attempt: PushAttempt)
    ensures
        local_result(LocalOutcome::Status(push_status(attempt))) == match attempt {
            PushAttempt::Sent => DeliveryResult::Delivered,
            _ => DeliveryResult::Stale,
        },
{
}

} // verus!
