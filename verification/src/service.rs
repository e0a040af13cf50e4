//! The message service: what is stored when a message is posted, what a room
//! looks like when it is first used, and how the stored messages of a room
//! are read back.

use crate::decimal::{law_decimal_round_trip, parse_i64};
use crate::outside::{format_rfc3339, now_millis, random_id, rfc3339_utc};
use crate::payload::{timestamp_of, user_id_of};
use crate::store::{
    distinct_names, get_number, get_text, lacks_name, lemma_attribute_absent,
    lemma_attribute_at, lemma_push_keeps_names_distinct, number_attribute, put_number, put_text,
    text_attribute, text_of, Attribute, AttributeView,
};
use crate::types::{
    ChatMessage, ChatMessageView, GetMessagesResponse, HealthCheck, HealthStatus,
    SendMessageRequest, SendMessageRequestView,
};
use crate::validation::{
    message_text_verdict, room_id_verdict, username_verdict, validate_message_text,
    validate_room_id, validate_username,
};
use vstd::prelude::*;
use vstd::string::*;

verus! {

/// The version that the health probe reports.
pub const SERVICE_VERSION: &'static str = "0.1.0";

/// The most messages that one reading of a room returns.
pub const MAX_MESSAGES: usize = 25;

/// What the registry's conditional write of a room came to.
#[derive(Debug)]
pub enum RoomWrite {
    /// The room was created.
    Created,
    /// Another writer had created it in the meantime; nothing was changed.
    AlreadyExists,
    /// The store failed, with this detail.
    Failed(String),
}

/// The message that a valid request yields under the id `id` at the instant
/// `now`, or the reason why the request is refused. The room is checked
/// first, then the username, then the text.
pub open spec fn posted_message(request: SendMessageRequestView, id: Seq<char>, now: int) -> Result<
    ChatMessageView,
    Seq<char>,
> {
    match room_id_verdict(request.room_id) {
        Err(e) => Err(e),
        Ok(room_id) => match username_verdict(request.username) {
            Err(e) => Err(e),
            Ok(username) => match message_text_verdict(request.message_text) {
                Err(e) => Err(e),
                Ok(message_text) => Ok(
                    ChatMessageView {
                        id,
                        room_id,
                        user_id: request.user_id,
                        username,
                        message_text,
                        created_at: now,
                        client_message_id: request.client_message_id,
                    },
                ),
            },
        },
    }
}

/// The view of what posting yields.
pub open spec fn post_view(r: Result<ChatMessage, String>) -> Result<ChatMessageView, Seq<char>> {
    match r {
        Ok(m) => Ok(m@),
        Err(e) => Err(e@),
    }
}

/// The display name of a room: `General` for the room `general`, else the
/// room's id.
pub open spec fn room_name_of(room_id: Seq<char>) -> Seq<char> {
    if room_id == "general"@ {
        "General"@
    } else {
        room_id
    }
}

/// The attribute that holds an instant as RFC 3339 text, for an instant that
/// the calendar can represent.
pub open spec fn iso_attributes(millis: int) -> Seq<AttributeView> {
    match rfc3339_utc(millis) {
        Some(t) => seq![text_attribute("created_at_iso"@, t)],
        None => Seq::empty(),
    }
}

/// The attributes of the record of a room first used at `now`.
pub open spec fn room_attributes(room_id: Seq<char>, now: int) -> Seq<AttributeView> {
    seq![text_attribute("id"@, room_id), text_attribute("name"@, room_name_of(room_id))]
        + iso_attributes(now) + seq![number_attribute("created_at_epoch"@, now / 1000)]
}

/// The attributes of the record of a message.
pub open spec fn message_attributes(m: ChatMessageView) -> Seq<AttributeView> {
    let required = seq![
        text_attribute("id"@, m.id),
        text_attribute("room_id"@, m.room_id),
        text_attribute("user_id"@, m.user_id),
        text_attribute("username"@, m.username),
        text_attribute("message_text"@, m.message_text),
        number_attribute("ts"@, m.created_at),
    ] + iso_attributes(m.created_at);
    match m.client_message_id {
        Some(token) => required.push(text_attribute("client_message_id"@, token)),
        None => required,
    }
}

/// The message that a stored item holds, read as a message of `room_id`.
/// An item that lacks its id, username, text or instant holds none, nor does
/// one whose instant the calendar cannot represent.
pub open spec fn stored_message(item: Seq<AttributeView>, room_id: Seq<char>) -> Option<
    ChatMessageView,
> {
    if text_of(item, "id"@) is None || text_of(item, "username"@) is None || text_of(
        item,
        "message_text"@,
    ) is None || timestamp_of(item) is None || rfc3339_utc(timestamp_of(item)->0 as int) is None {
        None
    } else {
        Some(
            ChatMessageView {
                id: text_of(item, "id"@)->0,
                room_id,
                user_id: user_id_of(item),
                username: text_of(item, "username"@)->0,
                message_text: text_of(item, "message_text"@)->0,
                created_at: timestamp_of(item)->0 as int,
                client_message_id: text_of(item, "client_message_id"@),
            },
        )
    }
}

/// The messages that a run of stored items holds, in the order of the items.
pub open spec fn stored_messages(items: Seq<Seq<AttributeView>>, room_id: Seq<char>) -> Seq<
    ChatMessageView,
>
    decreases items.len(),
{
    if items.len() == 0 {
        Seq::empty()
    } else {
        let earlier = stored_messages(items.drop_last(), room_id);
        match stored_message(items.last(), room_id) {
            Some(m) => earlier.push(m),
            None => earlier,
        }
    }
}

/// `sorted` with `m` put behind the last message that is no younger than
/// `m`.
pub open spec fn inserted(sorted: Seq<ChatMessageView>, m: ChatMessageView) -> Seq<
    ChatMessageView,
>
    decreases sorted.len(),
{
    if sorted.len() == 0 || sorted.last().created_at <= m.created_at {
        sorted.push(m)
    } else {
        inserted(sorted.drop_last(), m).push(sorted.last())
    }
}

/// The messages in the order of their instants, oldest first; messages of
/// one instant keep the order in which they stood.
pub open spec fn oldest_first(messages: Seq<ChatMessageView>) -> Seq<ChatMessageView>
    decreases messages.len(),
{
    if messages.len() == 0 {
        Seq::empty()
    } else {
        inserted(oldest_first(messages.drop_last()), messages.last())
    }
}

/// What reading the room `room_id` yields from the items that the store
/// returned: the messages of the first 25 items, oldest first.
pub open spec fn room_reading(items: Seq<Seq<AttributeView>>, room_id: Seq<char>) -> Seq<
    ChatMessageView,
> {
    oldest_first(stored_messages(first_items(items, 25), room_id))
}

/// The first `limit` items of a run, or all of them where there are fewer.
pub open spec fn first_items(items: Seq<Seq<AttributeView>>, limit: int) -> Seq<
    Seq<AttributeView>,
> {
    if items.len() <= limit {
        items
    } else {
        items.take(limit)
    }
}

/// The text of a failure of the store.
pub open spec fn store_failure_of(detail: Seq<char>) -> Seq<char> {
    "DynamoDB error: "@ + detail
}

/// The text of a failed creation of a room.
pub open spec fn room_failure_of(detail: Seq<char>) -> Seq<char> {
    "Failed to create room: "@ + detail
}

/// Whether the messages stand in the order of their instants, oldest first.
pub open spec fn ascending(messages: Seq<ChatMessageView>) -> bool {
    forall|a: int, b: int|
        0 <= a <= b < messages.len() ==> messages[a].created_at <= messages[b].created_at
}

/// Whether the items stand in the order of their instants, oldest first, as
/// far as they have one.
pub open spec fn chronological(items: Seq<Seq<AttributeView>>) -> bool {
    forall|i: int, j: int|
        0 <= i <= j < items.len() && timestamp_of(#[trigger] items[i]) is Some && timestamp_of(
            #[trigger] items[j],
        ) is Some ==> timestamp_of(items[i])->0 <= timestamp_of(items[j])->0
}

pub proof fn lemma_stored_origin(items: Seq<Seq<AttributeView>>, room_id: Seq<char>, k: int) -> (i:
    int)
    requires
        0 <= k < stored_messages(items, room_id).len(),
    ensures
        0 <= i < items.len(),
        stored_message(items[i], room_id) == Some(stored_messages(items, room_id)[k]),
    decreases items.len(),
{
    let front = items.drop_last();
    let earlier = stored_messages(front, room_id);
    if k < earlier.len() {
        let i = lemma_stored_origin(front, room_id, k);
        assert(front[i] == items[i]);
        i
    } else {
        items.len() - 1
    }
}

pub proof fn lemma_stored_messages(items: Seq<Seq<AttributeView>>, room_id: Seq<char>)
    ensures
        stored_messages(items, room_id).len() <= items.len(),
        chronological(items) ==> ascending(stored_messages(items, room_id)),
        forall|k: int|
            0 <= k < stored_messages(items, room_id).len() ==> (#[trigger] stored_messages(
                items,
                room_id,
            )[k]).room_id == room_id,
    decreases items.len(),
{
    if items.len() > 0 {
        let front = items.drop_last();
        let earlier = stored_messages(front, room_id);
        let all = stored_messages(items, room_id);
        lemma_stored_messages(front, room_id);
        if chronological(items) {
            assert forall|i: int, j: int|
                0 <= i <= j < front.len() && timestamp_of(#[trigger] front[i]) is Some
                    && timestamp_of(#[trigger] front[j]) is Some implies timestamp_of(front[i])->0
                <= timestamp_of(front[j])->0 by {
                assert(front[i] == items[i]);
                assert(front[j] == items[j]);
            }
            assert forall|a: int, b: int| 0 <= a <= b < all.len() implies all[a].created_at
                <= all[b].created_at by {
                if b >= earlier.len() && a < b {
                    let i = lemma_stored_origin(front, room_id, a);
                    assert(front[i] == items[i]);
                    assert(timestamp_of(items[i]) is Some);
                    assert(timestamp_of(items[items.len() - 1]) is Some);
                }
            }
        }
    }
}

pub proof fn lemma_inserted(sorted: Seq<ChatMessageView>, m: ChatMessageView)
    ensures
        inserted(sorted, m).len() == sorted.len() + 1,
        ascending(sorted) ==> ascending(inserted(sorted, m)),
        ascending(sorted.push(m)) ==> inserted(sorted, m) == sorted.push(m),
        forall|x: ChatMessageView|
            inserted(sorted, m).contains(x) <==> sorted.contains(x) || x == m,
    decreases sorted.len(),
{
    let all = inserted(sorted, m);
    if sorted.len() == 0 || sorted.last().created_at <= m.created_at {
        assert(all == sorted.push(m));
        assert forall|x: ChatMessageView| all.contains(x) <==> sorted.contains(x) || x == m by {
            if all.contains(x) {
                let i = choose|i: int| 0 <= i < all.len() && all[i] == x;
                if i < sorted.len() {
                    assert(sorted[i] == x);
                }
            }
            if sorted.contains(x) {
                let i = choose|i: int| 0 <= i < sorted.len() && sorted[i] == x;
                assert(all[i] == x);
            }
            if x == m {
                assert(all[sorted.len() as int] == x);
            }
        }
        if ascending(sorted) {
            assert forall|a: int, b: int| 0 <= a <= b < all.len() implies all[a].created_at
                <= all[b].created_at by {
                if b == sorted.len() && a < b {
                    assert(sorted[a].created_at <= sorted.last().created_at);
                }
            }
        }
    } else {
        let front = sorted.drop_last();
        let inner = inserted(front, m);
        lemma_inserted(front, m);
        assert(all == inner.push(sorted.last()));
        if ascending(sorted.push(m)) {
            assert(sorted.push(m)[sorted.len() - 1] == sorted.last());
            assert(sorted.push(m)[sorted.len() as int] == m);
        }
        assert forall|x: ChatMessageView| all.contains(x) <==> sorted.contains(x) || x == m by {
            if all.contains(x) {
                let i = choose|i: int| 0 <= i < all.len() && all[i] == x;
                if i < inner.len() {
                    assert(inner[i] == x);
                    assert(inner.contains(x));
                    if front.contains(x) {
                        let k = choose|k: int| 0 <= k < front.len() && front[k] == x;
                        assert(sorted[k] == x);
                    }
                } else {
                    assert(sorted[sorted.len() - 1] == x);
                }
            }
            if sorted.contains(x) {
                let i = choose|i: int| 0 <= i < sorted.len() && sorted[i] == x;
                if i < front.len() {
                    assert(front[i] == x);
                    assert(front.contains(x));
                    assert(inner.contains(x));
                    let k = choose|k: int| 0 <= k < inner.len() && inner[k] == x;
                    assert(all[k] == x);
                } else {
                    assert(all[inner.len() as int] == x);
                }
            }
            if x == m {
                assert(inner.contains(m));
                let k = choose|k: int| 0 <= k < inner.len() && inner[k] == m;
                assert(all[k] == x);
            }
        }
        if ascending(sorted) {
            assert forall|a: int, b: int| 0 <= a <= b < front.len() implies front[a].created_at
                <= front[b].created_at by {
                assert(front[a] == sorted[a]);
                assert(front[b] == sorted[b]);
            }
            assert(ascending(inner));
            assert forall|a: int, b: int| 0 <= a <= b < all.len() implies all[a].created_at
                <= all[b].created_at by {
                if b == inner.len() && a < b {
                    assert(all[a] == inner[a]);
                    assert(inner.contains(inner[a]));
                    if front.contains(inner[a]) {
                        let k = choose|k: int| 0 <= k < front.len() && front[k] == inner[a];
                        assert(sorted[k].created_at <= sorted[sorted.len() - 1].created_at);
                    }
                } else if b < inner.len() {
                    assert(all[a] == inner[a]);
                    assert(all[b] == inner[b]);
                }
            }
        }
    }
}

pub proof fn lemma_oldest_first(messages: Seq<ChatMessageView>)
    ensures
        oldest_first(messages).len() == messages.len(),
        ascending(oldest_first(messages)),
        ascending(messages) ==> oldest_first(messages) == messages,
        forall|x: ChatMessageView| oldest_first(messages).contains(x) <==> messages.contains(x),
    decreases messages.len(),
{
    let all = oldest_first(messages);
    if messages.len() > 0 {
        let front = messages.drop_last();
        let last = messages.last();
        lemma_oldest_first(front);
        lemma_inserted(oldest_first(front), last);
        if ascending(messages) {
            assert forall|a: int, b: int| 0 <= a <= b < front.len() implies front[a].created_at
                <= front[b].created_at by {
                assert(front[a] == messages[a]);
                assert(front[b] == messages[b]);
            }
            assert(front.push(last) =~= messages);
        }
        assert forall|x: ChatMessageView| all.contains(x) <==> messages.contains(x) by {
            if front.contains(x) {
                let k = choose|k: int| 0 <= k < front.len() && front[k] == x;
                assert(messages[k] == x);
            }
            if messages.contains(x) {
                let k = choose|k: int| 0 <= k < messages.len() && messages[k] == x;
                if k < front.len() {
                    assert(front[k] == x);
                }
            }
            if x == last {
                assert(messages[messages.len() - 1] == x);
            }
        }
    } else {
        assert forall|x: ChatMessageView| all.contains(x) <==> messages.contains(x) by {}
    }
}

/// Reading a room yields at most 25 messages, however many items the store
/// returns, and always oldest first. Each message belongs to the room that
/// was read and is the message of one of the first 25 items; and where the
/// store returns its items oldest first, the reading keeps the store's
/// order.
pub proof fn law_reading_is_capped_and_ordered(items: Seq<Seq<AttributeView>>, room_id: Seq<char>)
    ensures
        room_reading(items, room_id).len() <= 25,
        room_reading(items, room_id).len() <= items.len(),
        ascending(room_reading(items, room_id)),
        chronological(items) ==> room_reading(items, room_id) == stored_messages(
            first_items(items, 25),
            room_id,
        ),
        forall|x: ChatMessageView|
            room_reading(items, room_id).contains(x) <==> stored_messages(
                first_items(items, 25),
                room_id,
            ).contains(x),
        forall|k: int|
            0 <= k < room_reading(items, room_id).len() ==> (#[trigger] room_reading(
                items,
                room_id,
            )[k]).room_id == room_id,
{
    let first = first_items(items, 25);
    let stored = stored_messages(first, room_id);
    let reading = room_reading(items, room_id);
    lemma_stored_messages(first, room_id);
    lemma_oldest_first(stored);
    if chronological(items) {
        assert forall|i: int, j: int|
            0 <= i <= j < first.len() && timestamp_of(#[trigger] first[i]) is Some && timestamp_of(
                #[trigger] first[j],
            ) is Some implies timestamp_of(first[i])->0 <= timestamp_of(first[j])->0 by {
            assert(first[i] == items[i]);
            assert(first[j] == items[j]);
        }
    }
    assert forall|k: int| 0 <= k < reading.len() implies (#[trigger] reading[k]).room_id
        == room_id by {
        assert(reading.contains(reading[k]));
        assert(stored.contains(reading[k]));
        let i = choose|i: int| 0 <= i < stored.len() && stored[i] == reading[k];
        assert(stored[i].room_id == room_id);
    }
}

pub proof fn lemma_inserted_at(sorted: Seq<ChatMessageView>, m: ChatMessageView, at: int)
    requires
        0 <= at <= sorted.len(),
        forall|k: int| at <= k < sorted.len() ==> (#[trigger] sorted[k]).created_at > m.created_at,
        at > 0 ==> sorted[at - 1].created_at <= m.created_at,
    ensures
        inserted(sorted, m) == sorted.insert(at, m),
    decreases sorted.len() - at,
{
    if at == sorted.len() {
        assert(sorted.insert(at, m) =~= sorted.push(m));
    } else {
        let front = sorted.drop_last();
        assert(sorted[sorted.len() - 1].created_at > m.created_at);
        assert forall|k: int| at <= k < front.len() implies (#[trigger] front[k]).created_at
            > m.created_at by {
            assert(front[k] == sorted[k]);
        }
        if at > 0 {
            assert(front[at - 1] == sorted[at - 1]);
        }
        lemma_inserted_at(front, m, at);
        assert(front.insert(at, m).push(sorted.last()) =~= sorted.insert(at, m));
    }
}

/// A room without items has no messages: reading it yields the empty
/// sequence.
pub proof fn law_empty_room_reads_empty(room_id: Seq<char>)
    ensures
        room_reading(Seq::empty(), room_id) == Seq::<ChatMessageView>::empty(),
{
}

/// A request is accepted exactly when its room id, username and text are
/// each valid; the message then carries the id and the instant that it was
/// given, the sender's id and the client's token unchanged, and the three
/// validated texts.
pub proof fn law_post_accepts_valid_requests(
    request: SendMessageRequestView,
    id: Seq<char>,
    now: int,
)
    ensures
        posted_message(request, id, now) is Ok <==> room_id_verdict(request.room_id) is Ok
            && username_verdict(request.username) is Ok && message_text_verdict(
            request.message_text,
        ) is Ok,
        posted_message(request, id, now) matches Ok(m) ==> {
            &&& m.id == id
            &&& m.created_at == now
            &&& m.user_id == request.user_id
            &&& m.client_message_id == request.client_message_id
            &&& Ok::<Seq<char>, Seq<char>>(m.room_id) == room_id_verdict(request.room_id)
            &&& Ok::<Seq<char>, Seq<char>>(m.username) == username_verdict(request.username)
            &&& Ok::<Seq<char>, Seq<char>>(m.message_text) == message_text_verdict(
                request.message_text,
            )
        },
{
}

/// The record of a message names no attribute twice.
pub proof fn law_message_record_names_each_attribute_once(m: ChatMessageView)
    ensures
        distinct_names(message_attributes(m)),
{
    reveal_strlit("id");
    reveal_strlit("room_id");
    reveal_strlit("user_id");
    reveal_strlit("username");
    reveal_strlit("message_text");
    reveal_strlit("ts");
    reveal_strlit("created_at_iso");
    reveal_strlit("client_message_id");
    assert("id"@.len() == 2 && "ts"@.len() == 2 && "id"@[0] != "ts"@[0]);
    assert("room_id"@.len() == 7 && "user_id"@.len() == 7 && "room_id"@[0] != "user_id"@[0]);
    assert("username"@.len() == 8);
    assert("message_text"@.len() == 12);
    assert("created_at_iso"@.len() == 14);
    assert("client_message_id"@.len() == 17);
    let required = seq![
        text_attribute("id"@, m.id),
        text_attribute("room_id"@, m.room_id),
        text_attribute("user_id"@, m.user_id),
        text_attribute("username"@, m.username),
        text_attribute("message_text"@, m.message_text),
        number_attribute("ts"@, m.created_at),
    ];
    assert(distinct_names(required));
    let dated = required + iso_attributes(m.created_at);
    match rfc3339_utc(m.created_at) {
        Some(t) => {
            assert(dated =~= required.push(text_attribute("created_at_iso"@, t)));
            lemma_push_keeps_names_distinct(required, text_attribute("created_at_iso"@, t));
        },
        None => {
            assert(dated =~= required);
        },
    }
    assert(lacks_name(dated, "client_message_id"@));
    match m.client_message_id {
        Some(token) => {
            lemma_push_keeps_names_distinct(dated, text_attribute("client_message_id"@, token));
        },
        None => {},
    }
}

/// The record of a room names no attribute twice.
pub proof fn law_room_record_names_each_attribute_once(room_id: Seq<char>, now: int)
    ensures
        distinct_names(room_attributes(room_id, now)),
{
    reveal_strlit("id");
    reveal_strlit("name");
    reveal_strlit("created_at_iso");
    reveal_strlit("created_at_epoch");
    assert("id"@.len() == 2);
    assert("name"@.len() == 4);
    assert("created_at_iso"@.len() == 14);
    assert("created_at_epoch"@.len() == 16);
    let named = seq![
        text_attribute("id"@, room_id),
        text_attribute("name"@, room_name_of(room_id)),
    ];
    assert(distinct_names(named));
    let dated = named + iso_attributes(now);
    match rfc3339_utc(now) {
        Some(t) => {
            assert(dated =~= named.push(text_attribute("created_at_iso"@, t)));
            lemma_push_keeps_names_distinct(named, text_attribute("created_at_iso"@, t));
        },
        None => {
            assert(dated =~= named);
        },
    }
    assert(lacks_name(dated, "created_at_epoch"@));
    assert(room_attributes(room_id, now) =~= dated.push(
        number_attribute("created_at_epoch"@, now / 1000),
    ));
    lemma_push_keeps_names_distinct(dated, number_attribute("created_at_epoch"@, now / 1000));
}

/// A message that is stored and read back in its room is the same message:
/// id, sender, username, text, instant and client token are as they were
/// stored. This holds of every message whose instant the calendar can
/// represent.
pub proof fn law_stored_message_round_trip(m: ChatMessageView)
    requires
        i64::MIN <= m.created_at <= i64::MAX,
    ensures
        rfc3339_utc(m.created_at) is Some ==> stored_message(message_attributes(m), m.room_id)
            == Some(m),
{
    if rfc3339_utc(m.created_at) is Some {
        reveal_strlit("id");
        reveal_strlit("room_id");
        reveal_strlit("user_id");
        reveal_strlit("username");
        reveal_strlit("message_text");
        reveal_strlit("ts");
        reveal_strlit("created_at_iso");
        reveal_strlit("client_message_id");
        let item = message_attributes(m);
        let iso = rfc3339_utc(m.created_at)->0;
        let required = seq![
            text_attribute("id"@, m.id),
            text_attribute("room_id"@, m.room_id),
            text_attribute("user_id"@, m.user_id),
            text_attribute("username"@, m.username),
            text_attribute("message_text"@, m.message_text),
            number_attribute("ts"@, m.created_at),
            text_attribute("created_at_iso"@, iso),
        ];
        assert("id"@.len() == 2 && "ts"@.len() == 2 && "id"@[0] != "ts"@[0]);
        assert("room_id"@.len() == 7 && "user_id"@.len() == 7 && "room_id"@[0] != "user_id"@[0]);
        assert("username"@.len() == 8);
        assert("message_text"@.len() == 12);
        assert("created_at_iso"@.len() == 14);
        assert("client_message_id"@.len() == 17);
        match m.client_message_id {
            Some(token) => {
                assert(item =~= required.push(text_attribute("client_message_id"@, token)));
                lemma_attribute_at(item, "client_message_id"@, 7);
            },
            None => {
                assert(item =~= required);
                lemma_attribute_absent(item, "client_message_id"@);
            },
        }
        lemma_attribute_at(item, "id"@, 0);
        lemma_attribute_at(item, "user_id"@, 2);
        lemma_attribute_at(item, "username"@, 3);
        lemma_attribute_at(item, "message_text"@, 4);
        lemma_attribute_at(item, "ts"@, 5);
        law_decimal_round_trip(m.created_at as i64);
    }
}

/// A message that is written to a room of fewer than 25 items is among the
/// messages that reading the room then yields, with its id, sender,
/// username, text, instant and client token as they were written. This
/// holds of every message whose instant the calendar can represent.
pub proof fn law_written_message_is_read_back(items: Seq<Seq<AttributeView>>, m: ChatMessageView)
    requires
        i64::MIN <= m.created_at <= i64::MAX,
        items.len() < 25,
    ensures
        rfc3339_utc(m.created_at) is Some ==> room_reading(
            items.push(message_attributes(m)),
            m.room_id,
        ).contains(m),
{
    if rfc3339_utc(m.created_at) is Some {
        let all = items.push(message_attributes(m));
        law_stored_message_round_trip(m);
        assert(first_items(all, 25) == all);
        assert(all.drop_last() =~= items);
        let stored = stored_messages(all, m.room_id);
        assert(stored == stored_messages(items, m.room_id).push(m));
        assert(stored[stored.len() - 1] == m);
        assert(stored.contains(m));
        lemma_oldest_first(stored);
    }
}

/// The answer to a health probe taken at the instant `now`: healthy, with
/// the service's version and that instant.
pub fn health_at(now: i64) -> (h: HealthCheck)
    ensures
        h.status == HealthStatus::Healthy,
        h.version@ == SERVICE_VERSION@,
        h.timestamp == now,
{
    HealthCheck {
        status: HealthStatus::Healthy,
        version: String::from_str(SERVICE_VERSION),
        timestamp: now,
    }
}

/// The answer to a health probe taken now: healthy, with the service's
/// version and the instant that the clock shows. It never fails.
pub fn health_handler() -> (r: Result<HealthCheck, String>)
    ensures
        r matches Ok(h) && h.status == HealthStatus::Healthy && h.version@ == SERVICE_VERSION@
            && rfc3339_utc(h.timestamp as int) is Some,
{
    Ok(health_at(now_millis()))
}

/// The text of a failure of the store, from the store's own detail.
pub fn store_failure(detail: &str) -> (r: String)
    ensures
        r@ == store_failure_of(detail@),
{
    String::from_str("DynamoDB error: ").concat(detail)
}

/// The message that `request` yields under the id `id` at the instant `now`:
/// the room id trimmed and in lower case, username and text trimmed, the
/// rest as the client sent it.
pub fn new_message(request: SendMessageRequest, id: String, now: i64) -> (r: Result<
    ChatMessage,
    String,
>)
    ensures
        post_view(r) == posted_message(request@, id@, now as int),
{
    let room_id = match validate_room_id(request.room_id.as_str()) {
        Ok(v) => v,
        Err(e) => { return Err(e); },
    };
    let username = match validate_username(request.username.as_str()) {
        Ok(v) => v,
        Err(e) => { return Err(e); },
    };
    let message_text = match validate_message_text(request.message_text.as_str()) {
        Ok(v) => v,
        Err(e) => { return Err(e); },
    };
    Ok(
        ChatMessage {
            id,
            room_id,
            user_id: request.user_id,
            username,
            message_text,
            created_at: now,
            client_message_id: request.client_message_id,
        },
    )
}

/// Validates a request and makes its message, under a fresh random id and
/// at the instant that the clock shows. The calendar can represent that
/// instant, so the message's record reads back as the message.
pub fn post_message_handler(request: SendMessageRequest) -> (r: Result<ChatMessage, String>)
    ensures
        match r {
            Ok(m) => posted_message(request@, m.id@, m.created_at as int) == Ok::<
                ChatMessageView,
                Seq<char>,
            >(m@) && rfc3339_utc(m.created_at as int) is Some && stored_message(
                message_attributes(m@),
                m.room_id@,
            ) == Some(m@),
            Err(e) => forall|id: Seq<char>, now: int|
                #[trigger] posted_message(request@, id, now) == Err::<ChatMessageView, Seq<char>>(
                    e@,
                ),
        },
{
    let ghost asked = request@;
    let r = new_message(request, random_id(), now_millis());
    proof {
        if r is Ok {
            law_stored_message_round_trip(r->Ok_0@);
        }
        if r is Err {
            let e = r->Err_0;
            assert forall|id: Seq<char>, now: int|
                #[trigger] posted_message(asked, id, now) == Err::<ChatMessageView, Seq<char>>(
                    e@,
                ) by {}
        }
    }
    r
}

fn put_iso(item: &mut Vec<Attribute>, millis: i64)
    ensures
        final(item).deep_view() == old(item).deep_view() + iso_attributes(millis as int),
{
    match format_rfc3339(millis) {
        Some(t) => {
            put_text(item, "created_at_iso", t);
        },
        None => {},
    }
    assert(item.deep_view() =~= old(item).deep_view() + iso_attributes(millis as int));
}

/// The whole seconds of the instant `millis`, rounded down.
pub fn epoch_seconds(millis: i64) -> (r: i64)
    ensures
        r == millis as int / 1000,
{
    if millis >= 0 {
        millis / 1000
    } else {
        (millis + 1) / 1000 - 1
    }
}

/// The registry record of the room `room_id`, first used at `now`.
pub fn room_item(room_id: &str, now: i64) -> (r: Vec<Attribute>)
    ensures
        r.deep_view() == room_attributes(room_id@, now as int),
        distinct_names(r.deep_view()),
{
    proof {
        law_room_record_names_each_attribute_once(room_id@, now as int);
    }
    let name = if String::from_str(room_id) == String::from_str("general") {
        String::from_str("General")
    } else {
        String::from_str(room_id)
    };
    let mut item: Vec<Attribute> = Vec::new();
    assert(item.deep_view() =~= Seq::<AttributeView>::empty());
    put_text(&mut item, "id", String::from_str(room_id));
    put_text(&mut item, "name", name);
    put_iso(&mut item, now);
    put_number(&mut item, "created_at_epoch", epoch_seconds(now));
    assert(item.deep_view() =~= room_attributes(room_id@, now as int));
    item
}

/// Decides what it takes to make sure that the room `room_id` exists, given
/// what looking it up came to: whether a record was found, or the store's
/// failure. A room that is there needs nothing; one that is not needs the
/// returned record, written on the condition that there still is none.
pub fn ensure_room_exists(lookup: Result<bool, String>, room_id: &str, now: i64) -> (r: Result<
    Option<Vec<Attribute>>,
    String,
>)
    ensures
        match lookup {
            Err(detail) => r matches Err(e) && e@ == store_failure_of(detail@),
            Ok(true) => r matches Ok(None),
            Ok(false) => r matches Ok(Some(item)) && item.deep_view() == room_attributes(
                room_id@,
                now as int,
            ),
        },
{
    match lookup {
        Err(detail) => Err(store_failure(detail.as_str())),
        Ok(true) => Ok(None),
        Ok(false) => Ok(Some(room_item(room_id, now))),
    }
}

/// Reads what the conditional write of a room came to. Losing the race
/// against another creator is no failure: the room exists either way.
pub fn room_written(outcome: RoomWrite) -> (r: Result<(), String>)
    ensures
        match outcome {
            RoomWrite::Created => r is Ok,
            RoomWrite::AlreadyExists => r is Ok,
            RoomWrite::Failed(detail) => r matches Err(e) && e@ == room_failure_of(detail@),
        },
{
    match outcome {
        RoomWrite::Created => Ok(()),
        RoomWrite::AlreadyExists => Ok(()),
        RoomWrite::Failed(detail) => Err(
            String::from_str("Failed to create room: ").concat(detail.as_str()),
        ),
    }
}

/// The store record of a message, attribute by attribute.
pub fn message_item(message: &ChatMessage) -> (r: Vec<Attribute>)
    ensures
        r.deep_view() == message_attributes(message@),
        distinct_names(r.deep_view()),
{
    proof {
        law_message_record_names_each_attribute_once(message@);
    }
    let mut item: Vec<Attribute> = Vec::new();
    assert(item.deep_view() =~= Seq::<AttributeView>::empty());
    put_text(&mut item, "id", message.id.clone());
    put_text(&mut item, "room_id", message.room_id.clone());
    put_text(&mut item, "user_id", message.user_id.clone());
    put_text(&mut item, "username", message.username.clone());
    put_text(&mut item, "message_text", message.message_text.clone());
    put_number(&mut item, "ts", message.created_at);
    put_iso(&mut item, message.created_at);
    match &message.client_message_id {
        Some(token) => {
            put_text(&mut item, "client_message_id", token.clone());
        },
        None => {},
    }
    assert(item.deep_view() =~= message_attributes(message@));
    item
}

/// Reads a stored item as a message of `room_id`.
pub fn read_message(item: &Vec<Attribute>, room_id: &str) -> (r: Option<ChatMessage>)
    ensures
        match r {
            Some(m) => stored_message(item.deep_view(), room_id@) == Some(m@),
            None => stored_message(item.deep_view(), room_id@) is None,
        },
{
    let id = match get_text(item, "id") {
        Some(v) => v,
        None => { return None; },
    };
    let username = match get_text(item, "username") {
        Some(v) => v,
        None => { return None; },
    };
    let message_text = match get_text(item, "message_text") {
        Some(v) => v,
        None => { return None; },
    };
    let created_at = match get_number(item, "ts") {
        Some(n) => match parse_i64(n.as_str()) {
            Some(ts) => ts,
            None => { return None; },
        },
        None => { return None; },
    };
    if format_rfc3339(created_at).is_none() {
        return None;
    }
    let user_id = match get_text(item, "user_id") {
        Some(v) => v,
        None => String::from_str("unknown"),
    };
    Some(
        ChatMessage {
            id,
            room_id: String::from_str(room_id),
            user_id,
            username,
            message_text,
            created_at,
            client_message_id: get_text(item, "client_message_id"),
        },
    )
}

/// Puts `m` into messages that stand oldest first, behind the last that is
/// no younger.
pub fn insert_message(messages: &mut Vec<ChatMessage>, m: ChatMessage)
    ensures
        final(messages).deep_view() == inserted(old(messages).deep_view(), m@),
{
    let mut at: usize = messages.len();
    while at > 0 && messages[at - 1].created_at > m.created_at
        invariant
            at <= messages.len(),
            forall|k: int|
                at <= k < messages.len() ==> (#[trigger] messages.deep_view()[k]).created_at
                    > m@.created_at,
        decreases at,
    {
        at = at - 1;
    }
    proof {
        lemma_inserted_at(messages.deep_view(), m@, at as int);
    }
    let ghost before = messages.deep_view();
    messages.insert(at, m);
    assert(messages.deep_view() =~= before.insert(at as int, m@));
}

/// What reading the room `room_id` yields, given what the store returned for
/// it: the messages of the first 25 items, oldest first. The store is asked
/// for them in that order, and the order is kept; should the store return
/// them otherwise, they are put in order. An empty room yields no messages,
/// which is no error. A room id that is not valid is refused, and a failure
/// of the store is passed on.
pub fn get_messages_handler(room_id: String, fetched: Result<Vec<Vec<Attribute>>, String>) -> (r:
    Result<GetMessagesResponse, String>)
    ensures
        match room_id_verdict(room_id@) {
            Err(e) => r matches Err(f) && f@ == e,
            Ok(room) => match fetched {
                Err(detail) => r matches Err(f) && f@ == store_failure_of(detail@),
                Ok(items) => r matches Ok(response) && response.room_id@ == room
                    && response.messages.deep_view() == room_reading(items.deep_view(), room)
                    && response.messages.len() <= 25 && ascending(
                    response.messages.deep_view(),
                ),
            },
        },
{
    let room = match validate_room_id(room_id.as_str()) {
        Ok(v) => v,
        Err(e) => { return Err(e); },
    };
    let items = match fetched {
        Ok(items) => items,
        Err(detail) => { return Err(store_failure(detail.as_str())); },
    };
    let limit = if items.len() <= MAX_MESSAGES {
        items.len()
    } else {
        MAX_MESSAGES
    };
    let ghost wanted = first_items(items.deep_view(), 25);
    let mut messages: Vec<ChatMessage> = Vec::new();
    let mut i: usize = 0;
    assert(wanted.take(0) =~= Seq::<Seq<AttributeView>>::empty());
    while i < limit
        invariant
            i <= limit,
            limit == wanted.len(),
            limit <= items.len(),
            forall|k: int| 0 <= k < limit ==> wanted[k] == (#[trigger] items[k]).deep_view(),
            messages.deep_view() == oldest_first(stored_messages(wanted.take(i as int), room@)),
        decreases limit - i,
    {
        let found = read_message(&items[i], room.as_str());
        proof {
            let upto = wanted.take(i + 1);
            assert(upto.drop_last() =~= wanted.take(i as int));
            assert(upto.last() == items[i as int].deep_view());
        }
        match found {
            Some(m) => {
                proof {
                    let stored = stored_messages(wanted.take(i + 1), room@);
                    assert(stored.drop_last() =~= stored_messages(wanted.take(i as int), room@));
                    assert(stored.last() == m@);
                }
                insert_message(&mut messages, m);
            },
            None => {},
        }
        i = i + 1;
    }
    assert(wanted.take(limit as int) =~= wanted);
    proof {
        law_reading_is_capped_and_ordered(items.deep_view(), room@);
    }
    Ok(GetMessagesResponse { room_id: room, messages })
}

} // verus!
