//! The connection lifecycle: the registry record that is written when a
//! socket opens, and what is answered and measured when it opens or closes.

use crate::metrics::{
    connection_event_metrics, database_error_metric, Metric, MetricView, MetricsHelper,
    MetricsHelperView,
};
use crate::outside::{now_millis, random_id};
use crate::store::{
    distinct_names, get_text, lacks_name, lemma_push_keeps_names_distinct, number_attribute,
    put_number, put_text, text_attribute, text_of, Attribute, AttributeView,
};
use crate::text::{opt_text, trim_trailing_slashes, without_trailing_slashes};
use vstd::prelude::*;
use vstd::string::*;

verus! {

/// How long a connection record lives without being renewed, in seconds.
pub const CONNECTION_TTL_SECONDS: i64 = 86400;

/// The class of delivery mechanism of a connection.
#[derive(Debug, PartialEq, Eq, Structural, Clone, Copy)]
pub enum Transport {
    /// The managed gateway.
    Gateway,
    /// The local loopback.
    Local,
}

/// One live subscriber and how to reach it.
#[derive(Debug)]
pub struct Connection {
    pub connection_id: String,
    pub room_id: String,
    pub user_id: String,
    pub username: String,
    pub transport: Transport,
    /// The delivery address: the gateway's connection id, or the address of
    /// the local callback.
    pub push_target: String,
    /// When the socket opened, in milliseconds since the Unix epoch.
    pub connected_at: i64,
    /// When the record lapses, in seconds since the Unix epoch.
    pub expires_at: i64,
    pub domain: String,
    pub stage: String,
}

/// What a client asks for when it opens a socket. Each part may be missing.
#[derive(Debug)]
pub struct ConnectRequest {
    pub room_id: Option<String>,
    pub user_id: Option<String>,
    pub username: Option<String>,
}

/// Where the service runs, with what that place knows of a new socket.
#[derive(Debug)]
pub enum RuntimeMode {
    /// Behind the managed gateway, which names the connection.
    Production { connection_id: String, domain_name: Option<String>, stage: Option<String> },
    /// On a developer's machine, reachable under a base address.
    Development { public_base_url: Option<String> },
}

/// The answer to a lifecycle event of the gateway.
#[derive(Debug, PartialEq, Eq, Structural, Clone, Copy)]
pub struct LambdaResponse {
    pub status_code: i32,
}

/// What follows a lifecycle event: the answer, and the measurements to
/// write.
#[derive(Debug)]
pub struct LifecycleReply {
    pub response: LambdaResponse,
    pub metrics: Vec<Metric>,
}

/// A connection as a mathematical value.
pub struct ConnectionView {
    pub connection_id: Seq<char>,
    pub room_id: Seq<char>,
    pub user_id: Seq<char>,
    pub username: Seq<char>,
    pub transport: Transport,
    pub push_target: Seq<char>,
    pub connected_at: int,
    pub expires_at: int,
    pub domain: Seq<char>,
    pub stage: Seq<char>,
}

/// A connect request as a mathematical value.
pub struct ConnectRequestView {
    pub room_id: Option<Seq<char>>,
    pub user_id: Option<Seq<char>>,
    pub username: Option<Seq<char>>,
}

impl View for Connection {
    type V = ConnectionView;

    open spec fn view(&self) -> ConnectionView {
        ConnectionView {
            connection_id: self.connection_id@,
            room_id: self.room_id@,
            user_id: self.user_id@,
            username: self.username@,
            transport: self.transport,
            push_target: self.push_target@,
            connected_at: self.connected_at as int,
            expires_at: self.expires_at as int,
            domain: self.domain@,
            stage: self.stage@,
        }
    }
}

impl View for ConnectRequest {
    type V = ConnectRequestView;

    open spec fn view(&self) -> ConnectRequestView {
        ConnectRequestView {
            room_id: opt_text(self.room_id),
            user_id: opt_text(self.user_id),
            username: opt_text(self.username),
        }
    }
}

/// The text that is there, or `default`.
pub open spec fn text_or(o: Option<Seq<char>>, default: Seq<char>) -> Seq<char> {
    match o {
        Some(s) => s,
        None => default,
    }
}

/// The whole seconds of an instant given in milliseconds, rounded towards
/// the epoch.
pub open spec fn whole_seconds(millis: int) -> int {
    if millis >= 0 {
        millis / 1000
    } else {
        -((-millis) / 1000)
    }
}

/// When a connection that opened at `millis` lapses: 24 hours later, in
/// seconds.
pub open spec fn expiry_of(millis: int) -> int {
    whole_seconds(millis) + 86400
}

/// The address under which the local path reaches a connection.
pub open spec fn push_url_of(base: Option<Seq<char>>, connection_id: Seq<char>) -> Seq<char> {
    without_trailing_slashes(text_or(base, "http://localhost:3001"@)) + "/dev/conn/"@
        + connection_id + "/send"@
}

/// The record of a socket that opened at `now` behind the gateway.
pub open spec fn gateway_connection_of(
    connection_id: Seq<char>,
    domain_name: Option<Seq<char>>,
    stage: Option<Seq<char>>,
    request: ConnectRequestView,
    now: int,
) -> ConnectionView {
    ConnectionView {
        connection_id,
        room_id: text_or(request.room_id, "general"@),
        user_id: text_or(request.user_id, "anon"@),
        username: text_or(request.username, "anon"@),
        transport: Transport::Gateway,
        push_target: connection_id,
        connected_at: now,
        expires_at: expiry_of(now),
        domain: text_or(domain_name, "unknown"@),
        stage: text_or(stage, "unknown"@),
    }
}

/// The record of a socket that opened at `now` on a developer's machine.
pub open spec fn local_connection_of(
    connection_id: Seq<char>,
    public_base_url: Option<Seq<char>>,
    request: ConnectRequestView,
    now: int,
) -> ConnectionView {
    ConnectionView {
        connection_id,
        room_id: text_or(request.room_id, "general"@),
        user_id: text_or(request.user_id, "dev-user"@),
        username: text_or(request.username, "Developer"@),
        transport: Transport::Local,
        push_target: push_url_of(public_base_url, connection_id),
        connected_at: now,
        expires_at: expiry_of(now),
        domain: "local"@,
        stage: "local"@,
    }
}

impl Transport {
    /// The transport's name in the registry.
    pub open spec fn label(self) -> Seq<char> {
        match self {
            Transport::Gateway => "apigw"@,
            Transport::Local => "dev"@,
        }
    }

    /// The transport's name in the registry.
    pub fn name(&self) -> (r: &'static str)
        ensures
            r@ == self.label(),
    {
        match self {
            Transport::Gateway => "apigw",
            Transport::Local => "dev",
        }
    }
}

/// The attributes of a connection's registry record.
pub open spec fn connection_attributes(c: ConnectionView) -> Seq<AttributeView> {
    let common = seq![
        text_attribute("connection_id"@, c.connection_id),
        text_attribute("room_id"@, c.room_id),
        text_attribute("user_id"@, c.user_id),
        text_attribute("username"@, c.username),
        number_attribute("connected_at"@, c.connected_at),
        text_attribute("domain"@, c.domain),
        text_attribute("stage"@, c.stage),
        text_attribute("transport"@, c.transport.label()),
    ];
    let addressed = if c.transport == Transport::Local {
        common.push(text_attribute("push_url"@, c.push_target))
    } else {
        common
    };
    addressed.push(number_attribute("ttl"@, c.expires_at))
}

fn or_default(o: Option<String>, default: &str) -> (r: String)
    ensures
        r@ == text_or(opt_text(o), default@),
{
    match o {
        Some(s) => s,
        None => String::from_str(default),
    }
}

/// When a connection that opened at `now` lapses.
pub fn expiry(now: i64) -> (r: i64)
    ensures
        r == expiry_of(now as int),
{
    now / 1000 + CONNECTION_TTL_SECONDS
}

/// The address under which the local path reaches `connection_id`, below
/// the public base address or, without one, below the local default.
pub fn push_url(public_base_url: &Option<String>, connection_id: &str) -> (r: String)
    ensures
        r@ == push_url_of(opt_text(*public_base_url), connection_id@),
{
    let base = match public_base_url {
        Some(b) => trim_trailing_slashes(b.as_str()),
        None => trim_trailing_slashes("http://localhost:3001"),
    };
    let mut out = String::from_str(base);
    out.append("/dev/conn/");
    out.append(connection_id);
    out.append("/send");
    out
}

/// The record of a socket that opened at `now` behind the gateway. A
/// missing room is `general`, a missing identity `anon`.
pub fn gateway_connection(
    connection_id: String,
    domain_name: Option<String>,
    stage: Option<String>,
    request: ConnectRequest,
    now: i64,
) -> (r: Connection)
    ensures
        r@ == gateway_connection_of(
            connection_id@,
            opt_text(domain_name),
            opt_text(stage),
            request@,
            now as int,
        ),
{
    Connection {
        push_target: connection_id.clone(),
        connection_id,
        room_id: or_default(request.room_id, "general"),
        user_id: or_default(request.user_id, "anon"),
        username: or_default(request.username, "anon"),
        transport: Transport::Gateway,
        connected_at: now,
        expires_at: expiry(now),
        domain: or_default(domain_name, "unknown"),
        stage: or_default(stage, "unknown"),
    }
}

/// The record of a socket that opened at `now` on a developer's machine. A
/// missing room is `general`, a missing user id `dev-user`, a missing name
/// `Developer`.
pub fn local_connection(
    connection_id: String,
    public_base_url: Option<String>,
    request: ConnectRequest,
    now: i64,
) -> (r: Connection)
    ensures
        r@ == local_connection_of(connection_id@, opt_text(public_base_url), request@, now as int),
{
    Connection {
        push_target: push_url(&public_base_url, connection_id.as_str()),
        connection_id,
        room_id: or_default(request.room_id, "general"),
        user_id: or_default(request.user_id, "dev-user"),
        username: or_default(request.username, "Developer"),
        transport: Transport::Local,
        connected_at: now,
        expires_at: expiry(now),
        domain: String::from_str("local"),
        stage: String::from_str("local"),
    }
}

/// The record of a socket that opens now. Behind the gateway it carries the
/// gateway's connection id; on a developer's machine it gets a fresh random
/// one. The instant is the clock's.
pub fn on_connect(mode: RuntimeMode, request: ConnectRequest) -> (r: Connection)
    ensures
        match mode {
            RuntimeMode::Production { connection_id, domain_name, stage } => r@
                == gateway_connection_of(
                connection_id@,
                opt_text(domain_name),
                opt_text(stage),
                request@,
                r.connected_at as int,
            ),
            RuntimeMode::Development { public_base_url } => r@ == local_connection_of(
                r.connection_id@,
                opt_text(public_base_url),
                request@,
                r.connected_at as int,
            ),
        },
{
    match mode {
        RuntimeMode::Production {
            connection_id,
            domain_name,
            stage,
        } => gateway_connection(connection_id, domain_name, stage, request, now_millis()),
        RuntimeMode::Development { public_base_url } => local_connection(
            random_id(),
            public_base_url,
            request,
            now_millis(),
        ),
    }
}

/// The registry record of a connection, attribute by attribute.
pub fn connection_item(connection: &Connection) -> (r: Vec<Attribute>)
    ensures
        r.deep_view() == connection_attributes(connection@),
        distinct_names(r.deep_view()),
{
    proof {
        law_connection_record_names_each_attribute_once(connection@);
    }
    let mut item: Vec<Attribute> = Vec::new();
    assert(item.deep_view() =~= Seq::<AttributeView>::empty());
    put_text(&mut item, "connection_id", connection.connection_id.clone());
    put_text(&mut item, "room_id", connection.room_id.clone());
    put_text(&mut item, "user_id", connection.user_id.clone());
    put_text(&mut item, "username", connection.username.clone());
    put_number(&mut item, "connected_at", connection.connected_at);
    put_text(&mut item, "domain", connection.domain.clone());
    put_text(&mut item, "stage", connection.stage.clone());
    put_text(&mut item, "transport", String::from_str(connection.transport.name()));
    match connection.transport {
        Transport::Local => {
            put_text(&mut item, "push_url", connection.push_target.clone());
        },
        Transport::Gateway => {},
    }
    put_number(&mut item, "ttl", connection.expires_at);
    assert(item.deep_view() =~= connection_attributes(connection@));
    item
}

/// What follows the opening of a socket in `room_id`. The socket is accepted
/// whether or not the registry took the record: a record that was stored is
/// measured as a connect event, one that was not as a connection error.
pub open spec fn connect_reply_of(helper: MetricsHelperView, room_id: Seq<char>, stored: bool) -> (
    LambdaResponse,
    Seq<MetricView>,
) {
    (
        LambdaResponse { status_code: 200 },
        if stored {
            connection_event_metrics(helper, "connect"@, room_id, None)
        } else {
            seq![database_error_metric(helper, "ConnectionErrors"@, room_id)]
        },
    )
}

/// The room to which the closing of a connection is attributed: the room of
/// its registry record, or `unknown` where no record was found.
pub open spec fn room_of_record(record: Option<Seq<AttributeView>>) -> Seq<char> {
    match record {
        Some(item) => text_or(text_of(item, "room_id"@), "unknown"@),
        None => "unknown"@,
    }
}

/// What follows the closing of a socket of `room_id`. The answer is a
/// success whether or not the record could be deleted: a deletion is
/// measured as a disconnect event, a failure as a disconnection error.
pub open spec fn disconnect_reply_of(
    helper: MetricsHelperView,
    room_id: Seq<char>,
    deleted: bool,
) -> (LambdaResponse, Seq<MetricView>) {
    (
        LambdaResponse { status_code: 200 },
        if deleted {
            connection_event_metrics(helper, "disconnect"@, room_id, None)
        } else {
            seq![database_error_metric(helper, "DisconnectionErrors"@, room_id)]
        },
    )
}

/// Answers the opening of a socket in `room_id`, given whether the registry
/// took the record.
pub fn connect_reply(helper: &MetricsHelper, room_id: &str, stored: bool) -> (r: LifecycleReply)
    ensures
        (r.response, r.metrics.deep_view()) == connect_reply_of(helper@, room_id@, stored),
{
    let metrics = if stored {
        helper.emit_connection_event("connect", room_id, None)
    } else {
        let mut out: Vec<Metric> = Vec::new();
        out.push(helper.emit_database_error("ConnectionErrors", room_id));
        assert(out.deep_view() =~= seq![
            database_error_metric(helper@, "ConnectionErrors"@, room_id@),
        ]);
        out
    };
    LifecycleReply { response: LambdaResponse { status_code: 200 }, metrics }
}

/// The room to which the closing of a connection is attributed, given the
/// registry record that was found for it, if any.
pub fn room_of_connection(record: &Option<Vec<Attribute>>) -> (r: String)
    ensures
        r@ == room_of_record(
            match *record {
                Some(item) => Some(item.deep_view()),
                None => None,
            },
        ),
{
    match record {
        Some(item) => match get_text(item, "room_id") {
            Some(room_id) => room_id,
            None => String::from_str("unknown"),
        },
        None => String::from_str("unknown"),
    }
}

/// Answers the closing of a socket of `room_id`, given whether its record
/// could be deleted.
pub fn disconnect_reply(helper: &MetricsHelper, room_id: &str, deleted: bool) -> (r:
    LifecycleReply)
    ensures
        (r.response, r.metrics.deep_view()) == disconnect_reply_of(helper@, room_id@, deleted),
{
    let metrics = if deleted {
        helper.emit_connection_event("disconnect", room_id, None)
    } else {
        let mut out: Vec<Metric> = Vec::new();
        out.push(helper.emit_database_error("DisconnectionErrors", room_id));
        assert(out.deep_view() =~= seq![
            database_error_metric(helper@, "DisconnectionErrors"@, room_id@),
        ]);
        out
    };
    LifecycleReply { response: LambdaResponse { status_code: 200 }, metrics }
}

/// Answers the closing of a socket, given the registry record that was
/// found for the connection, if any, and whether the record could be
/// deleted. The closing is attributed to the record's room, or to `unknown`
/// where nothing is known of the connection, and is always answered with
/// success.
pub fn on_disconnect(
    helper: &MetricsHelper,
    record: &Option<Vec<Attribute>>,
    deleted: bool,
) -> (r: LifecycleReply)
    ensures
        (r.response, r.metrics.deep_view()) == disconnect_reply_of(
            helper@,
            room_of_record(
                match *record {
                    Some(item) => Some(item.deep_view()),
                    None => None,
                },
            ),
            deleted,
        ),
        r.response.status_code == 200,
{
    let room_id = room_of_connection(record);
    disconnect_reply(helper, room_id.as_str(), deleted)
}

/// The registry record of a connection names no attribute twice.
pub proof fn law_connection_record_names_each_attribute_once(c: ConnectionView)
    ensures
        distinct_names(connection_attributes(c)),
{
    reveal_strlit("connection_id");
    reveal_strlit("room_id");
    reveal_strlit("user_id");
    reveal_strlit("username");
    reveal_strlit("connected_at");
    reveal_strlit("domain");
    reveal_strlit("stage");
    reveal_strlit("transport");
    reveal_strlit("push_url");
    reveal_strlit("ttl");
    assert("connection_id"@.len() == 13);
    assert("room_id"@.len() == 7 && "user_id"@.len() == 7 && "room_id"@[0] != "user_id"@[0]);
    assert("username"@.len() == 8 && "push_url"@.len() == 8 && "username"@[0] != "push_url"@[0]);
    assert("connected_at"@.len() == 12);
    assert("domain"@.len() == 6);
    assert("stage"@.len() == 5);
    assert("transport"@.len() == 9);
    assert("ttl"@.len() == 3);
    let common = seq![
        text_attribute("connection_id"@, c.connection_id),
        text_attribute("room_id"@, c.room_id),
        text_attribute("user_id"@, c.user_id),
        text_attribute("username"@, c.username),
        number_attribute("connected_at"@, c.connected_at),
        text_attribute("domain"@, c.domain),
        text_attribute("stage"@, c.stage),
        text_attribute("transport"@, c.transport.label()),
    ];
    assert(distinct_names(common));
    assert(lacks_name(common, "push_url"@));
    let addressed = if c.transport == Transport::Local {
        common.push(text_attribute("push_url"@, c.push_target))
    } else {
        common
    };
    if c.transport == Transport::Local {
        lemma_push_keeps_names_distinct(common, text_attribute("push_url"@, c.push_target));
    }
    assert(lacks_name(addressed, "ttl"@));
    lemma_push_keeps_names_distinct(addressed, number_attribute("ttl"@, c.expires_at));
}

/// Closing a connection always answers with success, whatever the registry
/// did; and a connection of which the registry knows nothing is attributed
/// to the room `unknown`.
pub proof fn law_disconnect_always_succeeds(
    helper: MetricsHelperView,
    room_id: Seq<char>,
    deleted: bool,
)
    ensures
        disconnect_reply_of(helper, room_id, deleted).0.status_code == 200,
        room_of_record(None) == "unknown"@,
        deleted ==> disconnect_reply_of(helper, room_of_record(None), deleted).1
            == connection_event_metrics(helper, "disconnect"@, "unknown"@, None),
{
}

/// Opening a socket is never refused: the answer is a success whether or not
/// the registry took the record.
pub proof fn law_connect_always_succeeds(
    helper: MetricsHelperView,
    room_id: Seq<char>,
    stored: bool,
)
    ensures
        connect_reply_of(helper, room_id, stored).0.status_code == 200,
{
}

/// A connection record lapses 24 hours after the socket opened, to the
/// second.
pub proof fn law_expiry_is_a_day_later(now: int)
    ensures
        expiry_of(now) == whole_seconds(now) + 24 * 60 * 60,
        now >= 0 ==> expiry_of(now) * 1000 <= now + 86400000 < (expiry_of(now) + 1) * 1000,
{
}

} // verus!
