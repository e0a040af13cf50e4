//! One subscriber at a time: how a registered connection is reached, and what
//! the answer of its delivery sink means.

use crate::store::{get_text, text_of, Attribute, AttributeView};
use crate::text::{clone_opt, opt_text};
use vstd::prelude::*;
use vstd::string::*;

verus! {

/// How a message is delivered to one connection of the registry.
#[derive(Debug)]
#[allow(inconsistent_fields)]
pub enum Delivery {
    /// Through the managed gateway, to its connection id.
    Gateway { connection_id: String },
    /// Through the local path, to the connection's push address. The
    /// connection id is known where the record holds one.
    Local { push_url: String, connection_id: Option<String> },
    /// Not at all: the record names no transport that is known, or lacks the
    /// address that its transport needs.
    Skip,
}

/// What the gateway answered to a push.
#[derive(Debug, PartialEq, Eq, Structural, Clone, Copy)]
pub enum GatewayOutcome {
    Success,
    Gone,
    OtherError,
}

/// What the local path answered to a push: a status, or nothing at all.
#[derive(Debug, PartialEq, Eq, Structural, Clone, Copy)]
pub enum LocalOutcome {
    Status(u16),
    Unreachable,
}

/// What a delivery attempt came to. A stale connection no longer accepts
/// deliveries; a transient failure says nothing about the connection.
#[derive(Debug, PartialEq, Eq, Structural, Clone, Copy)]
pub enum DeliveryResult {
    Delivered,
    Stale,
    Transient,
}

/// A delivery as a mathematical value.
#[allow(inconsistent_fields)]
pub enum DeliveryView {
    Gateway { connection_id: Seq<char> },
    Local { push_url: Seq<char>, connection_id: Option<Seq<char>> },
    Skip,
}

impl View for Delivery {
    type V = DeliveryView;

    open spec fn view(&self) -> DeliveryView {
        match self {
            Delivery::Gateway { connection_id } => DeliveryView::Gateway {
                connection_id: connection_id@,
            },
            Delivery::Local { push_url, connection_id } => DeliveryView::Local {
                push_url: push_url@,
                connection_id: opt_text(*connection_id),
            },
            Delivery::Skip => DeliveryView::Skip,
        }
    }
}

impl Clone for Delivery {
    fn clone(&self) -> (r: Self)
        ensures
            r == *self,
    {
        match self {
            Delivery::Gateway { connection_id } => Delivery::Gateway {
                connection_id: connection_id.clone(),
            },
            Delivery::Local { push_url, connection_id } => Delivery::Local {
                push_url: push_url.clone(),
                connection_id: clone_opt(connection_id),
            },
            Delivery::Skip => Delivery::Skip,
        }
    }
}

/// The transport of a connection record: the one it names, or the gateway
/// where it names none.
pub open spec fn transport_of(connection: Seq<AttributeView>) -> Seq<char> {
    match text_of(connection, "transport"@) {
        Some(t) => t,
        None => "apigw"@,
    }
}

/// How the connection of a registry record is reached.
pub open spec fn planned_delivery(connection: Seq<AttributeView>) -> DeliveryView {
    let transport = transport_of(connection);
    if transport == "apigw"@ {
        match text_of(connection, "connection_id"@) {
            Some(id) => DeliveryView::Gateway { connection_id: id },
            None => DeliveryView::Skip,
        }
    } else if transport == "dev"@ {
        match text_of(connection, "push_url"@) {
            Some(url) => DeliveryView::Local {
                push_url: url,
                connection_id: text_of(connection, "connection_id"@),
            },
            None => DeliveryView::Skip,
        }
    } else {
        DeliveryView::Skip
    }
}

/// What a gateway answer means.
pub open spec fn gateway_result(outcome: GatewayOutcome) -> DeliveryResult {
    match outcome {
        GatewayOutcome::Success => DeliveryResult::Delivered,
        GatewayOutcome::Gone => DeliveryResult::Stale,
        GatewayOutcome::OtherError => DeliveryResult::Transient,
    }
}

/// What an answer of the local path means: a status from 200 to 299 is a
/// delivery, 404 and 410 say that the connection is gone, and anything else
/// is a failure that says nothing about the connection.
pub open spec fn local_result(outcome: LocalOutcome) -> DeliveryResult {
    match outcome {
        LocalOutcome::Status(status) => if 200 <= status <= 299 {
            DeliveryResult::Delivered
        } else if status == 404 || status == 410 {
            DeliveryResult::Stale
        } else {
            DeliveryResult::Transient
        },
        LocalOutcome::Unreachable => DeliveryResult::Transient,
    }
}

/// The registry record to delete after a delivery came to `result`: the
/// connection's own, where the connection is stale and its id is known.
pub open spec fn stale_connection(delivery: DeliveryView, result: DeliveryResult) -> Option<
    Seq<char>,
> {
    if result == DeliveryResult::Stale {
        match delivery {
            DeliveryView::Gateway { connection_id } => Some(connection_id),
            DeliveryView::Local { push_url, connection_id } => connection_id,
            DeliveryView::Skip => None,
        }
    } else {
        None
    }
}

/// Decides how the connection of a registry record is reached.
pub fn plan_delivery(connection: &Vec<Attribute>) -> (r: Delivery)
    ensures
        r@ == planned_delivery(connection.deep_view()),
{
    let transport = match get_text(connection, "transport") {
        Some(t) => t,
        None => String::from_str("apigw"),
    };
    if transport == String::from_str("apigw") {
        match get_text(connection, "connection_id") {
            Some(connection_id) => Delivery::Gateway { connection_id },
            None => Delivery::Skip,
        }
    } else if transport == String::from_str("dev") {
        match get_text(connection, "push_url") {
            Some(push_url) => Delivery::Local {
                push_url,
                connection_id: get_text(connection, "connection_id"),
            },
            None => Delivery::Skip,
        }
    } else {
        Delivery::Skip
    }
}

/// Reads a gateway answer.
pub fn classify_gateway(outcome: GatewayOutcome) -> (r: DeliveryResult)
    ensures
        r == gateway_result(outcome),
{
    match outcome {
        GatewayOutcome::Success => DeliveryResult::Delivered,
        GatewayOutcome::Gone => DeliveryResult::Stale,
        GatewayOutcome::OtherError => DeliveryResult::Transient,
    }
}

/// Reads an answer of the local path.
pub fn classify_local(outcome: LocalOutcome) -> (r: DeliveryResult)
    ensures
        r == local_result(outcome),
{
    match outcome {
        LocalOutcome::Status(status) => {
            if 200 <= status && status <= 299 {
                DeliveryResult::Delivered
            } else if status == 404 || status == 410 {
                DeliveryResult::Stale
            } else {
                DeliveryResult::Transient
            }
        },
        LocalOutcome::Unreachable => DeliveryResult::Transient,
    }
}

/// The id of the registry record to delete after `delivery` came to
/// `result`, if any.
pub fn connection_to_prune(delivery: &Delivery, result: DeliveryResult) -> (r: Option<String>)
    ensures
        opt_text(r) == stale_connection(delivery@, result),
{
    match result {
        DeliveryResult::Stale => match delivery {
            Delivery::Gateway { connection_id } => Some(connection_id.clone()),
            Delivery::Local { push_url, connection_id } => clone_opt(connection_id),
            Delivery::Skip => None,
        },
        _ => None,
    }
}

/// A registry record is deleted only after its connection proved stale:
/// neither a delivery nor a transient failure removes anything.
pub proof fn law_only_stale_connections_are_pruned(delivery: DeliveryView, result: DeliveryResult)
    ensures
        stale_connection(delivery, result) is Some ==> result == DeliveryResult::Stale,
        result != DeliveryResult::Stale ==> stale_connection(delivery, result) is None,
        delivery matches DeliveryView::Gateway { connection_id } ==> (stale_connection(
            delivery,
            result,
        ) == if result == DeliveryResult::Stale {
            Some(connection_id)
        } else {
            None
        }),
{
}

} // verus!
