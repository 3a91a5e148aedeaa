//! Decisions taken on transport lifecycle events: note a successful
//! handshake, reconnect after a drop, stop on an unrecoverable error, or
//! ignore a transient state.

use vstd::prelude::*;

verus! {

/// The kinds of lifecycle event a socket monitor reports that the client
/// tells apart; every other kind is `Other`.
#[derive(Clone, Copy, Debug, PartialEq, Eq, Structural)]
pub enum EventKind {
    Connected,
    ConnectDelayed,
    ConnectRetried,
    Closed,
    Disconnected,
    MonitorStopped,
    HandshakeFailedNoDetail,
    HandshakeSucceeded,
    HandshakeFailedProtocol,
    HandshakeFailedAuth,
    Other,
}

/// A lifecycle event: its kind, and the text that names it in notices.
pub struct LifecycleEvent {
    pub kind: EventKind,
    pub label: String,
}

/// How an event kind is answered.
#[derive(Clone, Copy, Debug, PartialEq, Eq, Structural)]
pub enum Reaction {
    NoteSuccess,
    Fatal,
    Reconnect,
    Ignore,
    Unknown,
}

pub open spec fn reaction_of(kind: EventKind) -> Reaction {
    match kind {
        EventKind::HandshakeSucceeded => Reaction::NoteSuccess,
        EventKind::HandshakeFailedAuth
        | EventKind::HandshakeFailedProtocol
        | EventKind::HandshakeFailedNoDetail
        | EventKind::MonitorStopped => Reaction::Fatal,
        EventKind::Disconnected | EventKind::Closed => Reaction::Reconnect,
        EventKind::Connected | EventKind::ConnectDelayed | EventKind::ConnectRetried => Reaction::Ignore,
        EventKind::Other => Reaction::Unknown,
    }
}

/// How an event kind is answered.
pub fn classify(kind: EventKind) -> (r: Reaction)
    ensures
        r == reaction_of(kind),
{
    match kind {
        EventKind::HandshakeSucceeded => Reaction::NoteSuccess,
        EventKind::HandshakeFailedAuth
        | EventKind::HandshakeFailedProtocol
        | EventKind::HandshakeFailedNoDetail
        | EventKind::MonitorStopped => Reaction::Fatal,
        EventKind::Disconnected | EventKind::Closed => Reaction::Reconnect,
        EventKind::Connected | EventKind::ConnectDelayed | EventKind::ConnectRetried => Reaction::Ignore,
        EventKind::Other => Reaction::Unknown,
    }
}

pub open spec fn connecting_notice(endpoint: Seq<char>) -> Seq<char> {
    "ZMQ connecting to "@ + endpoint + "..."@
}

pub open spec fn connected_notice(endpoint: Seq<char>) -> Seq<char> {
    "ZMQ connected to "@ + endpoint + "."@
}

pub open spec fn socket_error_notice(label: Seq<char>) -> Seq<char> {
    "ZMQ socket error: "@ + label
}

pub open spec fn reconnecting_notice() -> Seq<char> {
    "Reconnecting ZMQ..."@
}

pub open spec fn reconnect_error_notice(error: Seq<char>) -> Seq<char> {
    "error reconnecting: "@ + error + "."@
}

/// The notice shown for an event, if any.
pub open spec fn notice_for(
    kind: EventKind,
    label: Seq<char>,
    first_time: bool,
    endpoint: Seq<char>,
) -> Option<Seq<char>> {
    match reaction_of(kind) {
        Reaction::NoteSuccess => Some(connected_notice(endpoint)),
        Reaction::Fatal | Reaction::Unknown => Some(socket_error_notice(label)),
        Reaction::Reconnect => if first_time {
            Some(reconnecting_notice())
        } else {
            None
        },
        Reaction::Ignore => None,
    }
}

/// The "first drop since the last success" flag after an event: armed by a
/// successful handshake, cleared by a drop, otherwise kept.
pub open spec fn first_time_after(kind: EventKind, first_time: bool) -> bool {
    match reaction_of(kind) {
        Reaction::NoteSuccess => true,
        Reaction::Reconnect => false,
        _ => first_time,
    }
}

pub open spec fn text_of(o: Option<String>) -> Option<Seq<char>> {
    match o {
        Some(s) => Some(s@),
        None => None,
    }
}

/// What the handler decided for one event.
pub struct HandlerOutcome {
    /// The line to show, if any.
    pub notice: Option<String>,
    /// The new "first drop since the last success" flag.
    pub first_time: bool,
    /// Whether to connect to the endpoint again.
    pub reconnect: bool,
    /// Whether the event is unrecoverable and the client must stop.
    pub stop: bool,
}

pub fn connecting_text(endpoint: &str) -> (r: String)
    ensures
        r@ == connecting_notice(endpoint@),
{
    String::from_str("ZMQ connecting to ").concat(endpoint).concat("...")
}

pub fn reconnect_error_text(error: &str) -> (r: String)
    ensures
        r@ == reconnect_error_notice(error@),
{
    String::from_str("error reconnecting: ").concat(error).concat(".")
}

/// Decides what to do about one lifecycle event, given whether no drop has
/// been seen since the last successful handshake.
pub fn handle_event(event: &LifecycleEvent, first_time: bool, endpoint: &str) -> (r:
    HandlerOutcome)
    ensures
        text_of(r.notice) == notice_for(event.kind, event.label@, first_time, endpoint@),
        r.first_time == first_time_after(event.kind, first_time),
        r.reconnect == (reaction_of(event.kind) == Reaction::Reconnect),
        r.stop == (reaction_of(event.kind) == Reaction::Fatal),
{
    match classify(event.kind) {
        Reaction::NoteSuccess => HandlerOutcome {
            notice: Some(String::from_str("ZMQ connected to ").concat(endpoint).concat(".")),
            first_time: true,
            reconnect: false,
            stop: false,
        },
        Reaction::Fatal => HandlerOutcome {
            notice: Some(String::from_str("ZMQ socket error: ").concat(event.label.as_str())),
            first_time,
            reconnect: false,
            stop: true,
        },
        Reaction::Reconnect => {
            let notice = if first_time {
                Some(String::from_str("Reconnecting ZMQ..."))
            } else {
                None
            };
            HandlerOutcome { notice, first_time: false, reconnect: true, stop: false }
        },
        Reaction::Ignore => HandlerOutcome {
            notice: None,
            first_time,
            reconnect: false,
            stop: false,
        },
        Reaction::Unknown => HandlerOutcome {
            notice: Some(String::from_str("ZMQ socket error: ").concat(event.label.as_str())),
            first_time,
            reconnect: false,
            stop: false,
        },
    }
}

} // verus!
