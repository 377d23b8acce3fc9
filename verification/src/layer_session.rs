//! One short-lived connection to a keyboard daemon, as a state machine: the
//! surrounding program performs each step on the socket and reports how it went.
//!
//! The daemon announces its state as soon as a connection opens and takes no command
//! before that greeting has been read. After a query it keeps the connection open
//! until it is sent a line that is no command.

use vstd::prelude::*;
use crate::client::text_of;
use crate::kanata_tcp::{
    DISCONNECT_MESSAGE, change_layer_message, change_layer_text, get_current_layer,
    layer_in_response,
};

verus! {

/// What a session is opened for.
#[derive(Clone, Copy, Debug, PartialEq, Eq, Structural)]
pub enum Purpose {
    /// Deliver a layer change.
    ChangeLayer,
    /// Ask for the current layer.
    QueryLayer,
}

/// How far a session has come.
#[derive(Clone, Copy, Debug, PartialEq, Eq, Structural)]
pub enum Phase {
    /// The connection is being opened.
    Connecting,
    /// The connection is open and the greeting has not been read.
    AwaitingGreeting,
    /// The greeting is dealt with and a line is being written.
    Sending,
    /// Nothing more happens.
    Closed,
}

/// What the surrounding program reports.
#[derive(Debug)]
pub enum SessionEvent {
    Connected,
    ConnectFailed,
    /// The bytes that one read returned.
    Received(Vec<u8>),
    ReceiveFailed,
    Sent,
    SendFailed,
}

/// The mathematical model of a [`SessionEvent`].
pub enum SessionEventView {
    Connected,
    ConnectFailed,
    Received(Seq<u8>),
    ReceiveFailed,
    Sent,
    SendFailed,
}

impl View for SessionEvent {
    type V = SessionEventView;

    open spec fn view(&self) -> SessionEventView {
        match self {
            SessionEvent::Connected => SessionEventView::Connected,
            SessionEvent::ConnectFailed => SessionEventView::ConnectFailed,
            SessionEvent::Received(bytes) => SessionEventView::Received(bytes@),
            SessionEvent::ReceiveFailed => SessionEventView::ReceiveFailed,
            SessionEvent::Sent => SessionEventView::Sent,
            SessionEvent::SendFailed => SessionEventView::SendFailed,
        }
    }
}

/// What the surrounding program is to do next.
#[derive(Debug)]
pub enum SessionAction {
    /// Read once from the connection.
    Receive,
    /// Write this line to the connection.
    Send(String),
    /// Drop the connection, if there is one; the session is over.
    Close,
}

/// The mathematical model of a [`SessionAction`].
pub enum SessionActionView {
    Receive,
    Send(Seq<char>),
    Close,
}

impl View for SessionAction {
    type V = SessionActionView;

    open spec fn view(&self) -> SessionActionView {
        match self {
            SessionAction::Receive => SessionActionView::Receive,
            SessionAction::Send(line) => SessionActionView::Send(line@),
            SessionAction::Close => SessionActionView::Close,
        }
    }
}

/// A session with one daemon. It starts in [`Phase::Connecting`], when the surrounding
/// program opens the connection.
#[derive(Debug)]
pub struct Session {
    pub purpose: Purpose,
    pub phase: Phase,
    /// The command to deliver; empty for a query.
    pub command: String,
    /// The layer that a query has found.
    pub layer: Option<String>,
}

/// The mathematical model of a [`Session`].
pub struct SessionView {
    pub purpose: Purpose,
    pub phase: Phase,
    pub command: Seq<char>,
    pub layer: Option<Seq<char>>,
}

impl View for Session {
    type V = SessionView;

    open spec fn view(&self) -> SessionView {
        SessionView {
            purpose: self.purpose,
            phase: self.phase,
            command: self.command@,
            layer: text_of(self.layer),
        }
    }
}

/// How many events a session in this phase can still take before it is closed.
pub open spec fn steps_left(phase: Phase) -> nat {
    match phase {
        Phase::Connecting => 3,
        Phase::AwaitingGreeting => 2,
        Phase::Sending => 1,
        Phase::Closed => 0,
    }
}

/// The session after an event.
///
/// A connection that opened waits for the greeting. Once a read has returned, a layer
/// change writes its command, whether or not the read succeeded; a query that read
/// something keeps the layer found in it and writes the line that makes the daemon
/// hang up, while a query whose read failed ends at once. The outcome of a write ends
/// the session. Any event that the phase does not expect ends it too.
pub open spec fn session_after(pre: SessionView, event: SessionEventView) -> SessionView {
    match (pre.phase, event) {
        (Phase::Connecting, SessionEventView::Connected) => SessionView {
            phase: Phase::AwaitingGreeting,
            ..pre
        },
        (Phase::AwaitingGreeting, SessionEventView::Received(bytes)) => match pre.purpose {
            Purpose::ChangeLayer => SessionView { phase: Phase::Sending, ..pre },
            Purpose::QueryLayer => SessionView {
                phase: Phase::Sending,
                layer: layer_in_response(bytes),
                ..pre
            },
        },
        (Phase::AwaitingGreeting, SessionEventView::ReceiveFailed) => match pre.purpose {
            Purpose::ChangeLayer => SessionView { phase: Phase::Sending, ..pre },
            Purpose::QueryLayer => SessionView { phase: Phase::Closed, ..pre },
        },
        _ => SessionView { phase: Phase::Closed, ..pre },
    }
}

/// What is to be done after an event: read after the connection opened, write after
/// the greeting was dealt with, and close in every other case.
pub open spec fn action_after(pre: SessionView, event: SessionEventView) -> SessionActionView {
    let post = session_after(pre, event);
    match post.phase {
        Phase::AwaitingGreeting => SessionActionView::Receive,
        Phase::Sending => match pre.purpose {
            Purpose::ChangeLayer => SessionActionView::Send(pre.command),
            Purpose::QueryLayer => SessionActionView::Send(DISCONNECT_MESSAGE@),
        },
        _ => SessionActionView::Close,
    }
}

impl Session {
    /// A session that delivers the change to `layer`.
    pub fn change_layer(layer: &str) -> (session: Session)
        ensures
            session@ == (SessionView {
                purpose: Purpose::ChangeLayer,
                phase: Phase::Connecting,
                command: change_layer_text(layer@),
                layer: None,
            }),
    {
        Session {
            purpose: Purpose::ChangeLayer,
            phase: Phase::Connecting,
            command: change_layer_message(layer),
            layer: None,
        }
    }

    /// A session that delivers a command line that is ready to be written.
    pub fn deliver(command: String) -> (session: Session)
        ensures
            session@ == (SessionView {
                purpose: Purpose::ChangeLayer,
                phase: Phase::Connecting,
                command: command@,
                layer: None,
            }),
    {
        Session { purpose: Purpose::ChangeLayer, phase: Phase::Connecting, command, layer: None }
    }

    /// A session that asks for the current layer.
    pub fn query_layer() -> (session: Session)
        ensures
            session@ == (SessionView {
                purpose: Purpose::QueryLayer,
                phase: Phase::Connecting,
                command: Seq::empty(),
                layer: None,
            }),
    {
        Session {
            purpose: Purpose::QueryLayer,
            phase: Phase::Connecting,
            command: String::new(),
            layer: None,
        }
    }

    /// Whether the session is over.
    pub fn is_closed(&self) -> (closed: bool)
        ensures
            closed == (self.phase == Phase::Closed),
    {
        self.phase == Phase::Closed
    }

    /// Takes one event and says what to do next.
    pub fn step(&mut self, event: SessionEvent) -> (action: SessionAction)
        ensures
            final(self)@ == session_after(old(self)@, event@),
            action@ == action_after(old(self)@, event@),
    {
        match (self.phase, event) {
            (Phase::Connecting, SessionEvent::Connected) => {
                self.phase = Phase::AwaitingGreeting;
                SessionAction::Receive
            },
            (Phase::AwaitingGreeting, SessionEvent::Received(bytes)) => {
                self.phase = Phase::Sending;
                match self.purpose {
                    Purpose::ChangeLayer => SessionAction::Send(self.command.clone()),
                    Purpose::QueryLayer => {
                        self.layer = get_current_layer(bytes.as_slice());
                        SessionAction::Send(String::from_str(DISCONNECT_MESSAGE))
                    },
                }
            },
            (Phase::AwaitingGreeting, SessionEvent::ReceiveFailed) => {
                match self.purpose {
                    Purpose::ChangeLayer => {
                        self.phase = Phase::Sending;
                        SessionAction::Send(self.command.clone())
                    },
                    Purpose::QueryLayer => {
                        self.phase = Phase::Closed;
                        SessionAction::Close
                    },
                }
            },
            _ => {
                self.phase = Phase::Closed;
                SessionAction::Close
            },
        }
    }
}

/// Every event brings a session that is not closed nearer to its end, so no session
/// takes more than three; and a closed session stays closed.
pub proof fn lemma_session_ends(pre: SessionView, event: SessionEventView)
    ensures
        pre.phase != Phase::Closed ==> steps_left(session_after(pre, event).phase) < steps_left(
            pre.phase,
        ),
        pre.phase == Phase::Closed ==> session_after(pre, event).phase == Phase::Closed,
{
}

/// Nothing is written before the greeting has been waited for: a write is only ever
/// asked for by a session that was awaiting the greeting and was told how the read
/// went.
pub proof fn lemma_greeting_comes_first(pre: SessionView, event: SessionEventView)
    requires
        action_after(pre, event) is Send,
    ensures
        pre.phase == Phase::AwaitingGreeting,
        event is Received || event is ReceiveFailed,
{
}

/// A query that has read an answer keeps the layer found in it and then sends the
/// line that makes the daemon hang up; a layer change sends its command.
pub proof fn lemma_what_is_sent(pre: SessionView, bytes: Seq<u8>)
    requires
        pre.phase == Phase::AwaitingGreeting,
    ensures
        pre.purpose == Purpose::QueryLayer ==> action_after(pre, SessionEventView::Received(bytes))
            == SessionActionView::Send(DISCONNECT_MESSAGE@) && session_after(
            pre,
            SessionEventView::Received(bytes),
        ).layer == layer_in_response(bytes),
        pre.purpose == Purpose::ChangeLayer ==> action_after(pre, SessionEventView::Received(bytes))
            == SessionActionView::Send(pre.command),
{
}

} // verus!
