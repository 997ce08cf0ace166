//! The connection state machine of the outbound stream.
//!
//! The transport owns at most one live connection. A chunk is sent at once or
//! lost: there is no queue. The caller performs the connect, the send and the
//! wait; [`step`] decides, from the state of the link and what just happened,
//! the next state and what to do next.

use vstd::prelude::*;

verus! {

/// Where the chunks are sent: a fixed local endpoint.
pub const ENDPOINT: &'static str = "ws://127.0.0.1:8765";

/// Wait after a failed connection attempt, in milliseconds.
pub const BACKOFF_MILLIS: u64 = 500;

/// State of the outbound connection.
#[derive(Clone, Copy, Debug, PartialEq, Eq, Structural)]
pub enum Link {
    Disconnected,
    Connected,
}

/// What happened since the last step.
#[derive(Clone, Copy, Debug, PartialEq, Eq, Structural)]
pub enum Event {
    /// A chunk is ready to leave.
    ChunkReady,
    /// The connection attempt succeeded.
    ConnectSucceeded,
    /// The connection attempt failed.
    ConnectFailed,
    /// The chunk was sent.
    SendSucceeded,
    /// The send failed.
    SendFailed,
}

/// What the caller does next.
#[derive(Clone, Copy, Debug, PartialEq, Eq, Structural)]
pub enum Action {
    /// Try to open the connection.
    Connect,
    /// Send the chunk in hand as one binary message.
    Send,
    /// Drop the chunk in hand and wait that many milliseconds.
    DropAndWait { millis: u64 },
    /// Drop the connection, if one is held, and go on with the next chunk.
    Proceed,
}

/// State of the link after `event`.
pub open spec fn next_link(link: Link, event: Event) -> Link {
    match event {
        Event::ChunkReady => link,
        Event::ConnectSucceeded => Link::Connected,
        Event::ConnectFailed => Link::Disconnected,
        Event::SendSucceeded => link,
        Event::SendFailed => Link::Disconnected,
    }
}

/// What to do after `event`.
pub open spec fn next_action(link: Link, event: Event) -> Action {
    match event {
        Event::ChunkReady => match link {
            Link::Disconnected => Action::Connect,
            Link::Connected => Action::Send,
        },
        Event::ConnectSucceeded => Action::Send,
        Event::ConnectFailed => Action::DropAndWait { millis: BACKOFF_MILLIS },
        Event::SendSucceeded => Action::Proceed,
        Event::SendFailed => Action::Proceed,
    }
}

/// One step of the transport: the state after `event` and what to do next.
pub fn step(link: Link, event: Event) -> (next: (Link, Action))
    ensures
        next.0 == next_link(link, event),
        next.1 == next_action(link, event),
{
    match event {
        Event::ChunkReady => match link {
            Link::Disconnected => (link, Action::Connect),
            Link::Connected => (link, Action::Send),
        },
        Event::ConnectSucceeded => (Link::Connected, Action::Send),
        Event::ConnectFailed => (Link::Disconnected, Action::DropAndWait { millis: BACKOFF_MILLIS }),
        Event::SendSucceeded => (link, Action::Proceed),
        Event::SendFailed => (Link::Disconnected, Action::Proceed),
    }
}

/// Whatever happened before, a chunk that becomes ready after a failed send or
/// a failed connection attempt starts a new connection attempt, and one that
/// becomes ready after a successful connection is sent on it.
pub proof fn lemma_recovery(link: Link, event: Event)
    ensures
        event == Event::SendFailed || event == Event::ConnectFailed ==> next_action(
            next_link(link, event),
            Event::ChunkReady,
        ) == Action::Connect,
        event == Event::ConnectSucceeded ==> next_action(
            next_link(link, event),
            Event::ChunkReady,
        ) == Action::Send,
{
}

} // verus!
