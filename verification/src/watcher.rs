//! The connection watcher's rule: what each thing that a watcher sees
//! leads to.
//!
//! One watcher reads the lines of one client and listens for the shutdown
//! signal. The reading and the listening are the caller's; what each
//! outcome means for the server and for the watcher is decided here.

use crate::common::Event;
use crate::common::EventView;
use crate::common::UserId;
use vstd::prelude::*;

verus! {

/// What a watcher sees when it wakes.
#[derive(Debug, Clone, PartialEq, Eq)]
pub enum Watched {
    /// The client sent a line.
    Line(String),
    /// The client's stream ended, or reading it failed.
    Closed,
    /// The shutdown signal fired.
    Shutdown,
}

/// What a watcher does next.
#[derive(Debug, Clone, PartialEq, Eq)]
pub struct WatchStep {
    /// The event to hand to the server, if any.
    pub event: Option<Event>,
    /// Whether the watcher reads on. A watcher that stops never reads again.
    pub reads_on: bool,
}

/// Decides what the watcher of the client `id` does after it has seen
/// `seen`. A line is forwarded as a message from the client, and the
/// watcher reads on. When the stream is closed the client is disconnected
/// and the watcher stops. On the shutdown signal the watcher stops at once
/// and hands the server nothing.
pub fn watch_step(id: UserId, seen: Watched) -> (step: WatchStep)
    ensures
        step.reads_on == seen is Line,
        match seen {
            Watched::Line(text) => step.event matches Some(event) && event@
                == (EventView::ReceiveUserMessage { from: id, message_raw: text@ }),
            Watched::Closed => step.event matches Some(event) && event@
                == (EventView::DisconnectClient { id }),
            Watched::Shutdown => step.event is None,
        },
{
    match seen {
        Watched::Line(message_raw) => WatchStep {
            event: Some(Event::ReceiveUserMessage { from: id, message_raw }),
            reads_on: true,
        },
        Watched::Closed => WatchStep {
            event: Some(Event::DisconnectClient { id }),
            reads_on: false,
        },
        Watched::Shutdown => WatchStep { event: None, reads_on: false },
    }
}

} // verus!
