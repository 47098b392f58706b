//! The server: the one owner of the client table, the message history and
//! the table of non-player characters.
//!
//! The server is a state machine. `handle_event` takes one event, changes
//! the state and returns the actions that the caller has to carry out:
//! writes to connections, and events to put back on the queue. The caller
//! reports how a delivery went through `Delivery::followups`. What each
//! event does to the state is written down once, as `next_state`.

use crate::common::emit;
use crate::common::event_views;
use crate::common::message_line;
use crate::common::ChatTarget;
use crate::common::Client;
use crate::common::ClientContext;
use crate::common::Event;
use crate::common::EventView;
use crate::common::Message;
use crate::common::MessageTone;
use crate::common::MessageView;
use crate::common::ServerError;
use crate::common::SystemNotification;
use crate::common::SystemNotificationView;
use crate::common::UserId;
use crate::npcs::Npc;
use crate::parser::context_after;
use crate::parser::events_of;
use crate::parser::parse_incoming_message_at;
use crate::time::instant_text;
use crate::time::Timestamp;
use crate::time::UtcOffset;
use std::collections::HashMap;
use std::collections::VecDeque;
use vstd::prelude::*;
use vstd::std_specs::hash::spec_keys_iter;
use vstd::std_specs::iter::IteratorSpec;
use vstd::string::*;

verus! {

/// How many messages the history keeps.
pub const MESSAGE_HISTORY_LEN: usize = 100;

/// The address that the server listens on.
pub const TCP_PORT: &'static str = "127.0.0.1:8080";

/// The server's state as a mathematical value.
pub struct ServerView {
    /// The most recent messages, oldest first.
    pub history: Seq<MessageView>,
    /// Each connected client, by the user's number.
    pub clients: Map<u32, Client>,
    /// The numbers of the non-player characters present.
    pub npcs: Set<u32>,
    /// The number that the next client gets.
    pub next_id: u32,
    /// Whether the server still handles events.
    pub running: bool,
}

/// The history after `message` is logged: the message goes to the end, and
/// the oldest leaves where the history would grow past its bound.
pub open spec fn logged(history: Seq<MessageView>, message: MessageView) -> Seq<MessageView> {
    let grown = history.push(message);
    if grown.len() > MESSAGE_HISTORY_LEN {
        grown.drop_first()
    } else {
        grown
    }
}

/// Whether `to` can become a client's target: the world always, a user
/// while connected, a non-player character while present.
pub open spec fn target_exists(state: ServerView, to: ChatTarget) -> bool {
    match to {
        ChatTarget::Global => true,
        ChatTarget::User(id) => state.clients.contains_key(id.0),
        ChatTarget::Npc(id) => state.npcs.contains(id.0),
    }
}

/// A client as it starts: speaking to the world, in the plain tone.
pub open spec fn fresh_client() -> Client {
    Client {
        context: ClientContext { current_target: ChatTarget::Global, tone: MessageTone::Said },
    }
}

/// The message that tells every client of the shutdown.
pub open spec fn farewell(now: Timestamp) -> MessageView {
    MessageView {
        from: None,
        to: ChatTarget::Global,
        content: "Server Shutdown! So long!"@,
        timestamp: now,
        tone: MessageTone::Said,
    }
}

/// The notice that greets the client `id`.
pub open spec fn welcome(id: UserId) -> SystemNotificationView {
    SystemNotificationView { to: id, content: "Welcome to Tavern chat!"@ }
}

/// The state that follows `state` when `event` is handled at the instant
/// `now`. A server that has shut down stays as it is.
pub open spec fn next_state(state: ServerView, event: EventView, now: Timestamp) -> ServerView {
    if !state.running {
        state
    } else {
        match event {
            EventView::NewClient => if state.next_id < u32::MAX {
                ServerView {
                    clients: state.clients.insert(state.next_id, fresh_client()),
                    next_id: (state.next_id + 1) as u32,
                    ..state
                }
            } else {
                state
            },
            EventView::DisconnectClient { id } => ServerView {
                clients: state.clients.remove(id.0),
                ..state
            },
            EventView::ReceiveUserMessage { from, message_raw } => if state.clients.contains_key(
                from.0,
            ) {
                ServerView {
                    clients: state.clients.insert(
                        from.0,
                        Client { context: context_after(message_raw, state.clients[from.0].context) },
                    ),
                    ..state
                }
            } else {
                state
            },
            EventView::BroadcastMessage { message } => ServerView {
                history: logged(state.history, message),
                ..state
            },
            EventView::ChangeTarget { id, to } => if target_exists(state, to)
                && state.clients.contains_key(id.0) {
                ServerView {
                    clients: state.clients.insert(
                        id.0,
                        Client {
                            context: ClientContext {
                                current_target: to,
                                tone: state.clients[id.0].context.tone,
                            },
                        },
                    ),
                    ..state
                }
            } else {
                state
            },
            EventView::NotifyClient { notification } => state,
            EventView::Shutdown => ServerView {
                history: logged(state.history, farewell(now)),
                clients: Map::empty(),
                running: false,
                ..state
            },
        }
    }
}

/// A plan for delivering one message or notice: who gets it, and what is
/// already known to be wrong with its address.
#[derive(Debug, Clone, PartialEq, Eq)]
pub struct Delivery {
    /// Where the message was sent to.
    pub to: ChatTarget,
    /// Who sent it, if anyone.
    pub from: Option<ChatTarget>,
    /// The connected clients to write to, each once.
    pub recipients: Vec<UserId>,
    /// Why nobody can be written to, where that is so.
    pub error: Option<ServerError>,
}

/// A `Delivery` as a mathematical value.
pub struct DeliveryView {
    pub to: ChatTarget,
    pub from: Option<ChatTarget>,
    pub recipients: Seq<UserId>,
    pub error: Option<ServerError>,
}

impl View for Delivery {
    type V = DeliveryView;

    open spec fn view(&self) -> DeliveryView {
        DeliveryView {
            to: self.to,
            from: self.from,
            recipients: self.recipients@,
            error: self.error,
        }
    }
}

/// Whether `plan` is a plan for a message from `from` to `to`, given the
/// clients connected in `state`. A message to the world goes to every
/// client once, in any order; one to a user goes to that user, or nowhere,
/// with an addressing error, where the user is not connected; one to a
/// non-player character goes nowhere, with an error that says so.
pub open spec fn plans_delivery(
    plan: DeliveryView,
    state: ServerView,
    from: Option<ChatTarget>,
    to: ChatTarget,
) -> bool {
    &&& plan.to == to
    &&& plan.from == from
    &&& match to {
        ChatTarget::Global => {
            &&& plan.error is None
            &&& plan.recipients.no_duplicates()
            &&& forall|id: UserId| #[trigger]
                plan.recipients.contains(id) <==> state.clients.contains_key(id.0)
        },
        ChatTarget::User(id) => if state.clients.contains_key(id.0) {
            plan.error is None && plan.recipients == seq![id]
        } else {
            plan.error == Some(ServerError::InvalidMessageTarget(to)) && plan.recipients
                == Seq::<UserId>::empty()
        },
        ChatTarget::Npc(_) => {
            plan.error == Some(ServerError::UnsupportedTarget(to)) && plan.recipients
                == Seq::<UserId>::empty()
        },
    }
}

/// What went wrong with a delivery, given the users whose write failed: the
/// addressing error where the plan has one, a connection failure where the
/// message went to one user and the write to that user failed, else nothing.
/// Failed writes of a message to the world are no error of the message.
pub open spec fn delivery_error(plan: DeliveryView, failed: Seq<UserId>) -> Option<ServerError> {
    match plan.error {
        Some(error) => Some(error),
        None => match plan.to {
            ChatTarget::User(id) => if plan.recipients.contains(id) && failed.contains(id) {
                Some(ServerError::TcpConnectionFailed(id))
            } else {
                None
            },
            _ => None,
        },
    }
}

/// The disconnections that follow a delivery: one for each recipient whose
/// write failed, in the order of the recipients.
pub open spec fn disconnections(recipients: Seq<UserId>, failed: Seq<UserId>) -> Seq<EventView>
    decreases recipients.len(),
{
    if recipients.len() == 0 {
        Seq::<EventView>::empty()
    } else {
        let earlier = disconnections(recipients.drop_last(), failed);
        if failed.contains(recipients.last()) {
            earlier.push(EventView::DisconnectClient { id: recipients.last() })
        } else {
            earlier
        }
    }
}

/// The notice that tells a sender why a message did not arrive.
pub open spec fn failure_notice(sender: UserId, error: ServerError) -> EventView {
    EventView::NotifyClient {
        notification: SystemNotificationView {
            to: sender,
            content: "Failed to send message: "@ + error.debug_text(),
        },
    }
}

/// The events that follow a delivery, given the users whose write failed:
/// first a notice to the sender, where something went wrong and the sender
/// is a user, then the disconnections.
pub open spec fn followup_events(plan: DeliveryView, failed: Seq<UserId>) -> Seq<EventView> {
    let notice = match (delivery_error(plan, failed), plan.from) {
        (Some(error), Some(ChatTarget::User(sender))) => seq![failure_notice(sender, error)],
        _ => Seq::<EventView>::empty(),
    };
    notice + disconnections(plan.recipients, failed)
}

/// Whether `id` occurs in `ids`.
fn holds(ids: &Vec<UserId>, id: UserId) -> (found: bool)
    ensures
        found == ids@.contains(id),
{
    let mut i: usize = 0;
    while i < ids.len()
        invariant
            i <= ids.len(),
            forall|j: int| 0 <= j < i ==> ids[j] != id,
        decreases ids.len() - i,
    {
        if ids[i] == id {
            return true;
        }
        i += 1;
    }
    false
}

/// Whether what a plan delivers is marked as private: everything but a
/// message to the world.
pub open spec fn marked_private(plan: DeliveryView) -> bool {
    !(plan.to is Global)
}

impl Delivery {
    /// Whether the message is written with the mark of a private message.
    pub fn is_private(&self) -> (private: bool)
        ensures
            private == marked_private(self@),
    {
        match self.to {
            ChatTarget::Global => false,
            _ => true,
        }
    }

    /// The line to write to each recipient of this delivery of `message`,
    /// for readers whose clocks are `offset` ahead of UTC: the message's
    /// line, marked private unless the delivery goes to the world.
    pub fn output(&self, message: &Message, offset: UtcOffset) -> (line: String)
        ensures
            line@ == message_line(
                instant_text(
                    message.timestamp.spec_secs(),
                    message.timestamp.spec_nanos(),
                    offset.spec_secs(),
                ),
                message@,
                marked_private(self@),
            ),
    {
        message.to_output(self.is_private(), offset)
    }

    /// The events to put on the queue once the delivery has been tried,
    /// given the users whose write failed.
    pub fn followups(&self, failed: &Vec<UserId>) -> (events: Vec<Event>)
        ensures
            event_views(events@) == followup_events(self@, failed@),
    {
        let mut events: Vec<Event> = Vec::new();
        assert(event_views(events@) =~= Seq::<EventView>::empty());
        let error = match self.error {
            Some(error) => Some(error),
            None => match self.to {
                ChatTarget::User(id) => if holds(&self.recipients, id) && holds(failed, id) {
                    Some(ServerError::TcpConnectionFailed(id))
                } else {
                    None
                },
                _ => None,
            },
        };
        assert(error == delivery_error(self@, failed@));
        match (error, self.from) {
            (Some(error), Some(ChatTarget::User(sender))) => {
                let mut content = String::from_str("Failed to send message: ");
                error.append_debug(&mut content);
                emit(
                    &mut events,
                    Event::NotifyClient { notification: SystemNotification { to: sender, content } },
                );
            },
            _ => {},
        }
        let ghost notice = event_views(events@);
        assert(notice + disconnections(self.recipients@.take(0), failed@) =~= notice);
        let mut i: usize = 0;
        while i < self.recipients.len()
            invariant
                i <= self.recipients.len(),
                event_views(events@) == notice + disconnections(
                    self.recipients@.take(i as int),
                    failed@,
                ),
            decreases self.recipients.len() - i,
        {
            let id = self.recipients[i];
            let ghost wider = self.recipients@.take(i + 1);
            assert(wider.drop_last() == self.recipients@.take(i as int));
            assert(wider.last() == id);
            if holds(failed, id) {
                emit(&mut events, Event::DisconnectClient { id });
            }
            assert(event_views(events@) =~= notice + disconnections(wider, failed@));
            i += 1;
        }
        assert(self.recipients@.take(i as int) == self.recipients@);
        events
    }
}

/// Whether a state can arise: the history keeps to its bound, the client
/// table is finite, every client's number lies below the next number to be
/// given out, and a server that has shut down has no clients.
pub open spec fn valid(state: ServerView) -> bool {
    &&& state.history.len() <= MESSAGE_HISTORY_LEN
    &&& state.clients.dom().finite()
    &&& forall|id: u32| #[trigger] state.clients.contains_key(id) ==> id < state.next_id
    &&& !state.running ==> state.clients == Map::<u32, Client>::empty()
}

/// The views of the messages in a log, oldest first.
pub open spec fn message_views(log: Seq<Message>) -> Seq<MessageView> {
    Seq::new(log.len(), |i: int| log[i]@)
}

/// The chat server's state.
#[derive(Debug)]
pub struct TavernServer {
    message_log: VecDeque<Message>,
    npcs: HashMap<u32, Npc>,
    clients: HashMap<u32, Client>,
    next_entity_id: u32,
    running: bool,
}

impl View for TavernServer {
    type V = ServerView;

    closed spec fn view(&self) -> ServerView {
        ServerView {
            history: message_views(self.message_log@),
            clients: self.clients@,
            npcs: self.npcs@.dom(),
            next_id: self.next_entity_id,
            running: self.running,
        }
    }
}

impl TavernServer {
    /// Whether the server's state can arise. Every function here keeps it.
    pub open spec fn wf(&self) -> bool {
        valid(self@)
    }

    /// A running server with no clients, no history and no characters.
    pub fn new() -> (server: Self)
        ensures
            server.wf(),
            server@ == (ServerView {
                history: Seq::<MessageView>::empty(),
                clients: Map::<u32, Client>::empty(),
                npcs: Set::<u32>::empty(),
                next_id: 0,
                running: true,
            }),
    {
        broadcast use vstd::std_specs::hash::group_hash_axioms;

        let server = TavernServer {
            message_log: VecDeque::new(),
            npcs: HashMap::new(),
            clients: HashMap::new(),
            next_entity_id: 0,
            running: true,
        };
        assert(server@.history =~= Seq::<MessageView>::empty());
        assert(server@.npcs =~= Set::<u32>::empty());
        server
    }

    /// Whether the server still handles events.
    pub fn is_running(&self) -> (running: bool)
        ensures
            running == self@.running,
    {
        self.running
    }

    /// How many clients are connected.
    pub fn client_count(&self) -> (count: usize)
        ensures
            count == self@.clients.len(),
    {
        broadcast use vstd::std_specs::hash::group_hash_axioms;

        self.clients.len()
    }

    /// How many messages the history holds.
    pub fn history_len(&self) -> (count: usize)
        ensures
            count == self@.history.len(),
    {
        self.message_log.len()
    }

    /// A copy of the message at `index` in the history, counted from the
    /// oldest.
    pub fn history_entry(&self, index: usize) -> (entry: Option<Message>)
        ensures
            match entry {
                Some(message) => index < self@.history.len() && message@
                    == self@.history[index as int],
                None => index >= self@.history.len(),
            },
    {
        if index < self.message_log.len() {
            Some(self.message_log[index].duplicate())
        } else {
            None
        }
    }

    /// The context of the client `id`, if connected.
    pub fn context_of(&self, id: UserId) -> (context: Option<ClientContext>)
        ensures
            context == if self@.clients.contains_key(id.0) {
                Some(self@.clients[id.0].context)
            } else {
                None::<ClientContext>
            },
    {
        broadcast use vstd::std_specs::hash::group_hash_axioms;

        match self.clients.get(&id.0) {
            Some(client) => Some(client.context),
            None => None,
        }
    }

    /// Forgets every client. The caller closes their connections.
    pub fn shutdown(&mut self)
        requires
            old(self).wf(),
        ensures
            final(self).wf(),
            final(self)@ == (ServerView {
                clients: Map::<u32, Client>::empty(),
                ..old(self)@
            }),
    {
        broadcast use vstd::std_specs::hash::group_hash_axioms;

        self.clients.clear();
    }

    /// Forgets the client `id`. Nothing happens where no such client is
    /// connected.
    pub fn remove_clients(&mut self, id: UserId)
        requires
            old(self).wf(),
        ensures
            final(self).wf(),
            final(self)@ == (ServerView { clients: old(self)@.clients.remove(id.0), ..old(self)@ }),
            !old(self)@.clients.contains_key(id.0) ==> final(self)@ == old(self)@,
    {
        broadcast use vstd::std_specs::hash::group_hash_axioms;

        self.clients.remove(&id.0);
        assert(!old(self)@.clients.contains_key(id.0) ==> self@.clients =~= old(self)@.clients);
    }

    /// Puts `message` at the end of the history, and drops the oldest
    /// message where the history would grow past its bound.
    fn record(&mut self, message: Message)
        requires
            old(self).wf(),
        ensures
            final(self).wf(),
            final(self)@ == (ServerView {
                history: logged(old(self)@.history, message@),
                ..old(self)@
            }),
    {
        self.message_log.push_back(message);
        assert(message_views(self.message_log@) =~= old(self)@.history.push(message@));
        if self.message_log.len() > MESSAGE_HISTORY_LEN {
            let _ = self.message_log.pop_front();
            assert(message_views(self.message_log@) =~= old(self)@.history.push(
                message@,
            ).drop_first());
        }
    }

    /// The connected clients, each once.
    fn everyone(&self) -> (ids: Vec<UserId>)
        ensures
            ids@.no_duplicates(),
            forall|id: UserId| #[trigger] ids@.contains(id) <==> self@.clients.contains_key(id.0),
    {
        broadcast use vstd::std_specs::hash::group_hash_axioms;

        let mut ids: Vec<UserId> = Vec::new();
        let ghost keys = spec_keys_iter(&self.clients).remaining();
        assert(keys.unref().to_set() == self.clients@.dom());
        for key in it: self.clients.keys()
            invariant
                it.seq() == keys,
                keys.no_duplicates(),
                ids@.len() == it.index(),
                forall|j: int| 0 <= j < ids@.len() ==> #[trigger] ids@[j] == UserId(*keys[j]),
        {
            ids.push(UserId(*key));
        }
        assert forall|id: UserId| #[trigger] ids@.contains(id) <==> self@.clients.contains_key(
            id.0,
        ) by {
            if ids@.contains(id) {
                let j = choose|j: int| 0 <= j < ids@.len() && ids@[j] == id;
                assert(keys.unref()[j] == id.0);
                assert(keys.unref().to_set().contains(id.0));
            }
            if self@.clients.contains_key(id.0) {
                assert(keys.unref().to_set().contains(id.0));
                let j = choose|j: int| 0 <= j < keys.unref().len() && keys.unref()[j] == id.0;
                assert(ids@[j] == id);
            }
        }
        ids
    }
}

/// What the caller has to do after the server has handled an event.
#[derive(Debug, Clone, PartialEq, Eq)]
pub enum Action {
    /// Keep the accepted connection under `id` and start reading its lines.
    Admit { id: UserId },
    /// Close the accepted connection: no number is left for it.
    Refuse,
    /// Put these events on the queue, in this order.
    Enqueue { events: Vec<Event> },
    /// Write the delivery's output of `message` to the recipients of
    /// `delivery`, then enqueue the delivery's followups.
    Deliver { message: Message, delivery: Delivery },
    /// Write `notification` to the recipient of `delivery`, then enqueue
    /// the delivery's followups.
    Notify { notification: SystemNotification, delivery: Delivery },
    /// Close the connection of the client `id`.
    Disconnect { id: UserId },
    /// Tell the acceptor and every reader to stop.
    SignalShutdown,
    /// Close every client's connection.
    DisconnectAll,
    /// Leave the event loop.
    Stop,
}

/// An `Action` as a mathematical value.
pub enum ActionView {
    Admit { id: UserId },
    Refuse,
    Enqueue { events: Seq<EventView> },
    Deliver { message: MessageView, delivery: DeliveryView },
    Notify { notification: SystemNotificationView, delivery: DeliveryView },
    Disconnect { id: UserId },
    SignalShutdown,
    DisconnectAll,
    Stop,
}

impl View for Action {
    type V = ActionView;

    open spec fn view(&self) -> ActionView {
        match *self {
            Action::Admit { id } => ActionView::Admit { id },
            Action::Refuse => ActionView::Refuse,
            Action::Enqueue { events } => ActionView::Enqueue { events: event_views(events@) },
            Action::Deliver { message, delivery } => ActionView::Deliver {
                message: message@,
                delivery: delivery@,
            },
            Action::Notify { notification, delivery } => ActionView::Notify {
                notification: notification@,
                delivery: delivery@,
            },
            Action::Disconnect { id } => ActionView::Disconnect { id },
            Action::SignalShutdown => ActionView::SignalShutdown,
            Action::DisconnectAll => ActionView::DisconnectAll,
            Action::Stop => ActionView::Stop,
        }
    }
}

/// A list of actions as mathematical values, in order.
pub open spec fn action_views(actions: Seq<Action>) -> Seq<ActionView> {
    Seq::new(actions.len(), |i: int| actions[i]@)
}

/// The plan for writing a notice to the client `to`: that client alone.
pub open spec fn notice_plan(to: UserId) -> DeliveryView {
    DeliveryView { to: ChatTarget::User(to), from: None, recipients: seq![to], error: None }
}

/// What a new connection asks of the caller: to keep it under the next
/// number and to enqueue a welcome, or to refuse it where every number has
/// been given out.
pub open spec fn admission(state: ServerView) -> Seq<ActionView> {
    if state.next_id < u32::MAX {
        let id = UserId(state.next_id);
        seq![
            ActionView::Admit { id },
            ActionView::Enqueue {
                events: seq![EventView::NotifyClient { notification: welcome(id) }],
            },
        ]
    } else {
        seq![ActionView::Refuse]
    }
}

/// Whether `actions` are what handling `event` in `state` at the instant
/// `now` asks of the caller. They are fixed by the state and the event, but
/// for the order in which a message to the world reaches the clients.
pub open spec fn actions_fit(
    state: ServerView,
    event: EventView,
    now: Timestamp,
    actions: Seq<ActionView>,
) -> bool {
    if !state.running {
        actions == Seq::<ActionView>::empty()
    } else {
        match event {
            EventView::NewClient => actions == admission(state),
            EventView::DisconnectClient { id } => if state.clients.contains_key(id.0) {
                actions == seq![ActionView::Disconnect { id }]
            } else {
                actions == Seq::<ActionView>::empty()
            },
            EventView::ReceiveUserMessage { from, message_raw } => if state.clients.contains_key(
                from.0,
            ) {
                actions == seq![
                    ActionView::Enqueue {
                        events: events_of(from, message_raw, state.clients[from.0].context, now),
                    },
                ]
            } else {
                actions == Seq::<ActionView>::empty()
            },
            EventView::BroadcastMessage { message } => {
                &&& actions.len() == 1
                &&& actions[0] matches ActionView::Deliver { message: sent, delivery }
                &&& sent == message
                &&& plans_delivery(delivery, state, message.from, message.to)
            },
            EventView::ChangeTarget { id, to } => actions == Seq::<ActionView>::empty(),
            EventView::NotifyClient { notification } => if state.clients.contains_key(
                notification.to.0,
            ) {
                actions == seq![
                    ActionView::Notify { notification, delivery: notice_plan(notification.to) },
                ]
            } else {
                actions == Seq::<ActionView>::empty()
            },
            EventView::Shutdown => {
                &&& actions.len() == 4
                &&& actions[0] matches ActionView::Deliver { message: sent, delivery }
                &&& sent == farewell(now)
                &&& plans_delivery(delivery, state, None, ChatTarget::Global)
                &&& actions[1] == ActionView::SignalShutdown
                &&& actions[2] == ActionView::DisconnectAll
                &&& actions[3] == ActionView::Stop
            },
        }
    }
}

fn act(actions: &mut Vec<Action>, action: Action)
    ensures
        action_views(final(actions)@) == action_views(old(actions)@).push(action@),
{
    actions.push(action);
    assert(action_views(actions@) =~= action_views(old(actions)@).push(action@));
}

impl TavernServer {
    /// Logs `message` in the history and plans its delivery. The caller
    /// writes to the plan's recipients and enqueues its followups.
    pub fn broadcast_message(&mut self, message: Message) -> (delivery: Delivery)
        requires
            old(self).wf(),
        ensures
            final(self).wf(),
            final(self)@ == (ServerView {
                history: logged(old(self)@.history, message@),
                ..old(self)@
            }),
            plans_delivery(delivery@, old(self)@, message@.from, message@.to),
    {
        broadcast use vstd::std_specs::hash::group_hash_axioms;

        let to = message.to;
        let from = message.from;
        self.record(message);
        match to {
            ChatTarget::Global => Delivery { to, from, recipients: self.everyone(), error: None },
            ChatTarget::User(id) => {
                if self.clients.contains_key(&id.0) {
                    let mut recipients: Vec<UserId> = Vec::new();
                    recipients.push(id);
                    assert(recipients@ =~= seq![id]);
                    Delivery { to, from, recipients, error: None }
                } else {
                    Delivery {
                        to,
                        from,
                        recipients: Vec::new(),
                        error: Some(ServerError::InvalidMessageTarget(to)),
                    }
                }
            },
            ChatTarget::Npc(_) => Delivery {
                to,
                from,
                recipients: Vec::new(),
                error: Some(ServerError::UnsupportedTarget(to)),
            },
        }
    }
}

impl TavernServer {
    /// Gives the next number to a new client and greets it; refuses the
    /// connection where every number has been given out.
    fn accept_client(&mut self, actions: &mut Vec<Action>)
        requires
            old(self).wf(),
            old(self)@.running,
        ensures
            final(self).wf(),
            forall|now: Timestamp|
                final(self)@ == #[trigger] next_state(old(self)@, EventView::NewClient, now),
            action_views(final(actions)@) == action_views(old(actions)@) + admission(old(self)@),
    {
        broadcast use vstd::std_specs::hash::group_hash_axioms;

        if self.next_entity_id < u32::MAX {
            let id = UserId(self.next_entity_id);
            self.next_entity_id += 1;
            self.clients.insert(id.0, Client { context: ClientContext::default() });
            let mut events: Vec<Event> = Vec::new();
            emit(
                &mut events,
                Event::NotifyClient {
                    notification: SystemNotification {
                        to: id,
                        content: String::from_str("Welcome to Tavern chat!"),
                    },
                },
            );
            assert(event_views(events@) =~= seq![
                EventView::NotifyClient { notification: welcome(id) },
            ]);
            act(actions, Action::Admit { id });
            act(actions, Action::Enqueue { events });
            assert(action_views(actions@) =~= action_views(old(actions)@) + admission(
                old(self)@,
            ));
        } else {
            act(actions, Action::Refuse);
            assert(action_views(actions@) =~= action_views(old(actions)@) + admission(
                old(self)@,
            ));
        }
    }

    /// Handles one event at the instant `now`: changes the state as
    /// `next_state` says and returns the actions that `actions_fit` asks
    /// for. Once the server has shut down, events do nothing.
    pub fn handle_event_at(&mut self, event: Event, now: Timestamp) -> (actions: Vec<Action>)
        requires
            old(self).wf(),
        ensures
            final(self).wf(),
            final(self)@ == next_state(old(self)@, event@, now),
            actions_fit(old(self)@, event@, now, action_views(actions@)),
    {
        broadcast use vstd::std_specs::hash::group_hash_axioms;

        let mut actions: Vec<Action> = Vec::new();
        assert(action_views(actions@) =~= Seq::<ActionView>::empty());
        if !self.running {
            return actions;
        }
        match event {
            Event::NewClient => {
                self.accept_client(&mut actions);
                assert(action_views(actions@) =~= admission(old(self)@));
            },
            Event::DisconnectClient { id } => {
                if self.clients.contains_key(&id.0) {
                    self.remove_clients(id);
                    act(&mut actions, Action::Disconnect { id });
                    assert(action_views(actions@) =~= seq![ActionView::Disconnect { id }]);
                } else {
                    assert(self@.clients.remove(id.0) =~= self@.clients);
                }
            },
            Event::ReceiveUserMessage { from, message_raw } => {
                let known = match self.clients.get(&from.0) {
                    Some(client) => Some(client.context),
                    None => None,
                };
                if let Some(context) = known {
                    let mut context = context;
                    let events = parse_incoming_message_at(
                        from,
                        message_raw.as_str(),
                        &mut context,
                        now,
                    );
                    self.clients.insert(from.0, Client { context });
                    act(&mut actions, Action::Enqueue { events });
                    assert(action_views(actions@) =~= seq![
                        ActionView::Enqueue {
                            events: events_of(
                                from,
                                message_raw@,
                                old(self)@.clients[from.0].context,
                                now,
                            ),
                        },
                    ]);
                }
            },
            Event::BroadcastMessage { message } => {
                let copy = message.duplicate();
                let delivery = self.broadcast_message(message);
                act(&mut actions, Action::Deliver { message: copy, delivery });
            },
            Event::ChangeTarget { id, to } => {
                let exists = match to {
                    ChatTarget::Global => true,
                    ChatTarget::User(to) => self.clients.contains_key(&to.0),
                    ChatTarget::Npc(to) => self.npcs.contains_key(&to.0),
                };
                if exists {
                    let known = match self.clients.get(&id.0) {
                        Some(client) => Some(client.context),
                        None => None,
                    };
                    if let Some(context) = known {
                        let context = ClientContext { current_target: to, tone: context.tone };
                        self.clients.insert(id.0, Client { context });
                    }
                }
            },
            Event::NotifyClient { notification } => {
                let to = notification.to;
                if self.clients.contains_key(&to.0) {
                    let mut recipients: Vec<UserId> = Vec::new();
                    recipients.push(to);
                    assert(recipients@ =~= seq![to]);
                    let delivery = Delivery {
                        to: ChatTarget::User(to),
                        from: None,
                        recipients,
                        error: None,
                    };
                    act(&mut actions, Action::Notify { notification, delivery });
                    assert(action_views(actions@) =~= seq![
                        ActionView::Notify { notification: notification@, delivery: notice_plan(to) },
                    ]);
                }
            },
            Event::Shutdown => {
                let message = Message::at(
                    None,
                    ChatTarget::Global,
                    "Server Shutdown! So long!",
                    None,
                    now,
                );
                let copy = message.duplicate();
                let delivery = self.broadcast_message(message);
                act(&mut actions, Action::Deliver { message: copy, delivery });
                act(&mut actions, Action::SignalShutdown);
                self.shutdown();
                self.running = false;
                act(&mut actions, Action::DisconnectAll);
                act(&mut actions, Action::Stop);
            },
        }
        actions
    }

    /// Handles one event, stamping what it makes with the current time:
    /// the outcome is that of `handle_event_at` at some instant.
    pub fn handle_event(&mut self, event: Event) -> (actions: Vec<Action>)
        requires
            old(self).wf(),
        ensures
            final(self).wf(),
            exists|now: Timestamp|
                final(self)@ == next_state(old(self)@, event@, now) && actions_fit(
                    old(self)@,
                    event@,
                    now,
                    action_views(actions@),
                ),
    {
        let now = Timestamp::now();
        self.handle_event_at(event, now)
    }
}

/// The history never holds more than its bound: logging into a history
/// with room appends the message, and logging into a full one evicts the
/// oldest message and no other.
pub proof fn lemma_history_bounded(history: Seq<MessageView>, message: MessageView)
    requires
        history.len() <= MESSAGE_HISTORY_LEN,
    ensures
        logged(history, message).len() <= MESSAGE_HISTORY_LEN,
        history.len() < MESSAGE_HISTORY_LEN ==> logged(history, message) == history.push(message),
        history.len() == MESSAGE_HISTORY_LEN ==> logged(history, message)
            == history.drop_first().push(message),
{
    if history.len() == MESSAGE_HISTORY_LEN {
        assert(history.push(message).drop_first() =~= history.drop_first().push(message));
    }
}

/// Handling an event keeps the state valid, whatever the event: the
/// history stays within its bound and no client's number reaches the next
/// number to be given out.
pub proof fn lemma_step_keeps_valid(state: ServerView, event: EventView, now: Timestamp)
    requires
        valid(state),
    ensures
        valid(next_state(state, event, now)),
{
    let after = next_state(state, event, now);
    if state.running {
        match event {
            EventView::BroadcastMessage { message } => {
                lemma_history_bounded(state.history, message);
            },
            EventView::Shutdown => {
                lemma_history_bounded(state.history, farewell(now));
            },
            _ => {},
        }
    }
}

/// Disconnecting a user who is not connected does nothing: the state stays
/// as it is and the caller is asked for nothing.
pub proof fn lemma_unknown_disconnect(
    state: ServerView,
    id: UserId,
    now: Timestamp,
    actions: Seq<ActionView>,
)
    requires
        !state.clients.contains_key(id.0),
        actions_fit(state, EventView::DisconnectClient { id }, now, actions),
    ensures
        next_state(state, EventView::DisconnectClient { id }, now) == state,
        actions.len() == 0,
{
    assert(state.clients.remove(id.0) =~= state.clients);
}

/// After a delivery, each recipient whose write failed is disconnected
/// exactly once, and nobody else is.
pub proof fn lemma_disconnections(recipients: Seq<UserId>, failed: Seq<UserId>)
    requires
        recipients.no_duplicates(),
    ensures
        disconnections(recipients, failed).no_duplicates(),
        forall|event: EventView| #[trigger]
            disconnections(recipients, failed).contains(event) ==> event is DisconnectClient,
        forall|id: UserId|
            #[trigger] disconnections(recipients, failed).contains(
                EventView::DisconnectClient { id },
            ) <==> recipients.contains(id) && failed.contains(id),
    decreases recipients.len(),
{
    let all = disconnections(recipients, failed);
    if recipients.len() > 0 {
        let earlier = disconnections(recipients.drop_last(), failed);
        let last = recipients.last();
        lemma_disconnections(recipients.drop_last(), failed);
        assert(!recipients.drop_last().contains(last)) by {
            if recipients.drop_last().contains(last) {
                let j = choose|j: int|
                    0 <= j < recipients.len() - 1 && recipients.drop_last()[j] == last;
                assert(recipients[j] == recipients[recipients.len() - 1]);
            }
        }
        assert forall|id: UserId|
            #[trigger] all.contains(EventView::DisconnectClient { id }) <==> recipients.contains(id)
                && failed.contains(id) by {
            let event = EventView::DisconnectClient { id };
            if recipients.contains(id) {
                let j = choose|j: int| 0 <= j < recipients.len() && recipients[j] == id;
                if j < recipients.len() - 1 {
                    assert(recipients.drop_last()[j] == id);
                }
            }
            if recipients.drop_last().contains(id) {
                let j = choose|j: int|
                    0 <= j < recipients.len() - 1 && recipients.drop_last()[j] == id;
                assert(recipients[j] == id);
            }
            if failed.contains(last) {
                if all.contains(event) {
                    let k = choose|k: int| 0 <= k < all.len() && all[k] == event;
                    if k < earlier.len() {
                        assert(earlier[k] == event);
                    }
                }
                if earlier.contains(event) {
                    let k = choose|k: int| 0 <= k < earlier.len() && earlier[k] == event;
                    assert(all[k] == event);
                }
                if id == last {
                    assert(all[all.len() - 1] == event);
                }
            }
        }
        assert forall|event: EventView| #[trigger] all.contains(event) implies event
            is DisconnectClient by {
            let k = choose|k: int| 0 <= k < all.len() && all[k] == event;
            if k < earlier.len() {
                assert(earlier[k] == event);
                assert(earlier.contains(event));
            }
        }
        if failed.contains(last) {
            assert(!earlier.contains(EventView::DisconnectClient { id: last }));
            assert forall|i: int, j: int| 0 <= i < all.len() && 0 <= j < all.len() && i != j implies all[i]
                != all[j] by {
                if i < earlier.len() && j < earlier.len() {
                    assert(earlier[i] != earlier[j]);
                } else if i < earlier.len() {
                    assert(earlier.contains(earlier[i]));
                } else {
                    assert(earlier.contains(earlier[j]));
                }
            }
        }
    }
}

/// When a message to the world has been tried, the writes that failed are
/// no error of the message: nobody is notified, and the followups are the
/// disconnections alone.
pub proof fn lemma_world_followups(
    plan: DeliveryView,
    state: ServerView,
    from: Option<ChatTarget>,
    failed: Seq<UserId>,
)
    requires
        plans_delivery(plan, state, from, ChatTarget::Global),
    ensures
        followup_events(plan, failed) == disconnections(plan.recipients, failed),
{
    assert(followup_events(plan, failed) =~= disconnections(plan.recipients, failed));
}

/// Shutdown is final: handling it leaves the client table empty and the
/// server stopped, and from then on every event leaves the state as it is
/// and asks nothing of the caller.
pub proof fn lemma_shutdown_is_final(
    state: ServerView,
    now: Timestamp,
    later: EventView,
    then: Timestamp,
    actions: Seq<ActionView>,
)
    requires
        state.running,
        actions_fit(next_state(state, EventView::Shutdown, now), later, then, actions),
    ensures
        next_state(state, EventView::Shutdown, now).clients == Map::<u32, Client>::empty(),
        !next_state(state, EventView::Shutdown, now).running,
        next_state(next_state(state, EventView::Shutdown, now), later, then) == next_state(
            state,
            EventView::Shutdown,
            now,
        ),
        actions.len() == 0,
{
}

} // verus!
