//! Value types shared by the parser and the server: identifiers, routing
//! targets, tones and the per-client context.

use crate::text::append_decimal;
use crate::text::decimal;
use crate::text::lemma_decimal_injective;
use crate::time::instant_text;
use crate::time::Timestamp;
use crate::time::UtcOffset;
use vstd::prelude::*;
use vstd::string::*;

verus! {

/// Identifies a connected user. Assigned by the server, counting up from zero.
#[derive(Copy, Clone, Debug, PartialEq, Eq, PartialOrd, Ord, Hash, Structural)]
pub struct UserId(pub u32);

/// Identifies a non-player character. Never interchangeable with a `UserId`.
#[derive(Copy, Clone, Debug, PartialEq, Eq, PartialOrd, Ord, Hash, Structural)]
pub struct NpcId(pub u32);

/// Where a message goes, and what a client is currently talking to.
#[derive(Debug, Copy, Clone, Eq, PartialEq, Structural)]
pub enum ChatTarget {
    /// Every connected client.
    Global,
    /// One user.
    User(UserId),
    /// One non-player character.
    Npc(NpcId),
}

impl ChatTarget {
    /// The target that addresses the user numbered `id`.
    pub fn user(id: u32) -> (target: Self)
        ensures
            target == ChatTarget::User(UserId(id)),
    {
        Self::User(UserId(id))
    }

    /// The target that addresses the non-player character numbered `id`.
    pub fn npc(id: u32) -> (target: Self)
        ensures
            target == ChatTarget::Npc(NpcId(id)),
    {
        Self::Npc(NpcId(id))
    }
}

impl Default for ChatTarget {
    fn default() -> (target: Self)
        ensures
            target == ChatTarget::Global,
    {
        ChatTarget::Global
    }
}

/// A connected session, as far as the server's rules read it: the client's
/// context. The connection itself stays with whoever does the writing.
#[derive(Debug, Clone, Copy, PartialEq, Eq, Structural)]
pub struct Client {
    pub context: ClientContext,
}

/// The manner of speaking attached to a chat message. Cosmetic only.
#[derive(Debug, Clone, Copy, PartialEq, Eq, PartialOrd, Ord, Structural)]
pub enum MessageTone {
    Said,
    Yelled,
    Laughed,
    Whispered,
}

impl Default for MessageTone {
    fn default() -> (tone: Self)
        ensures
            tone == MessageTone::Said,
    {
        MessageTone::Said
    }
}

/// What the server remembers of one client between its commands.
#[derive(Debug, Clone, Copy, PartialEq, Eq, Structural)]
pub struct ClientContext {
    pub current_target: ChatTarget,
    pub tone: MessageTone,
}

impl Default for ClientContext {
    fn default() -> (ctx: Self)
        ensures
            ctx == (ClientContext { current_target: ChatTarget::Global, tone: MessageTone::Said }),
    {
        ClientContext { current_target: ChatTarget::Global, tone: MessageTone::Said }
    }
}

impl UserId {
    /// How a user is named to people: the number, then `<User>`.
    pub open spec fn text(self) -> Seq<char> {
        decimal(self.0 as nat) + "<User>"@
    }

    /// How a user is written for diagnosis: `UserId(` the number `)`.
    pub open spec fn debug_text(self) -> Seq<char> {
        "UserId("@ + decimal(self.0 as nat) + ")"@
    }

    /// The user's display name.
    pub fn to_string(&self) -> (name: String)
        ensures
            name@ == self.text(),
    {
        let mut name = String::new();
        append_decimal(&mut name, self.0);
        name.append("<User>");
        assert(name@ =~= self.text());
        name
    }

    /// Appends the diagnostic form of the id to `out`.
    pub fn append_debug(&self, out: &mut String)
        ensures
            final(out)@ == old(out)@ + self.debug_text(),
    {
        out.append("UserId(");
        append_decimal(out, self.0);
        out.append(")");
        assert(out@ =~= old(out)@ + self.debug_text());
    }
}

impl NpcId {
    /// How a non-player character is named to people: the number, then `<Npc>`.
    pub open spec fn text(self) -> Seq<char> {
        decimal(self.0 as nat) + "<Npc>"@
    }

    /// How the id is written for diagnosis: `NpcId(` the number `)`.
    pub open spec fn debug_text(self) -> Seq<char> {
        "NpcId("@ + decimal(self.0 as nat) + ")"@
    }

    /// The character's display name.
    pub fn to_string(&self) -> (name: String)
        ensures
            name@ == self.text(),
    {
        let mut name = String::new();
        append_decimal(&mut name, self.0);
        name.append("<Npc>");
        assert(name@ =~= self.text());
        name
    }

    /// Appends the diagnostic form of the id to `out`.
    pub fn append_debug(&self, out: &mut String)
        ensures
            final(out)@ == old(out)@ + self.debug_text(),
    {
        out.append("NpcId(");
        append_decimal(out, self.0);
        out.append(")");
        assert(out@ =~= old(out)@ + self.debug_text());
    }
}

impl ChatTarget {
    /// How a target is named to people.
    pub open spec fn text(self) -> Seq<char> {
        match self {
            ChatTarget::Global => "The World"@,
            ChatTarget::User(id) => id.text(),
            ChatTarget::Npc(id) => id.text(),
        }
    }

    /// How a target is written for diagnosis: the variant's name, with the
    /// id in brackets where it has one.
    pub open spec fn debug_text(self) -> Seq<char> {
        match self {
            ChatTarget::Global => "Global"@,
            ChatTarget::User(id) => "User("@ + id.debug_text() + ")"@,
            ChatTarget::Npc(id) => "Npc("@ + id.debug_text() + ")"@,
        }
    }

    /// The target's display name.
    pub fn to_string(&self) -> (name: String)
        ensures
            name@ == self.text(),
    {
        match self {
            ChatTarget::Global => String::from_str("The World"),
            ChatTarget::User(id) => id.to_string(),
            ChatTarget::Npc(id) => id.to_string(),
        }
    }

    /// Appends the diagnostic form of the target to `out`.
    pub fn append_debug(&self, out: &mut String)
        ensures
            final(out)@ == old(out)@ + self.debug_text(),
    {
        match self {
            ChatTarget::Global => {
                out.append("Global");
            },
            ChatTarget::User(id) => {
                out.append("User(");
                id.append_debug(out);
                out.append(")");
                assert(out@ =~= old(out)@ + self.debug_text());
            },
            ChatTarget::Npc(id) => {
                out.append("Npc(");
                id.append_debug(out);
                out.append(")");
                assert(out@ =~= old(out)@ + self.debug_text());
            },
        }
    }
}

/// Every target has one display name, and no two targets share a name:
/// the world, each user and each non-player character can be told apart by
/// how they are displayed.
pub proof fn lemma_target_text_injective(a: ChatTarget, b: ChatTarget)
    requires
        a.text() == b.text(),
    ensures
        a == b,
{
    reveal_strlit("The World");
    reveal_strlit("<User>");
    reveal_strlit("<Npc>");
    let user = "<User>"@;
    let npc = "<Npc>"@;
    let name = a.text();
    match (a, b) {
        (ChatTarget::Global, ChatTarget::Global) => {},
        (ChatTarget::Global, ChatTarget::User(n)) => {
            assert(name.last() == 'd');
            assert(b.text().last() == user[5]);
        },
        (ChatTarget::Global, ChatTarget::Npc(n)) => {
            assert(name.last() == 'd');
            assert(b.text().last() == npc[4]);
        },
        (ChatTarget::User(n), ChatTarget::Global) => {
            assert(b.text().last() == 'd');
            assert(name.last() == user[5]);
        },
        (ChatTarget::Npc(n), ChatTarget::Global) => {
            assert(b.text().last() == 'd');
            assert(name.last() == npc[4]);
        },
        (ChatTarget::User(n), ChatTarget::Npc(m)) => {
            assert(name[name.len() - 2] == user[4]);
            assert(b.text()[name.len() - 2] == npc[3]);
        },
        (ChatTarget::Npc(n), ChatTarget::User(m)) => {
            assert(name[name.len() - 2] == npc[3]);
            assert(b.text()[name.len() - 2] == user[4]);
        },
        (ChatTarget::User(n), ChatTarget::User(m)) => {
            assert(decimal(n.0 as nat) == name.take(name.len() - 6));
            assert(decimal(m.0 as nat) == b.text().take(name.len() - 6));
            lemma_decimal_injective(n.0 as nat, m.0 as nat);
        },
        (ChatTarget::Npc(n), ChatTarget::Npc(m)) => {
            assert(decimal(n.0 as nat) == name.take(name.len() - 5));
            assert(decimal(m.0 as nat) == b.text().take(name.len() - 5));
            lemma_decimal_injective(n.0 as nat, m.0 as nat);
        },
    }
}

impl MessageTone {
    /// The verb that a tone is rendered as.
    pub open spec fn text(self) -> Seq<char> {
        match self {
            MessageTone::Said => "said"@,
            MessageTone::Yelled => "yelled"@,
            MessageTone::Laughed => "laughed"@,
            MessageTone::Whispered => "whispered"@,
        }
    }

    /// The tone's verb.
    pub fn as_str(&self) -> (verb: &'static str)
        ensures
            verb@ == self.text(),
    {
        match self {
            MessageTone::Said => "said",
            MessageTone::Yelled => "yelled",
            MessageTone::Laughed => "laughed",
            MessageTone::Whispered => "whispered",
        }
    }

    /// The tone's verb, as an owned string.
    pub fn to_string(&self) -> (verb: String)
        ensures
            verb@ == self.text(),
    {
        String::from_str(self.as_str())
    }
}

/// The outcome of a server operation that returns nothing on success.
pub type ServerResult = Result<(), ServerError>;

/// Why a message could not be delivered.
#[derive(Debug, Clone, Copy, PartialEq, Eq, Structural)]
pub enum ServerError {
    /// Writing to this user's connection failed.
    TcpConnectionFailed(UserId),
    /// The message names a user who is not connected.
    InvalidMessageTarget(ChatTarget),
    /// The message names a kind of target that the server cannot route to yet.
    UnsupportedTarget(ChatTarget),
}

impl ServerError {
    /// The error as a sentence.
    pub open spec fn text(self) -> Seq<char> {
        match self {
            ServerError::TcpConnectionFailed(id) => "TCP connection failed for user "@ + id.text(),
            ServerError::InvalidMessageTarget(to) => "Invalid target: "@ + to.debug_text(),
            ServerError::UnsupportedTarget(to) => "Unsupported target: "@ + to.debug_text(),
        }
    }

    /// The error written for diagnosis: the variant's name, with what it
    /// holds in brackets.
    pub open spec fn debug_text(self) -> Seq<char> {
        match self {
            ServerError::TcpConnectionFailed(id) => "TcpConnectionFailed("@ + id.debug_text()
                + ")"@,
            ServerError::InvalidMessageTarget(to) => "InvalidMessageTarget("@ + to.debug_text()
                + ")"@,
            ServerError::UnsupportedTarget(to) => "UnsupportedTarget("@ + to.debug_text() + ")"@,
        }
    }

    /// The error as a sentence.
    pub fn to_string(&self) -> (sentence: String)
        ensures
            sentence@ == self.text(),
    {
        match self {
            ServerError::TcpConnectionFailed(id) => {
                let name = id.to_string();
                String::from_str("TCP connection failed for user ").concat(name.as_str())
            },
            ServerError::InvalidMessageTarget(to) => {
                let mut sentence = String::from_str("Invalid target: ");
                to.append_debug(&mut sentence);
                sentence
            },
            ServerError::UnsupportedTarget(to) => {
                let mut sentence = String::from_str("Unsupported target: ");
                to.append_debug(&mut sentence);
                sentence
            },
        }
    }

    /// Appends the diagnostic form of the error to `out`.
    pub fn append_debug(&self, out: &mut String)
        ensures
            final(out)@ == old(out)@ + self.debug_text(),
    {
        match self {
            ServerError::TcpConnectionFailed(id) => {
                out.append("TcpConnectionFailed(");
                id.append_debug(out);
            },
            ServerError::InvalidMessageTarget(to) => {
                out.append("InvalidMessageTarget(");
                to.append_debug(out);
            },
            ServerError::UnsupportedTarget(to) => {
                out.append("UnsupportedTarget(");
                to.append_debug(out);
            },
        }
        out.append(")");
        assert(out@ =~= old(out)@ + self.debug_text());
    }
}

/// A chat message: who sent it, where it goes, what it says, when it was
/// made and in which tone. Made once and never changed.
#[derive(Debug, Clone, PartialEq, Eq)]
pub struct Message {
    /// The sender; `None` for a message that the server itself wrote.
    pub from: Option<ChatTarget>,
    pub to: ChatTarget,
    pub content: String,
    pub timestamp: Timestamp,
    pub tone: MessageTone,
}

/// A `Message` as a mathematical value.
pub struct MessageView {
    pub from: Option<ChatTarget>,
    pub to: ChatTarget,
    pub content: Seq<char>,
    pub timestamp: Timestamp,
    pub tone: MessageTone,
}

impl View for Message {
    type V = MessageView;

    open spec fn view(&self) -> MessageView {
        MessageView {
            from: self.from,
            to: self.to,
            content: self.content@,
            timestamp: self.timestamp,
            tone: self.tone,
        }
    }
}

/// The tone that a message gets: the one asked for, or `Said`.
pub open spec fn tone_or_said(tone: Option<MessageTone>) -> MessageTone {
    match tone {
        Some(t) => t,
        None => MessageTone::Said,
    }
}

/// The line that a message is delivered as, given its timestamp as text:
/// the time, the sender (the world, where there is none), the tone's verb,
/// a mark on private messages, then a colon and the content.
pub open spec fn message_line(stamp: Seq<char>, message: MessageView, is_private: bool) -> Seq<
    char,
> {
    let sender = match message.from {
        Some(from) => from,
        None => ChatTarget::Global,
    };
    let mark = if is_private {
        "*privately*"@
    } else {
        Seq::<char>::empty()
    };
    stamp + " "@ + sender.text() + " "@ + message.tone.text() + " "@ + mark + ": "@
        + message.content + "\n"@
}

impl Message {
    /// A message made at the instant `timestamp`.
    pub fn at(
        from: Option<ChatTarget>,
        to: ChatTarget,
        content: &str,
        tone: Option<MessageTone>,
        timestamp: Timestamp,
    ) -> (message: Message)
        ensures
            message@ == (MessageView {
                from,
                to,
                content: content@,
                timestamp,
                tone: tone_or_said(tone),
            }),
    {
        let tone = match tone {
            Some(t) => t,
            None => MessageTone::Said,
        };
        Message { from, to, content: String::from_str(content), timestamp, tone }
    }

    /// A second message with the same fields.
    pub fn duplicate(&self) -> (copy: Message)
        ensures
            copy@ == self@,
    {
        Message {
            from: self.from,
            to: self.to,
            content: self.content.clone(),
            timestamp: self.timestamp,
            tone: self.tone,
        }
    }

    /// A message made now, by the system clock.
    pub fn new(
        from: Option<ChatTarget>,
        to: ChatTarget,
        content: &str,
        tone: Option<MessageTone>,
    ) -> (message: Message)
        ensures
            message@ == (MessageView {
                from,
                to,
                content: content@,
                timestamp: message.timestamp,
                tone: tone_or_said(tone),
            }),
    {
        Message::at(from, to, content, tone, Timestamp::now())
    }

    /// The line that the message is delivered as, with `stamp` for its time.
    pub fn render(&self, stamp: &str, is_private: bool) -> (line: String)
        ensures
            line@ == message_line(stamp@, self@, is_private),
    {
        let sender = match self.from {
            Some(from) => from,
            None => ChatTarget::Global,
        };
        let name = sender.to_string();
        let mut line = String::from_str(stamp);
        line.append(" ");
        line.append(name.as_str());
        line.append(" ");
        line.append(self.tone.as_str());
        line.append(" ");
        if is_private {
            line.append("*privately*");
        }
        line.append(": ");
        line.append(self.content.as_str());
        line.append("\n");
        assert(line@ =~= message_line(stamp@, self@, is_private));
        line
    }

    /// The line that the message is delivered as to a reader whose clocks
    /// are `offset` ahead of UTC: `message_line`, with the message's
    /// timestamp written in that local time.
    pub fn to_output(&self, is_private: bool, offset: UtcOffset) -> (line: String)
        ensures
            line@ == message_line(
                instant_text(
                    self.timestamp.spec_secs(),
                    self.timestamp.spec_nanos(),
                    offset.spec_secs(),
                ),
                self@,
                is_private,
            ),
    {
        let stamp = self.timestamp.to_local_text(offset);
        self.render(stamp.as_str(), is_private)
    }
}

/// A notice from the server to one client, outside the conversation.
#[derive(Debug, Clone, PartialEq, Eq)]
pub struct SystemNotification {
    pub to: UserId,
    pub content: String,
}

/// A `SystemNotification` as a mathematical value.
pub struct SystemNotificationView {
    pub to: UserId,
    pub content: Seq<char>,
}

impl View for SystemNotification {
    type V = SystemNotificationView;

    open spec fn view(&self) -> SystemNotificationView {
        SystemNotificationView { to: self.to, content: self.content@ }
    }
}

/// The line that a notice is delivered as, given the time of writing as text.
pub open spec fn notice_line(stamp: Seq<char>, content: Seq<char>) -> Seq<char> {
    stamp + " System: "@ + content + "\n"@
}

impl SystemNotification {
    /// The line that the notice is delivered as, with `stamp` for the time.
    pub fn render(&self, stamp: &str) -> (line: String)
        ensures
            line@ == notice_line(stamp@, self@.content),
    {
        let mut line = String::from_str(stamp);
        line.append(" System: ");
        line.append(self.content.as_str());
        line.append("\n");
        assert(line@ =~= notice_line(stamp@, self@.content));
        line
    }

    /// The line that the notice is delivered as when written at the instant
    /// `now` for a reader whose clocks are `offset` ahead of UTC.
    pub fn to_output_at(&self, now: Timestamp, offset: UtcOffset) -> (line: String)
        ensures
            line@ == notice_line(
                instant_text(now.spec_secs(), now.spec_nanos(), offset.spec_secs()),
                self@.content,
            ),
    {
        let stamp = now.to_local_text(offset);
        self.render(stamp.as_str())
    }

    /// The line that the notice is delivered as, stamped with the current
    /// time by the system clock: that of `to_output_at` at some instant.
    pub fn to_output(&self, offset: UtcOffset) -> (line: String)
        ensures
            exists|now: Timestamp|
                line@ == notice_line(
                    #[trigger] instant_text(
                        now.spec_secs(),
                        now.spec_nanos(),
                        offset.spec_secs(),
                    ),
                    self@.content,
                ),
    {
        self.to_output_at(Timestamp::now(), offset)
    }
}

/// What the server is asked to handle, one at a time and in order.
#[derive(Debug, Clone, PartialEq, Eq)]
pub enum Event {
    /// A connection was accepted. The connection itself stays with the caller.
    NewClient,
    DisconnectClient { id: UserId },
    ReceiveUserMessage { from: UserId, message_raw: String },
    BroadcastMessage { message: Message },
    ChangeTarget { id: UserId, to: ChatTarget },
    NotifyClient { notification: SystemNotification },
    Shutdown,
}

/// An `Event` as a mathematical value.
pub enum EventView {
    NewClient,
    DisconnectClient { id: UserId },
    ReceiveUserMessage { from: UserId, message_raw: Seq<char> },
    BroadcastMessage { message: MessageView },
    ChangeTarget { id: UserId, to: ChatTarget },
    NotifyClient { notification: SystemNotificationView },
    Shutdown,
}

impl View for Event {
    type V = EventView;

    open spec fn view(&self) -> EventView {
        match *self {
            Event::NewClient => EventView::NewClient,
            Event::DisconnectClient { id } => EventView::DisconnectClient { id },
            Event::ReceiveUserMessage { from, message_raw } => EventView::ReceiveUserMessage {
                from,
                message_raw: message_raw@,
            },
            Event::BroadcastMessage { message } => EventView::BroadcastMessage {
                message: message@,
            },
            Event::ChangeTarget { id, to } => EventView::ChangeTarget { id, to },
            Event::NotifyClient { notification } => EventView::NotifyClient {
                notification: notification@,
            },
            Event::Shutdown => EventView::Shutdown,
        }
    }
}

/// Puts `event` at the end of `events`.
pub fn emit(events: &mut Vec<Event>, event: Event)
    ensures
        final(events)@ == old(events)@.push(event),
        event_views(final(events)@) == event_views(old(events)@).push(event@),
{
    events.push(event);
    assert(event_views(events@) =~= event_views(old(events)@).push(event@));
}

/// The events of a queue as mathematical values, in the queue's order.
pub open spec fn event_views(events: Seq<Event>) -> Seq<EventView> {
    Seq::new(events.len(), |i: int| events[i]@)
}

} // verus!
