//! The command parser: turns one line from a client into the events that it
//! causes, and updates that client's context.
//!
//! What a line means is written down once, as `outcome_of`, a function of
//! the line and the context alone. The executable parser is proved to emit
//! exactly the events it names.

use crate::common::emit;
use crate::common::event_views;
use crate::common::ChatTarget;
use crate::common::ClientContext;
use crate::common::Event;
use crate::common::EventView;
use crate::common::Message;
use crate::common::MessageTone;
use crate::common::MessageView;
use crate::common::NpcId;
use crate::common::ServerError;
use crate::common::UserId;
use crate::text::chars_of;
use crate::text::lemma_token_len;
use crate::text::lowered;
use crate::text::parse_u32;
use crate::text::parsed_u32;
use crate::text::spells;
use crate::text::token_end;
use crate::text::token_len;
use crate::time::Timestamp;
use vstd::prelude::*;
use vstd::string::*;

verus! {

/// What the first word of a command line asks for.
#[derive(Debug, Clone, Copy, PartialEq, Eq, Structural)]
pub enum Command {
    /// Speak in the given tone.
    Say(MessageTone),
    ToUser,
    ToNpc,
    ToWorld,
    Wave,
    Poke,
    Lol,
    Cry,
    Dance,
    Shutdown,
    Unknown,
}

/// The command that a word names, whatever the case of its letters.
pub open spec fn command_of(token: Seq<char>) -> Command {
    let word = lowered(token);
    if word == "/say"@ || word == "/s"@ {
        Command::Say(MessageTone::Said)
    } else if word == "/yell"@ {
        Command::Say(MessageTone::Yelled)
    } else if word == "/laugh"@ {
        Command::Say(MessageTone::Laughed)
    } else if word == "/whisper"@ || word == "/w"@ {
        Command::Say(MessageTone::Whispered)
    } else if word == "/to_user"@ {
        Command::ToUser
    } else if word == "/to_npc"@ {
        Command::ToNpc
    } else if word == "/to_world"@ || word == "/to_everyone"@ || word == "/global"@ {
        Command::ToWorld
    } else if word == "/wave"@ {
        Command::Wave
    } else if word == "/poke"@ {
        Command::Poke
    } else if word == "/lol"@ {
        Command::Lol
    } else if word == "/cry"@ {
        Command::Cry
    } else if word == "/dance"@ {
        Command::Dance
    } else if word == "/shutdown"@ {
        Command::Shutdown
    } else {
        Command::Unknown
    }
}

/// The first word of a line: what comes before its first space.
pub open spec fn command_word(line: Seq<char>) -> Seq<char> {
    line.take(token_len(line) as int)
}

/// What follows the first space of a line; nothing where it has no space.
pub open spec fn remainder(line: Seq<char>) -> Seq<char> {
    if token_len(line) < line.len() {
        line.skip(token_len(line) as int + 1)
    } else {
        Seq::<char>::empty()
    }
}

/// The event that carries `content` from the user `from` to `to`.
pub open spec fn chat_event(
    from: UserId,
    to: ChatTarget,
    content: Seq<char>,
    tone: MessageTone,
    now: Timestamp,
) -> EventView {
    EventView::BroadcastMessage {
        message: MessageView {
            from: Some(ChatTarget::User(from)),
            to,
            content,
            timestamp: now,
            tone,
        },
    }
}

/// What speaking `content` emits: one chat event, or nothing for no content.
pub open spec fn spoken(
    from: UserId,
    to: ChatTarget,
    content: Seq<char>,
    tone: MessageTone,
    now: Timestamp,
) -> Seq<EventView> {
    if content.len() > 0 {
        seq![chat_event(from, to, content, tone, now)]
    } else {
        Seq::<EventView>::empty()
    }
}

/// What the speaker is told after speaking to `target`: nothing for the
/// world, else whom the words went to and the words.
pub open spec fn acknowledgement(target: ChatTarget, content: Seq<char>) -> Option<Seq<char>> {
    match target {
        ChatTarget::Global => None,
        ChatTarget::User(id) => Some("To "@ + id.text() + ": "@ + content),
        ChatTarget::Npc(id) => Some("To "@ + id.text() + ": "@ + content),
    }
}

/// The event that carries a reply back to the user who sent the line: a
/// message from the server, ending in a prompt that shows the user's tone.
pub open spec fn reply_event(
    from: UserId,
    reply: Seq<char>,
    tone: MessageTone,
    now: Timestamp,
) -> EventView {
    EventView::BroadcastMessage {
        message: MessageView {
            from: None,
            to: ChatTarget::User(from),
            content: reply + "\n"@ + tone.text() + " >"@,
            timestamp: now,
            tone: MessageTone::Said,
        },
    }
}

/// The canned words of an emote aimed at `target`.
pub open spec fn emote_text(command: Command, target: ChatTarget) -> Seq<char> {
    match command {
        Command::Wave => "You waved at "@ + target.text() + ". Wassup?"@,
        Command::Poke => "You poked "@ + target.text() + ". Hey!"@,
        Command::Lol => "You laughed out loud. A ha HA!"@,
        Command::Cry => "You cried on "@ + target.text() + "'s shoulder. There there."@,
        _ => "You danced on top of a table! What a jolly time!"@,
    }
}

/// What a line does beyond setting the tone: the events emitted, and the
/// reply owed to the sender, if any.
pub struct Outcome {
    pub emitted: Seq<EventView>,
    pub reply: Option<Seq<char>>,
}

/// The outcome of changing the target to what `rest` numbers, through
/// `make`; a usage note where `rest` is no number.
pub open spec fn retarget(
    from: UserId,
    rest: Seq<char>,
    make: spec_fn(u32) -> ChatTarget,
    usage: Seq<char>,
) -> Outcome {
    match parsed_u32(rest) {
        Some(n) => Outcome {
            emitted: seq![EventView::ChangeTarget { id: from, to: make(n) }],
            reply: None,
        },
        None => Outcome { emitted: Seq::<EventView>::empty(), reply: Some(usage) },
    }
}

/// The tone that a line leaves in the context: a speaking command sets its
/// own, `/lol` sets `Laughed`, and anything else leaves the tone as it was.
pub open spec fn tone_after(line: Seq<char>, ctx: ClientContext) -> MessageTone {
    if line.len() == 0 || line[0] != '/' {
        ctx.tone
    } else {
        match command_of(command_word(line)) {
            Command::Say(tone) => tone,
            Command::Lol => MessageTone::Laughed,
            _ => ctx.tone,
        }
    }
}

/// The outcome of the line `line` from the user `from`, whose context is
/// `ctx`, at the instant `now`.
pub open spec fn outcome_of(
    from: UserId,
    line: Seq<char>,
    ctx: ClientContext,
    now: Timestamp,
) -> Outcome {
    let target = ctx.current_target;
    if line.len() == 0 {
        Outcome { emitted: Seq::<EventView>::empty(), reply: None }
    } else if line[0] != '/' {
        Outcome {
            emitted: spoken(from, target, line, ctx.tone, now),
            reply: acknowledgement(target, line),
        }
    } else {
        let rest = remainder(line);
        let command = command_of(command_word(line));
        match command {
            Command::Say(tone) => Outcome {
                emitted: spoken(from, target, rest, tone, now),
                reply: acknowledgement(target, rest),
            },
            Command::ToUser => retarget(
                from,
                rest,
                |n: u32| ChatTarget::User(UserId(n)),
                "Invalid target. please use /to_user <id>"@,
            ),
            Command::ToNpc => retarget(
                from,
                rest,
                |n: u32| ChatTarget::Npc(NpcId(n)),
                "Invalid target. please use /to_npc <id>"@,
            ),
            Command::ToWorld => Outcome {
                emitted: seq![EventView::ChangeTarget { id: from, to: ChatTarget::Global }],
                reply: None,
            },
            Command::Lol => Outcome {
                emitted: seq![
                    chat_event(
                        from,
                        target,
                        emote_text(command, target),
                        MessageTone::Laughed,
                        now,
                    ),
                ],
                reply: None,
            },
            Command::Wave | Command::Poke | Command::Cry | Command::Dance => Outcome {
                emitted: seq![
                    chat_event(from, target, emote_text(command, target), ctx.tone, now),
                ],
                reply: None,
            },
            Command::Shutdown => Outcome {
                emitted: seq![EventView::Shutdown],
                reply: None,
            },
            Command::Unknown => Outcome {
                emitted: Seq::<EventView>::empty(),
                reply: Some("Unknown command."@),
            },
        }
    }
}

/// The events that a line causes, in the order in which they are emitted:
/// what the command emits, then the reply to the sender, if one is owed.
pub open spec fn events_of(
    from: UserId,
    line: Seq<char>,
    ctx: ClientContext,
    now: Timestamp,
) -> Seq<EventView> {
    let outcome = outcome_of(from, line, ctx, now);
    match outcome.reply {
        Some(reply) => outcome.emitted.push(
            reply_event(from, reply, tone_after(line, ctx), now),
        ),
        None => outcome.emitted,
    }
}

/// The context that a line leaves behind: the target as it was, the tone as
/// the command set it.
pub open spec fn context_after(line: Seq<char>, ctx: ClientContext) -> ClientContext {
    ClientContext { current_target: ctx.current_target, tone: tone_after(line, ctx) }
}

/// The tone that speaking leaves: the new one where one is given, else the
/// one that the context had.
pub open spec fn tone_spoken(new_tone: Option<MessageTone>, current: MessageTone) -> MessageTone {
    match new_tone {
        Some(tone) => tone,
        None => current,
    }
}

/// The command that the first `len` characters of `chars` name.
fn classify(chars: &Vec<char>, len: usize) -> (command: Command)
    requires
        len <= chars.len(),
    ensures
        command == command_of(chars@.take(len as int)),
{
    if spells(chars, len, "/say") || spells(chars, len, "/s") {
        Command::Say(MessageTone::Said)
    } else if spells(chars, len, "/yell") {
        Command::Say(MessageTone::Yelled)
    } else if spells(chars, len, "/laugh") {
        Command::Say(MessageTone::Laughed)
    } else if spells(chars, len, "/whisper") || spells(chars, len, "/w") {
        Command::Say(MessageTone::Whispered)
    } else if spells(chars, len, "/to_user") {
        Command::ToUser
    } else if spells(chars, len, "/to_npc") {
        Command::ToNpc
    } else if spells(chars, len, "/to_world") || spells(chars, len, "/to_everyone") || spells(
        chars,
        len,
        "/global",
    ) {
        Command::ToWorld
    } else if spells(chars, len, "/wave") {
        Command::Wave
    } else if spells(chars, len, "/poke") {
        Command::Poke
    } else if spells(chars, len, "/lol") {
        Command::Lol
    } else if spells(chars, len, "/cry") {
        Command::Cry
    } else if spells(chars, len, "/dance") {
        Command::Dance
    } else if spells(chars, len, "/shutdown") {
        Command::Shutdown
    } else {
        Command::Unknown
    }
}

/// Speaks `msg` to the context's target: sets the tone where a new one is
/// given, emits the chat event unless `msg` is empty, and returns what the
/// speaker is to be told.
fn say_something(
    from: UserId,
    msg: &str,
    client_ctx: &mut ClientContext,
    events: &mut Vec<Event>,
    new_tone: Option<MessageTone>,
    now: Timestamp,
) -> (reply: Option<String>)
    ensures
        *final(client_ctx) == (ClientContext {
            current_target: old(client_ctx).current_target,
            tone: tone_spoken(new_tone, old(client_ctx).tone),
        }),
        event_views(final(events)@) == event_views(old(events)@) + spoken(
            from,
            old(client_ctx).current_target,
            msg@,
            final(client_ctx).tone,
            now,
        ),
        match reply {
            Some(text) => acknowledgement(old(client_ctx).current_target, msg@) == Some(text@),
            None => acknowledgement(old(client_ctx).current_target, msg@) is None,
        },
{
    let tone = match new_tone {
        Some(tone) => {
            client_ctx.tone = tone;
            tone
        },
        None => client_ctx.tone,
    };
    let to = client_ctx.current_target;
    if !msg.is_empty() {
        emit(
            events,
            Event::BroadcastMessage {
                message: Message::at(Some(ChatTarget::User(from)), to, msg, Some(tone), now),
            },
        );
    }
    assert(event_views(events@) =~= event_views(old(events)@) + spoken(
        from,
        to,
        msg@,
        tone,
        now,
    ));
    let name = match to {
        ChatTarget::User(id) => id.to_string(),
        ChatTarget::Npc(id) => id.to_string(),
        ChatTarget::Global => {
            return None;
        },
    };
    let mut text = String::from_str("To ");
    text.append(name.as_str());
    text.append(": ");
    text.append(msg);
    assert(acknowledgement(to, msg@) == Some(text@)) by {
        assert(text@ =~= "To "@ + name@ + ": "@ + msg@);
    }
    Some(text)
}

/// Emits the chat event of an emote, whose words are `text`.
fn emote(
    from: UserId,
    text: &str,
    client_ctx: &mut ClientContext,
    events: &mut Vec<Event>,
    new_tone: Option<MessageTone>,
    now: Timestamp,
)
    requires
        text@.len() > 0,
    ensures
        *final(client_ctx) == (ClientContext {
            current_target: old(client_ctx).current_target,
            tone: tone_spoken(new_tone, old(client_ctx).tone),
        }),
        event_views(final(events)@) == event_views(old(events)@).push(
            chat_event(from, old(client_ctx).current_target, text@, final(client_ctx).tone, now),
        ),
{
    let _ = say_something(from, text, client_ctx, events, new_tone, now);
    assert(event_views(events@) =~= event_views(old(events)@).push(
        chat_event(from, old(client_ctx).current_target, text@, client_ctx.tone, now),
    ));
}

/// Handles `/to_user` and `/to_npc`: emits the change of target where `rest`
/// is a number, else returns the usage note.
fn change_target(
    from: UserId,
    chars: &Vec<char>,
    start: usize,
    to_npc: bool,
    events: &mut Vec<Event>,
) -> (reply: Option<String>)
    requires
        start <= chars.len(),
    ensures
        match parsed_u32(chars@.subrange(start as int, chars.len() as int)) {
            Some(n) => reply is None && event_views(final(events)@) == event_views(old(events)@).push(
                EventView::ChangeTarget {
                    id: from,
                    to: if to_npc {
                        ChatTarget::Npc(NpcId(n))
                    } else {
                        ChatTarget::User(UserId(n))
                    },
                },
            ),
            None => {
                &&& final(events)@ == old(events)@
                &&& reply matches Some(text)
                &&& text@ == if to_npc {
                    "Invalid target. please use /to_npc <id>"@
                } else {
                    "Invalid target. please use /to_user <id>"@
                }
            },
        },
{
    match parse_u32(chars, start) {
        Some(n) => {
            let to = if to_npc {
                ChatTarget::npc(n)
            } else {
                ChatTarget::user(n)
            };
            emit(events, Event::ChangeTarget { id: from, to });
            None
        },
        None => {
            if to_npc {
                Some(String::from_str("Invalid target. please use /to_npc <id>"))
            } else {
                Some(String::from_str("Invalid target. please use /to_user <id>"))
            }
        },
    }
}

/// Parses one line from the user `from` at the instant `now`: returns the
/// events that it causes, in order, and leaves in `client_ctx` the tone
/// that the command set. The target in `client_ctx` is never changed here.
pub fn parse_incoming_message_at(
    from: UserId,
    message_raw: &str,
    client_ctx: &mut ClientContext,
    now: Timestamp,
) -> (events: Vec<Event>)
    ensures
        event_views(events@) == events_of(from, message_raw@, *old(client_ctx), now),
        *final(client_ctx) == context_after(message_raw@, *old(client_ctx)),
{
    let mut events: Vec<Event> = Vec::new();
    let ghost line = message_raw@;
    let ghost before = *client_ctx;
    let ghost outcome = outcome_of(from, line, before, now);
    assert(event_views(events@) =~= Seq::<EventView>::empty());
    if message_raw.is_empty() {
        return events;
    }
    let chars = chars_of(message_raw);
    let target = client_ctx.current_target;
    let reply: Option<String>;
    if chars[0] == '/' {
        let end = token_end(&chars);
        let start: usize = if end < chars.len() {
            end + 1
        } else {
            end
        };
        let msg = message_raw.substring_char(start, chars.len());
        assert(msg@ =~= remainder(line));
        assert(chars@.subrange(start as int, chars.len() as int) =~= remainder(line));
        let command = classify(&chars, end);
        match command {
            Command::Say(tone) => {
                reply = say_something(from, msg, client_ctx, &mut events, Some(tone), now);
            },
            Command::ToUser => {
                reply = change_target(from, &chars, start, false, &mut events);
            },
            Command::ToNpc => {
                reply = change_target(from, &chars, start, true, &mut events);
            },
            Command::ToWorld => {
                emit(&mut events, Event::ChangeTarget { id: from, to: ChatTarget::Global });
                reply = None;
            },
            Command::Wave => {
                let name = target.to_string();
                let mut text = String::from_str("You waved at ");
                text.append(name.as_str());
                text.append(". Wassup?");
                proof {
                    reveal_strlit("You waved at ");
                    assert(text@ =~= emote_text(command, target));
                }
                emote(from, text.as_str(), client_ctx, &mut events, None, now);
                reply = None;
            },
            Command::Poke => {
                let name = target.to_string();
                let mut text = String::from_str("You poked ");
                text.append(name.as_str());
                text.append(". Hey!");
                proof {
                    reveal_strlit("You poked ");
                    assert(text@ =~= emote_text(command, target));
                }
                emote(from, text.as_str(), client_ctx, &mut events, None, now);
                reply = None;
            },
            Command::Lol => {
                proof {
                    reveal_strlit("You laughed out loud. A ha HA!");
                }
                emote(
                    from,
                    "You laughed out loud. A ha HA!",
                    client_ctx,
                    &mut events,
                    Some(MessageTone::Laughed),
                    now,
                );
                reply = None;
            },
            Command::Cry => {
                let name = target.to_string();
                let mut text = String::from_str("You cried on ");
                text.append(name.as_str());
                text.append("'s shoulder. There there.");
                proof {
                    reveal_strlit("You cried on ");
                    assert(text@ =~= emote_text(command, target));
                }
                emote(from, text.as_str(), client_ctx, &mut events, None, now);
                reply = None;
            },
            Command::Dance => {
                proof {
                    reveal_strlit("You danced on top of a table! What a jolly time!");
                }
                emote(
                    from,
                    "You danced on top of a table! What a jolly time!",
                    client_ctx,
                    &mut events,
                    None,
                    now,
                );
                reply = None;
            },
            Command::Shutdown => {
                emit(&mut events, Event::Shutdown);
                reply = None;
            },
            Command::Unknown => {
                reply = Some(String::from_str("Unknown command."));
            },
        }
    } else {
        reply = say_something(from, message_raw, client_ctx, &mut events, None, now);
    }
    assert(*client_ctx == context_after(line, before));
    assert(event_views(events@) =~= outcome.emitted);
    match reply {
        Some(text) => {
            assert(outcome.reply == Some(text@));
            let mut content = text;
            content.append("\n");
            content.append(client_ctx.tone.as_str());
            content.append(" >");
            assert(content@ =~= text@ + "\n"@ + tone_after(line, before).text() + " >"@);
            emit(
                &mut events,
                Event::BroadcastMessage {
                    message: Message::at(
                        None,
                        ChatTarget::User(from),
                        content.as_str(),
                        None,
                        now,
                    ),
                },
            );
        },
        None => {
            assert(outcome.reply is None);
        },
    }
    events
}

/// Parses one line from the user `from`, stamping what it emits with the
/// current time: the events are those of `parse_incoming_message_at` at
/// some instant. Parsing never fails.
pub fn parse_incoming_message(
    from: UserId,
    message_raw: String,
    client_ctx: &mut ClientContext,
) -> (result: Result<Vec<Event>, ServerError>)
    ensures
        result is Ok,
        exists|now: Timestamp|
            event_views(result->Ok_0@) == events_of(from, message_raw@, *old(client_ctx), now),
        *final(client_ctx) == context_after(message_raw@, *old(client_ctx)),
{
    let now = Timestamp::now();
    let events = parse_incoming_message_at(from, message_raw.as_str(), client_ctx, now);
    Ok(events)
}

/// A line that is no command is spoken as it stands: its first event
/// carries the line to the context's target in the context's tone, no
/// other event has the line for its content, and the context is left as it
/// was. A target other than the world adds one event, the acknowledgement
/// to the sender.
pub proof fn lemma_plain_line(from: UserId, line: Seq<char>, ctx: ClientContext, now: Timestamp)
    requires
        line.len() > 0,
        line[0] != '/',
    ensures
        ({
            let events = events_of(from, line, ctx, now);
            &&& events.len() == if ctx.current_target is Global {
                1nat
            } else {
                2nat
            }
            &&& events[0] == chat_event(from, ctx.current_target, line, ctx.tone, now)
            &&& forall|i: int|
                0 <= i < events.len() ==> ((#[trigger] events[i] matches EventView::BroadcastMessage {
                    message,
                } && message.content == line) <==> i == 0)
        }),
        context_after(line, ctx) == ctx,
{
    reveal_strlit("To ");
    let events = events_of(from, line, ctx, now);
    match acknowledgement(ctx.current_target, line) {
        Some(reply) => {
            assert(reply.len() > line.len());
            assert(events[1] == reply_event(from, reply, ctx.tone, now));
        },
        None => {},
    }
}

/// The four speaking commands and their two short forms name the tones
/// that they are called after.
pub proof fn lemma_speaking_words()
    ensures
        command_of("/say"@) == Command::Say(MessageTone::Said),
        command_of("/s"@) == Command::Say(MessageTone::Said),
        command_of("/yell"@) == Command::Say(MessageTone::Yelled),
        command_of("/laugh"@) == Command::Say(MessageTone::Laughed),
        command_of("/whisper"@) == Command::Say(MessageTone::Whispered),
        command_of("/w"@) == Command::Say(MessageTone::Whispered),
{
    reveal_strlit("/say");
    reveal_strlit("/s");
    reveal_strlit("/yell");
    reveal_strlit("/laugh");
    reveal_strlit("/whisper");
    reveal_strlit("/w");
    assert(lowered("/say"@) =~= "/say"@);
    assert(lowered("/s"@) =~= "/s"@);
    assert(lowered("/yell"@) =~= "/yell"@);
    assert(lowered("/laugh"@) =~= "/laugh"@);
    assert(lowered("/whisper"@) =~= "/whisper"@);
    assert(lowered("/w"@) =~= "/w"@);
    assert("/w"@[1] != "/s"@[1]);
}

/// A speaking command sets the context's tone to its own, and what it
/// says, if anything, is said in that tone.
pub proof fn lemma_speaking_sets_tone(
    from: UserId,
    line: Seq<char>,
    ctx: ClientContext,
    now: Timestamp,
    tone: MessageTone,
)
    requires
        line.len() > 0,
        line[0] == '/',
        command_of(command_word(line)) == Command::Say(tone),
    ensures
        context_after(line, ctx).tone == tone,
        context_after(line, ctx).current_target == ctx.current_target,
        remainder(line).len() > 0 ==> events_of(from, line, ctx, now)[0] == chat_event(
            from,
            ctx.current_target,
            remainder(line),
            tone,
            now,
        ),
{
}

/// A speaking command with something to say emits the chat event alone
/// while the target is the world; with a user or a non-player character
/// for target it emits two events: the chat event, then the
/// acknowledgement to the sender.
pub proof fn lemma_speaking_events(
    from: UserId,
    line: Seq<char>,
    ctx: ClientContext,
    now: Timestamp,
    tone: MessageTone,
)
    requires
        line.len() > 0,
        line[0] == '/',
        command_of(command_word(line)) == Command::Say(tone),
        remainder(line).len() > 0,
    ensures
        ({
            let events = events_of(from, line, ctx, now);
            let chat = chat_event(from, ctx.current_target, remainder(line), tone, now);
            match ctx.current_target {
                ChatTarget::Global => events == seq![chat],
                ChatTarget::User(id) => events == seq![
                    chat,
                    reply_event(from, "To "@ + id.text() + ": "@ + remainder(line), tone, now),
                ],
                ChatTarget::Npc(id) => events == seq![
                    chat,
                    reply_event(from, "To "@ + id.text() + ": "@ + remainder(line), tone, now),
                ],
            }
        }),
{
    let events = events_of(from, line, ctx, now);
    let chat = chat_event(from, ctx.current_target, remainder(line), tone, now);
    match ctx.current_target {
        ChatTarget::Global => {
            assert(events =~= seq![chat]);
        },
        ChatTarget::User(id) => {
            assert(events =~= seq![
                chat,
                reply_event(from, "To "@ + id.text() + ": "@ + remainder(line), tone, now),
            ]);
        },
        ChatTarget::Npc(id) => {
            assert(events =~= seq![
                chat,
                reply_event(from, "To "@ + id.text() + ": "@ + remainder(line), tone, now),
            ]);
        },
    }
}

/// `/to_user` with a number emits the change of target and nothing else;
/// with anything else it emits the usage note to the sender and no change
/// of target. The context is left as it was either way.
pub proof fn lemma_to_user(from: UserId, line: Seq<char>, ctx: ClientContext, now: Timestamp)
    requires
        line.len() > 0,
        line[0] == '/',
        command_of(command_word(line)) == Command::ToUser,
    ensures
        events_of(from, line, ctx, now) == match parsed_u32(remainder(line)) {
            Some(n) => seq![
                EventView::ChangeTarget { id: from, to: ChatTarget::User(UserId(n)) },
            ],
            None => seq![
                reply_event(from, "Invalid target. please use /to_user <id>"@, ctx.tone, now),
            ],
        },
        context_after(line, ctx) == ctx,
{
    let events = events_of(from, line, ctx, now);
    match parsed_u32(remainder(line)) {
        Some(n) => {
            assert(events =~= seq![
                EventView::ChangeTarget { id: from, to: ChatTarget::User(UserId(n)) },
            ]);
        },
        None => {
            assert(events =~= seq![
                reply_event(from, "Invalid target. please use /to_user <id>"@, ctx.tone, now),
            ]);
        },
    }
}

/// `/shutdown` asks the server to shut down and does nothing else: it
/// emits the shutdown event alone and leaves the context as it was.
pub proof fn lemma_shutdown_command(
    from: UserId,
    line: Seq<char>,
    ctx: ClientContext,
    now: Timestamp,
)
    requires
        line.len() > 0,
        line[0] == '/',
        command_of(command_word(line)) == Command::Shutdown,
    ensures
        events_of(from, line, ctx, now) == seq![EventView::Shutdown],
        context_after(line, ctx) == ctx,
{
}

/// A command line is split at its first space: the command word holds no
/// space, and the word, one space and the remainder make up the line again.
/// A line without a space is all command word and has no remainder.
pub proof fn lemma_split_at_first_space(line: Seq<char>)
    ensures
        !command_word(line).contains(' '),
        line.contains(' ') ==> line == command_word(line) + seq![' '] + remainder(line),
        !line.contains(' ') ==> command_word(line) == line && remainder(line).len() == 0,
{
    lemma_token_len(line);
    let word = command_word(line);
    let at = token_len(line) as int;
    if word.contains(' ') {
        let j = choose|j: int| 0 <= j < word.len() && word[j] == ' ';
        assert(line[j] == ' ');
    }
    if at < line.len() {
        assert(line =~= word + seq![' '] + remainder(line));
    } else {
        assert(word =~= line);
        if line.contains(' ') {
            let j = choose|j: int| 0 <= j < line.len() && line[j] == ' ';
        }
    }
    if !line.contains(' ') && at < line.len() {
        assert(line[at] == ' ');
    }
}

} // verus!
