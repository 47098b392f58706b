use tavern::common::{
    ChatTarget, ClientContext, Message, MessageTone, NpcId, ServerError, SystemNotification,
    UserId,
};
use tavern::npcs::{Npc, NpcState};
use tavern::text::{append_decimal, chars_of, parse_u32, spells, token_end};
use tavern::time::{Timestamp, UtcOffset, DAY_SECS, MAX_SECS};

fn message(from: Option<ChatTarget>, to: ChatTarget, content: &str, tone: MessageTone) -> Message {
    Message::at(from, to, content, Some(tone), Timestamp::new(31_536_000, 5).unwrap())
}

#[test]
fn ids_are_displayed_with_their_kind() {
    assert_eq!(UserId(0).to_string(), "0<User>");
    assert_eq!(UserId(42).to_string(), "42<User>");
    assert_eq!(UserId(u32::MAX).to_string(), "4294967295<User>");
    assert_eq!(NpcId(7).to_string(), "7<Npc>");
    assert_eq!(NpcId(1000).to_string(), "1000<Npc>");
}

#[test]
fn targets_are_displayed_and_told_apart() {
    assert_eq!(ChatTarget::Global.to_string(), "The World");
    assert_eq!(ChatTarget::user(3).to_string(), "3<User>");
    assert_eq!(ChatTarget::npc(3).to_string(), "3<Npc>");
    let targets = [
        ChatTarget::Global,
        ChatTarget::user(0),
        ChatTarget::user(1),
        ChatTarget::user(10),
        ChatTarget::npc(0),
        ChatTarget::npc(1),
        ChatTarget::npc(10),
    ];
    for a in targets {
        assert_eq!(a.to_string(), a.to_string());
        for b in targets {
            assert_eq!(a.to_string() == b.to_string(), a == b);
        }
    }
}

#[test]
fn target_constructors_wrap_the_number() {
    assert_eq!(ChatTarget::user(9), ChatTarget::User(UserId(9)));
    assert_eq!(ChatTarget::npc(9), ChatTarget::Npc(NpcId(9)));
    assert_ne!(ChatTarget::user(9), ChatTarget::npc(9));
}

#[test]
fn defaults_are_global_and_said() {
    assert_eq!(ChatTarget::default(), ChatTarget::Global);
    assert_eq!(MessageTone::default(), MessageTone::Said);
    assert_eq!(
        ClientContext::default(),
        ClientContext { current_target: ChatTarget::Global, tone: MessageTone::Said }
    );
    assert_eq!(NpcState::default(), NpcState::Idle);
}

#[test]
fn tones_are_rendered_as_verbs_and_ordered() {
    assert_eq!(MessageTone::Said.to_string(), "said");
    assert_eq!(MessageTone::Yelled.to_string(), "yelled");
    assert_eq!(MessageTone::Laughed.to_string(), "laughed");
    assert_eq!(MessageTone::Whispered.as_str(), "whispered");
    assert!(MessageTone::Said < MessageTone::Yelled);
    assert!(MessageTone::Yelled < MessageTone::Laughed);
    assert!(MessageTone::Laughed < MessageTone::Whispered);
}

#[test]
fn errors_are_written_as_sentences() {
    assert_eq!(
        ServerError::TcpConnectionFailed(UserId(3)).to_string(),
        "TCP connection failed for user 3<User>"
    );
    assert_eq!(
        ServerError::InvalidMessageTarget(ChatTarget::user(5)).to_string(),
        "Invalid target: User(UserId(5))"
    );
    assert_eq!(
        ServerError::UnsupportedTarget(ChatTarget::npc(2)).to_string(),
        "Unsupported target: Npc(NpcId(2))"
    );
}

#[test]
fn diagnostic_text_matches_the_derived_debug() {
    let mut out = String::new();
    UserId(17).append_debug(&mut out);
    assert_eq!(out, format!("{:?}", UserId(17)));
    let mut out = String::from("x");
    NpcId(4).append_debug(&mut out);
    assert_eq!(out, format!("x{:?}", NpcId(4)));
    for target in [ChatTarget::Global, ChatTarget::user(8), ChatTarget::npc(90)] {
        let mut out = String::new();
        target.append_debug(&mut out);
        assert_eq!(out, format!("{:?}", target));
    }
    for error in [
        ServerError::TcpConnectionFailed(UserId(3)),
        ServerError::InvalidMessageTarget(ChatTarget::user(5)),
        ServerError::InvalidMessageTarget(ChatTarget::Global),
        ServerError::UnsupportedTarget(ChatTarget::npc(2)),
    ] {
        let mut out = String::new();
        error.append_debug(&mut out);
        assert_eq!(out, format!("{:?}", error));
    }
}

#[test]
fn message_new_keeps_its_arguments() {
    let made = Message::new(Some(ChatTarget::user(1)), ChatTarget::npc(2), "hi", None);
    assert_eq!(made.from, Some(ChatTarget::user(1)));
    assert_eq!(made.to, ChatTarget::npc(2));
    assert_eq!(made.content, "hi");
    assert_eq!(made.tone, MessageTone::Said);
    assert!(made.timestamp.secs() > 1_600_000_000);
    assert!(made.timestamp.secs() <= MAX_SECS);
    let made = Message::new(None, ChatTarget::Global, "", Some(MessageTone::Laughed));
    assert_eq!(made.from, None);
    assert_eq!(made.tone, MessageTone::Laughed);
    assert_eq!(made.content, "");
}

#[test]
fn message_at_keeps_the_instant() {
    let stamp = Timestamp::new(12, 34).unwrap();
    let made = Message::at(None, ChatTarget::Global, "x", Some(MessageTone::Yelled), stamp);
    assert_eq!(made.timestamp, stamp);
    assert_eq!(made.tone, MessageTone::Yelled);
    assert_eq!(made.duplicate(), made);
}

#[test]
fn message_lines_are_rendered_exactly() {
    let m = message(Some(ChatTarget::user(3)), ChatTarget::Global, "hi all", MessageTone::Said);
    assert_eq!(m.render("T", false), "T 3<User> said : hi all\n");
    assert_eq!(m.render("T", true), "T 3<User> said *privately*: hi all\n");
    let m = message(None, ChatTarget::user(3), "note", MessageTone::Whispered);
    assert_eq!(m.render("12:00", true), "12:00 The World whispered *privately*: note\n");
    let m = message(Some(ChatTarget::npc(1)), ChatTarget::Global, "", MessageTone::Yelled);
    assert_eq!(m.render("", false), " 1<Npc> yelled : \n");
}

fn offset(secs: i32) -> UtcOffset {
    UtcOffset::new(secs).unwrap()
}

#[test]
fn message_output_is_stamped_in_the_readers_local_time() {
    let m = message(Some(ChatTarget::user(3)), ChatTarget::Global, "hi all", MessageTone::Laughed);
    assert_eq!(
        m.to_output(false, UtcOffset::utc()),
        "1971-01-01 00:00:00.000000005 +00:00 3<User> laughed : hi all\n"
    );
    assert_eq!(
        m.to_output(true, offset(3600)),
        "1971-01-01 01:00:00.000000005 +01:00 3<User> laughed *privately*: hi all\n"
    );
    assert_eq!(
        m.to_output(false, offset(-19_800)),
        "1970-12-31 18:30:00.000000005 -05:30 3<User> laughed : hi all\n"
    );
    let stamp = m.timestamp.to_local_text(offset(3600));
    assert_eq!(m.render(&stamp, true), m.to_output(true, offset(3600)));
}

#[test]
fn notification_lines_are_rendered_exactly() {
    let n = SystemNotification { to: UserId(1), content: "Welcome!".to_string() };
    assert_eq!(n.render("T"), "T System: Welcome!\n");
    let at = Timestamp::new(1_700_000_000, 0).unwrap();
    assert_eq!(
        n.to_output_at(at, UtcOffset::utc()),
        "2023-11-14 22:13:20 +00:00 System: Welcome!\n"
    );
    assert_eq!(
        n.to_output_at(at, offset(-7200)),
        "2023-11-14 20:13:20 -02:00 System: Welcome!\n"
    );
    let line = n.to_output(offset(7200));
    assert!(line.ends_with(" +02:00 System: Welcome!\n"), "{:?}", line);
    assert!(line.starts_with("20"), "{:?}", line);
}

#[test]
fn offsets_are_less_than_a_day() {
    assert_eq!(DAY_SECS, 86_400);
    assert_eq!(UtcOffset::utc(), offset(0));
    assert_eq!(offset(-5).secs(), -5);
    assert!(UtcOffset::new(86_399).is_some());
    assert!(UtcOffset::new(-86_399).is_some());
    assert!(UtcOffset::new(86_400).is_none());
    assert!(UtcOffset::new(-86_400).is_none());
    assert!(UtcOffset::new(i32::MIN).is_none());
    assert!(UtcOffset::new(i32::MAX).is_none());
}

#[test]
fn timestamps_keep_to_their_range() {
    let t = Timestamp::new(5, 6).unwrap();
    assert_eq!((t.secs(), t.nanos()), (5, 6));
    assert!(Timestamp::new(MAX_SECS, 999_999_999).is_some());
    assert!(Timestamp::new(MAX_SECS + 1, 0).is_none());
    assert!(Timestamp::new(0, 1_000_000_000).is_none());
    assert_eq!(Timestamp::epoch(), Timestamp::new(0, 0).unwrap());
    assert_eq!(Timestamp::from_reading(7, 8), Timestamp::new(7, 8).unwrap());
    assert_eq!(Timestamp::from_reading(u64::MAX, 8), Timestamp::new(MAX_SECS, 0).unwrap());
    assert_eq!(Timestamp::from_reading(1, u32::MAX), Timestamp::new(MAX_SECS, 0).unwrap());
}

#[test]
fn the_clock_is_read() {
    let first = Timestamp::now();
    let second = Timestamp::now();
    assert!(first.secs() > 1_600_000_000);
    assert!(first.nanos() < 1_000_000_000);
    assert!(second.secs() + 5 > first.secs());
    assert!(second.secs() < first.secs() + 5);
}

#[test]
fn local_text_at_the_ends_of_the_ranges() {
    let last = Timestamp::new(MAX_SECS, 999_999_999).unwrap();
    assert_eq!(last.to_local_text(UtcOffset::utc()), "9999-12-31 23:59:59.999999999 +00:00");
    assert_eq!(last.to_local_text(offset(86_399)), "+10000-01-01 23:59:58.999999999 +23:59:59");
    assert_eq!(last.to_local_text(offset(-86_399)), "9999-12-31 00:00:00.999999999 -23:59:59");
    let first = Timestamp::epoch();
    assert_eq!(first.to_local_text(UtcOffset::utc()), "1970-01-01 00:00:00 +00:00");
    assert_eq!(first.to_local_text(offset(-86_399)), "1969-12-31 00:00:01 -23:59:59");
    assert_eq!(first.to_local_text(offset(86_399)), "1970-01-01 23:59:59 +23:59:59");
}

#[test]
fn local_text_shows_fractions_of_a_second() {
    let at = |nanos: u32| Timestamp::new(1_700_000_000, nanos).unwrap();
    assert_eq!(at(0).to_local_text(offset(19_800)), "2023-11-15 03:43:20 +05:30");
    assert_eq!(at(123_000_000).to_local_text(offset(0)), "2023-11-14 22:13:20.123 +00:00");
    assert_eq!(at(123_456_000).to_local_text(offset(0)), "2023-11-14 22:13:20.123456 +00:00");
    assert_eq!(at(1).to_local_text(offset(-1)), "2023-11-14 22:13:19.000000001 -00:00:01");
}

#[test]
fn decimal_numbers_are_written_and_read_back() {
    for n in [0u32, 1, 9, 10, 11, 99, 100, 101, 12345, 4294967295] {
        let mut out = String::from("n=");
        append_decimal(&mut out, n);
        assert_eq!(out, format!("n={}", n));
        let chars = chars_of(&out);
        assert_eq!(parse_u32(&chars, 2), Some(n));
    }
}

#[test]
fn numbers_are_read_from_an_offset() {
    let chars = chars_of("ab+12");
    assert_eq!(parse_u32(&chars, 2), Some(12));
    assert_eq!(parse_u32(&chars, 3), Some(12));
    assert_eq!(parse_u32(&chars, 4), Some(2));
    assert_eq!(parse_u32(&chars, 5), None);
    assert_eq!(parse_u32(&chars, 0), None);
    assert_eq!(parse_u32(&chars_of("4294967296"), 0), None);
    assert_eq!(parse_u32(&chars_of("4294967295"), 0), Some(u32::MAX));
    assert_eq!(parse_u32(&chars_of("42949672950"), 0), None);
}

#[test]
fn words_are_matched_without_regard_to_case() {
    let chars = chars_of("/SaY hello");
    let end = token_end(&chars);
    assert_eq!(end, 4);
    assert!(spells(&chars, end, "/say"));
    assert!(!spells(&chars, end, "/sa"));
    assert!(!spells(&chars, end, "/says"));
    assert!(!spells(&chars, end, "/SAY"));
    assert!(!spells(&chars, end, "/yay"));
    assert!(spells(&chars, 0, ""));
    assert_eq!(token_end(&chars_of("nospace")), 7);
    assert_eq!(token_end(&chars_of(" lead")), 0);
    assert_eq!(token_end(&chars_of("")), 0);
    assert!(!spells(&chars_of("@say"), 4, "`say"));
    assert!(!spells(&chars_of("[x"), 2, "{x"));
}

#[test]
fn characters_are_copied_in_order() {
    let chars = chars_of("héllo ☀");
    assert_eq!(chars, vec!['h', 'é', 'l', 'l', 'o', ' ', '☀']);
    assert_eq!(chars_of(""), vec![]);
}

#[test]
fn a_new_npc_is_idle_and_unnamed() {
    let npc = Npc::default();
    let shown = format!("{:?}", npc);
    assert!(shown.contains("\"Unnamed\""), "{}", shown);
    assert!(shown.contains("Idle"), "{}", shown);
}
