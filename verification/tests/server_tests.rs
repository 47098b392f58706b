use tavern::common::{
    ChatTarget, ClientContext, Event, Message, MessageTone, ServerError, SystemNotification,
    UserId,
};
use tavern::server::{Action, Delivery, TavernServer, MESSAGE_HISTORY_LEN, TCP_PORT};
use tavern::time::{Timestamp, UtcOffset};
use tavern::watcher::{watch_step, WatchStep, Watched};

fn at(secs: u64) -> Timestamp {
    Timestamp::new(secs, 0).unwrap()
}

fn server_with_clients(count: u32) -> TavernServer {
    let mut server = TavernServer::new();
    for _ in 0..count {
        server.handle_event_at(Event::NewClient, at(1));
    }
    server
}

fn chat(from: u32, to: ChatTarget, content: &str) -> Message {
    Message::at(Some(ChatTarget::user(from)), to, content, None, at(2))
}

fn notice(to: u32, content: &str) -> Event {
    Event::NotifyClient {
        notification: SystemNotification { to: UserId(to), content: content.to_string() },
    }
}

fn sorted(ids: &[UserId]) -> Vec<UserId> {
    let mut ids = ids.to_vec();
    ids.sort();
    ids
}

#[test]
fn constants_are_as_documented() {
    assert_eq!(MESSAGE_HISTORY_LEN, 100);
    assert_eq!(TCP_PORT, "127.0.0.1:8080");
}

#[test]
fn a_new_server_is_empty_and_running() {
    let server = TavernServer::new();
    assert!(server.is_running());
    assert_eq!(server.client_count(), 0);
    assert_eq!(server.history_len(), 0);
    assert_eq!(server.context_of(UserId(0)), None);
    assert!(server.history_entry(0).is_none());
}

#[test]
fn new_clients_get_rising_numbers_and_a_welcome() {
    let mut server = TavernServer::new();
    for expected in 0..3u32 {
        let actions = server.handle_event(Event::NewClient);
        assert_eq!(
            actions,
            vec![
                Action::Admit { id: UserId(expected) },
                Action::Enqueue { events: vec![notice(expected, "Welcome to Tavern chat!")] },
            ]
        );
        assert_eq!(server.context_of(UserId(expected)), Some(ClientContext::default()));
    }
    assert_eq!(server.client_count(), 3);
}

#[test]
fn numbers_are_not_reused_after_a_disconnect() {
    let mut server = server_with_clients(2);
    server.handle_event(Event::DisconnectClient { id: UserId(1) });
    let actions = server.handle_event(Event::NewClient);
    assert_eq!(actions[0], Action::Admit { id: UserId(2) });
    assert_eq!(server.context_of(UserId(1)), None);
    assert_eq!(server.client_count(), 2);
}

#[test]
fn disconnecting_a_client_closes_its_connection() {
    let mut server = server_with_clients(3);
    let actions = server.handle_event(Event::DisconnectClient { id: UserId(1) });
    assert_eq!(actions, vec![Action::Disconnect { id: UserId(1) }]);
    assert_eq!(server.client_count(), 2);
    assert!(server.context_of(UserId(0)).is_some());
    assert!(server.context_of(UserId(1)).is_none());
    assert!(server.context_of(UserId(2)).is_some());
}

#[test]
fn disconnecting_an_unknown_user_is_a_no_op() {
    let mut server = server_with_clients(3);
    let actions = server.handle_event(Event::DisconnectClient { id: UserId(77) });
    assert_eq!(actions, vec![]);
    assert_eq!(server.client_count(), 3);
    server.remove_clients(UserId(78));
    assert_eq!(server.client_count(), 3);
    server.handle_event(Event::DisconnectClient { id: UserId(2) });
    let again = server.handle_event(Event::DisconnectClient { id: UserId(2) });
    assert_eq!(again, vec![]);
    assert_eq!(server.client_count(), 2);
}

#[test]
fn lines_from_a_live_client_are_parsed_with_its_context() {
    let mut server = server_with_clients(2);
    let actions = server.handle_event_at(
        Event::ReceiveUserMessage { from: UserId(1), message_raw: "/yell hey".to_string() },
        at(9),
    );
    let expected = Message::at(
        Some(ChatTarget::user(1)),
        ChatTarget::Global,
        "hey",
        Some(MessageTone::Yelled),
        at(9),
    );
    assert_eq!(
        actions,
        vec![Action::Enqueue { events: vec![Event::BroadcastMessage { message: expected }] }]
    );
    assert_eq!(server.context_of(UserId(1)).unwrap().tone, MessageTone::Yelled);
    assert_eq!(server.context_of(UserId(0)).unwrap().tone, MessageTone::Said);
    let actions = server.handle_event_at(
        Event::ReceiveUserMessage { from: UserId(1), message_raw: "".to_string() },
        at(9),
    );
    assert_eq!(actions, vec![Action::Enqueue { events: vec![] }]);
}

#[test]
fn lines_from_a_departed_client_are_dropped() {
    let mut server = server_with_clients(1);
    let actions = server.handle_event(Event::ReceiveUserMessage {
        from: UserId(5),
        message_raw: "/shutdown".to_string(),
    });
    assert_eq!(actions, vec![]);
    assert!(server.is_running());
}

#[test]
fn change_of_target_needs_a_known_target_and_requester() {
    let mut server = server_with_clients(2);
    let to_user = |id: u32, to: ChatTarget| Event::ChangeTarget { id: UserId(id), to };
    assert_eq!(server.handle_event(to_user(0, ChatTarget::user(1))), vec![]);
    assert_eq!(server.context_of(UserId(0)).unwrap().current_target, ChatTarget::user(1));
    server.handle_event(to_user(0, ChatTarget::user(9)));
    assert_eq!(server.context_of(UserId(0)).unwrap().current_target, ChatTarget::user(1));
    server.handle_event(to_user(0, ChatTarget::npc(0)));
    assert_eq!(server.context_of(UserId(0)).unwrap().current_target, ChatTarget::user(1));
    server.handle_event(to_user(0, ChatTarget::Global));
    assert_eq!(server.context_of(UserId(0)).unwrap().current_target, ChatTarget::Global);
    server.handle_event(to_user(7, ChatTarget::Global));
    assert_eq!(server.client_count(), 2);
    assert_eq!(server.context_of(UserId(7)), None);
    server.handle_event(to_user(1, ChatTarget::user(1)));
    assert_eq!(server.context_of(UserId(1)).unwrap().current_target, ChatTarget::user(1));
}

#[test]
fn change_of_target_keeps_the_tone() {
    let mut server = server_with_clients(2);
    server.handle_event(Event::ReceiveUserMessage {
        from: UserId(0),
        message_raw: "/whisper".to_string(),
    });
    server.handle_event(Event::ChangeTarget { id: UserId(0), to: ChatTarget::user(1) });
    assert_eq!(
        server.context_of(UserId(0)),
        Some(ClientContext { current_target: ChatTarget::user(1), tone: MessageTone::Whispered })
    );
}

#[test]
fn history_keeps_the_last_hundred_messages() {
    let mut server = server_with_clients(1);
    for i in 0..100 {
        server.broadcast_message(chat(0, ChatTarget::Global, &format!("m{}", i)));
        assert_eq!(server.history_len(), i + 1);
    }
    assert_eq!(server.history_entry(0).unwrap().content, "m0");
    server.broadcast_message(chat(0, ChatTarget::Global, "m100"));
    assert_eq!(server.history_len(), 100);
    assert_eq!(server.history_entry(0).unwrap().content, "m1");
    assert_eq!(server.history_entry(98).unwrap().content, "m99");
    assert_eq!(server.history_entry(99).unwrap().content, "m100");
    assert!(server.history_entry(100).is_none());
    for i in 101..250 {
        server.handle_event(Event::BroadcastMessage {
            message: chat(0, ChatTarget::user(44), &format!("m{}", i)),
        });
        assert_eq!(server.history_len(), 100);
    }
    assert_eq!(server.history_entry(0).unwrap().content, "m150");
    assert_eq!(server.history_entry(99).unwrap().content, "m249");
}

#[test]
fn a_message_to_the_world_reaches_every_client_once() {
    let mut server = server_with_clients(3);
    let message = chat(1, ChatTarget::Global, "hello");
    let actions = server.handle_event(Event::BroadcastMessage { message: message.clone() });
    assert_eq!(actions.len(), 1);
    match &actions[0] {
        Action::Deliver { message: sent, delivery } => {
            assert_eq!(sent, &message);
            assert_eq!(delivery.to, ChatTarget::Global);
            assert_eq!(delivery.from, Some(ChatTarget::user(1)));
            assert_eq!(delivery.error, None);
            assert_eq!(sorted(&delivery.recipients), vec![UserId(0), UserId(1), UserId(2)]);
        }
        other => panic!("unexpected action {:?}", other),
    }
    assert_eq!(server.history_len(), 1);
}

#[test]
fn one_failed_write_of_three_queues_one_disconnect() {
    let mut server = server_with_clients(3);
    let delivery = server.broadcast_message(chat(0, ChatTarget::Global, "hello"));
    assert_eq!(delivery.recipients.len(), 3);
    let delivered: Vec<UserId> =
        delivery.recipients.iter().copied().filter(|id| *id != UserId(1)).collect();
    assert_eq!(sorted(&delivered), vec![UserId(0), UserId(2)]);
    let followups = delivery.followups(&vec![UserId(1)]);
    assert_eq!(followups, vec![Event::DisconnectClient { id: UserId(1) }]);
    assert_eq!(server.client_count(), 3);
    for event in followups {
        server.handle_event(event);
    }
    assert_eq!(server.client_count(), 2);
    assert_eq!(server.context_of(UserId(1)), None);
}

#[test]
fn failed_writes_are_disconnected_once_each_in_recipient_order() {
    let delivery = Delivery {
        to: ChatTarget::Global,
        from: Some(ChatTarget::user(4)),
        recipients: vec![UserId(4), UserId(2), UserId(9), UserId(0)],
        error: None,
    };
    assert_eq!(delivery.followups(&vec![]), vec![]);
    let followups = delivery.followups(&vec![UserId(0), UserId(9), UserId(0), UserId(33)]);
    assert_eq!(
        followups,
        vec![Event::DisconnectClient { id: UserId(9) }, Event::DisconnectClient { id: UserId(0) }]
    );
}

#[test]
fn a_message_to_a_connected_user_is_private() {
    let mut server = server_with_clients(3);
    let delivery = server.broadcast_message(chat(0, ChatTarget::user(2), "psst"));
    assert_eq!(delivery.recipients, vec![UserId(2)]);
    assert_eq!(delivery.error, None);
    assert_eq!(delivery.to, ChatTarget::user(2));
    assert_eq!(delivery.followups(&vec![]), vec![]);
}

#[test]
fn a_failed_write_to_a_user_is_reported_to_the_sender() {
    let mut server = server_with_clients(3);
    let delivery = server.broadcast_message(chat(0, ChatTarget::user(2), "psst"));
    let followups = delivery.followups(&vec![UserId(2)]);
    assert_eq!(
        followups,
        vec![
            notice(0, "Failed to send message: TcpConnectionFailed(UserId(2))"),
            Event::DisconnectClient { id: UserId(2) },
        ]
    );
    assert_eq!(delivery.followups(&vec![UserId(1)]), vec![]);
}

#[test]
fn a_message_to_an_absent_user_is_an_addressing_error() {
    let mut server = server_with_clients(2);
    let delivery = server.broadcast_message(chat(1, ChatTarget::user(9), "anyone?"));
    assert_eq!(delivery.recipients, vec![]);
    assert_eq!(delivery.error, Some(ServerError::InvalidMessageTarget(ChatTarget::user(9))));
    assert_eq!(
        delivery.followups(&vec![]),
        vec![notice(1, "Failed to send message: InvalidMessageTarget(User(UserId(9)))")]
    );
    assert_eq!(server.history_len(), 1);
}

#[test]
fn errors_of_anonymous_messages_are_not_reported() {
    let mut server = server_with_clients(2);
    let message = Message::at(None, ChatTarget::user(9), "system note", None, at(3));
    let delivery = server.broadcast_message(message);
    assert_eq!(delivery.error, Some(ServerError::InvalidMessageTarget(ChatTarget::user(9))));
    assert_eq!(delivery.followups(&vec![]), vec![]);
    let message = Message::at(Some(ChatTarget::npc(1)), ChatTarget::user(9), "npc note", None, at(3));
    let delivery = server.broadcast_message(message);
    assert_eq!(delivery.followups(&vec![]), vec![]);
    let message = Message::at(None, ChatTarget::user(0), "reply", None, at(3));
    let delivery = server.broadcast_message(message);
    assert_eq!(delivery.followups(&vec![UserId(0)]), vec![Event::DisconnectClient { id: UserId(0) }]);
}

#[test]
fn a_message_to_an_npc_is_reported_as_unsupported() {
    let mut server = server_with_clients(2);
    let actions = server.handle_event(Event::BroadcastMessage {
        message: chat(0, ChatTarget::npc(3), "hello npc"),
    });
    assert_eq!(actions.len(), 1);
    let delivery = match &actions[0] {
        Action::Deliver { delivery, .. } => delivery.clone(),
        other => panic!("unexpected action {:?}", other),
    };
    assert_eq!(delivery.recipients, vec![]);
    assert_eq!(delivery.error, Some(ServerError::UnsupportedTarget(ChatTarget::npc(3))));
    assert_eq!(
        delivery.followups(&vec![]),
        vec![notice(0, "Failed to send message: UnsupportedTarget(Npc(NpcId(3)))")]
    );
    assert!(server.is_running());
    assert_eq!(server.history_len(), 1);
}

#[test]
fn notices_go_to_connected_clients_only() {
    let mut server = server_with_clients(2);
    let actions = server.handle_event(notice(1, "hello"));
    assert_eq!(actions.len(), 1);
    match &actions[0] {
        Action::Notify { notification, delivery } => {
            assert_eq!(notification.to, UserId(1));
            assert_eq!(notification.content, "hello");
            assert_eq!(delivery.recipients, vec![UserId(1)]);
            assert_eq!(delivery.from, None);
            assert_eq!(delivery.error, None);
            assert_eq!(delivery.followups(&vec![]), vec![]);
            assert_eq!(
                delivery.followups(&vec![UserId(1)]),
                vec![Event::DisconnectClient { id: UserId(1) }]
            );
        }
        other => panic!("unexpected action {:?}", other),
    }
    assert_eq!(server.handle_event(notice(5, "hello")), vec![]);
    assert_eq!(server.history_len(), 0);
}

#[test]
fn shutdown_empties_the_table_and_stops_the_server() {
    let mut server = server_with_clients(3);
    let actions = server.handle_event_at(Event::Shutdown, at(50));
    assert_eq!(actions.len(), 4);
    match &actions[0] {
        Action::Deliver { message, delivery } => {
            let farewell =
                Message::at(None, ChatTarget::Global, "Server Shutdown! So long!", None, at(50));
            assert_eq!(message, &farewell);
            assert_eq!(sorted(&delivery.recipients), vec![UserId(0), UserId(1), UserId(2)]);
            assert_eq!(delivery.error, None);
        }
        other => panic!("unexpected action {:?}", other),
    }
    assert_eq!(&actions[1..], &[Action::SignalShutdown, Action::DisconnectAll, Action::Stop]);
    assert_eq!(server.client_count(), 0);
    assert!(!server.is_running());
    assert_eq!(server.history_len(), 1);
    assert_eq!(server.history_entry(0).unwrap().content, "Server Shutdown! So long!");
}

#[test]
fn nothing_is_handled_after_shutdown() {
    let mut server = server_with_clients(2);
    server.handle_event(Event::Shutdown);
    let later = [
        Event::NewClient,
        Event::DisconnectClient { id: UserId(0) },
        Event::ReceiveUserMessage { from: UserId(0), message_raw: "hi".to_string() },
        Event::BroadcastMessage { message: chat(0, ChatTarget::Global, "late") },
        Event::ChangeTarget { id: UserId(0), to: ChatTarget::Global },
        notice(0, "late"),
        Event::Shutdown,
    ];
    for event in later {
        assert_eq!(server.handle_event(event), vec![]);
        assert_eq!(server.client_count(), 0);
        assert_eq!(server.history_len(), 1);
        assert!(!server.is_running());
    }
}

#[test]
fn a_shutdown_command_from_a_client_shuts_the_server_down() {
    let mut server = server_with_clients(2);
    let mut queue = vec![Event::ReceiveUserMessage {
        from: UserId(1),
        message_raw: "/shutdown".to_string(),
    }];
    let mut stopped = false;
    while !queue.is_empty() && !stopped {
        let event = queue.remove(0);
        for action in server.handle_event(event) {
            match action {
                Action::Enqueue { events } => queue.extend(events),
                Action::Deliver { delivery, .. } => queue.extend(delivery.followups(&vec![])),
                Action::Stop => stopped = true,
                _ => {}
            }
        }
    }
    assert!(stopped);
    assert_eq!(server.client_count(), 0);
    assert!(!server.is_running());
}

#[test]
fn shutdown_method_only_forgets_the_clients() {
    let mut server = server_with_clients(2);
    server.shutdown();
    assert_eq!(server.client_count(), 0);
    assert!(server.is_running());
    let actions = server.handle_event(Event::NewClient);
    assert_eq!(actions[0], Action::Admit { id: UserId(2) });
}

#[test]
fn a_watcher_forwards_lines_and_stops_at_the_end() {
    let step = watch_step(UserId(4), Watched::Line("/wave".to_string()));
    assert_eq!(
        step.event,
        Some(Event::ReceiveUserMessage { from: UserId(4), message_raw: "/wave".to_string() })
    );
    assert!(step.reads_on);
    let step = watch_step(UserId(4), Watched::Line(String::new()));
    assert!(step.reads_on);
    let step = watch_step(UserId(4), Watched::Closed);
    assert_eq!(step.event, Some(Event::DisconnectClient { id: UserId(4) }));
    assert!(!step.reads_on);
}

#[test]
fn a_watcher_stops_silently_on_the_shutdown_signal() {
    let step = watch_step(UserId(4), Watched::Shutdown);
    assert_eq!(step, WatchStep { event: None, reads_on: false });
}

#[test]
fn a_message_to_the_world_is_written_without_the_private_mark() {
    let mut server = server_with_clients(3);
    let message = chat(0, ChatTarget::Global, "hello");
    let delivery = server.broadcast_message(message.duplicate());
    assert!(!delivery.is_private());
    let line = delivery.output(&message, UtcOffset::utc());
    assert_eq!(line, "1970-01-01 00:00:02 +00:00 0<User> said : hello\n");
    assert_eq!(line, message.to_output(false, UtcOffset::utc()));
    let mut written: Vec<(UserId, String)> = vec![];
    let mut failed = vec![];
    for id in delivery.recipients.iter() {
        if *id == UserId(2) {
            failed.push(*id);
        } else {
            written.push((*id, line.clone()));
        }
    }
    written.sort();
    assert_eq!(written, vec![(UserId(0), line.clone()), (UserId(1), line.clone())]);
    assert_eq!(delivery.followups(&failed), vec![Event::DisconnectClient { id: UserId(2) }]);
}

#[test]
fn a_message_to_a_user_is_written_with_the_private_mark() {
    let mut server = server_with_clients(3);
    let message = chat(0, ChatTarget::user(1), "psst");
    let delivery = server.broadcast_message(message.duplicate());
    assert!(delivery.is_private());
    assert_eq!(delivery.recipients, vec![UserId(1)]);
    let line = delivery.output(&message, UtcOffset::new(3600).unwrap());
    assert_eq!(line, "1970-01-01 01:00:02 +01:00 0<User> said *privately*: psst\n");
    assert_eq!(line, message.to_output(true, UtcOffset::new(3600).unwrap()));
    assert_eq!(delivery.followups(&vec![]), vec![]);
    assert_eq!(server.client_count(), 3);
    let to_npc = server.broadcast_message(chat(0, ChatTarget::npc(1), "x"));
    assert!(to_npc.is_private());
}
