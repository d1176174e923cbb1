use p2pchat::app::{App, ChatMessage};
use p2pchat::connection::{handle_connection_event, Connection, NetworkEvent, PeerId};

fn fresh_app() -> App {
    App::new(Connection::new(PeerId(String::from("local-peer"))))
}

#[test]
fn session_starts_with_default_topic_and_empty_log() {
    let app = fresh_app();
    assert_eq!(app.connection.current_topic, "test-net");
    assert_eq!(app.connection.swarm.generation, 0);
    assert_eq!(app.connection.log.len(), 0);
    assert_eq!(app.connection.local_peer_id, PeerId(String::from("local-peer")));
    assert_eq!(app.history.len(), 0);
}

#[test]
fn chat_message_new_keeps_its_fields() {
    let m = ChatMessage::new(
        Some(PeerId(String::from("peer-a"))),
        Some(String::from("alice")),
        String::from("hi"),
    );
    assert_eq!(m.source_peer_id, Some(PeerId(String::from("peer-a"))));
    assert_eq!(m.nick, Some(String::from("alice")));
    assert_eq!(m.text, "hi");
}

#[test]
fn listening_announcement_is_logged() {
    let mut app = fresh_app();
    handle_connection_event(
        NetworkEvent::NewListenAddr { address: String::from("/ip4/192.168.0.7/tcp/4001") },
        &mut app,
    );
    assert_eq!(app.connection.log.len(), 1);
    assert_eq!(app.connection.log[0], "Listening on /ip4/192.168.0.7/tcp/4001");
    assert_eq!(app.history.len(), 0);
}

#[test]
fn received_message_is_logged_and_echoed_to_history() {
    let mut app = fresh_app();
    handle_connection_event(
        NetworkEvent::Message {
            propagation_source: PeerId(String::from("relay-peer")),
            message_id: String::from("msg-1"),
            source: Some(PeerId(String::from("author-peer"))),
            data: b"hello".to_vec(),
        },
        &mut app,
    );

    assert_eq!(app.connection.log.len(), 1);
    assert_eq!(
        app.connection.log[0],
        "Got message: hello with id: msg-1 from peer: relay-peer"
    );
    assert_eq!(app.history.len(), 1);
    let msg = &app.history[0];
    assert_eq!(msg.source_peer_id, Some(PeerId(String::from("author-peer"))));
    assert_eq!(msg.nick, None);
    assert_eq!(msg.text, "hello");
}

#[test]
fn received_message_without_source_keeps_no_author() {
    let mut app = fresh_app();
    handle_connection_event(
        NetworkEvent::Message {
            propagation_source: PeerId(String::from("relay-peer")),
            message_id: String::from("msg-2"),
            source: None,
            data: b"anon".to_vec(),
        },
        &mut app,
    );
    assert_eq!(app.history.len(), 1);
    assert_eq!(app.history[0].source_peer_id, None);
    assert_eq!(app.history[0].text, "anon");
}

#[test]
fn invalid_utf8_payload_is_decoded_lossily() {
    let mut app = fresh_app();
    handle_connection_event(
        NetworkEvent::Message {
            propagation_source: PeerId(String::from("relay-peer")),
            message_id: String::from("msg-3"),
            source: Some(PeerId(String::from("author-peer"))),
            data: vec![b'h', b'i', 0xff],
        },
        &mut app,
    );
    assert_eq!(app.history.len(), 1);
    assert_eq!(app.history[0].text, "hi\u{FFFD}");
}

#[test]
fn other_behaviour_events_are_logged_by_description() {
    let mut app = fresh_app();
    handle_connection_event(
        NetworkEvent::Behaviour { description: String::from("Subscribed { topic: test-net }") },
        &mut app,
    );
    assert_eq!(app.connection.log.len(), 1);
    assert_eq!(app.connection.log[0], "Subscribed { topic: test-net }");
    assert_eq!(app.history.len(), 0);
}

#[test]
fn transport_errors_are_logged_and_do_not_end_the_session() {
    let mut app = fresh_app();
    handle_connection_event(
        NetworkEvent::TransportError { description: String::from("connection reset") },
        &mut app,
    );
    assert_eq!(app.connection.log.len(), 1);
    assert_eq!(app.connection.log[0], "connection reset");
    assert_eq!(app.connection.swarm.generation, 0);
}

#[test]
fn unrecognized_events_change_nothing() {
    let mut app = fresh_app();
    handle_connection_event(NetworkEvent::Other, &mut app);
    assert_eq!(app.connection.log.len(), 0);
    assert_eq!(app.history.len(), 0);
}

#[test]
fn log_entries_arrive_in_order() {
    let mut app = fresh_app();
    handle_connection_event(
        NetworkEvent::NewListenAddr { address: String::from("/ip4/10.0.0.1/tcp/1") },
        &mut app,
    );
    handle_connection_event(
        NetworkEvent::Behaviour { description: String::from("second") },
        &mut app,
    );
    app.connection.push_log_entry("third");
    assert_eq!(app.connection.log.len(), 3);
    assert_eq!(app.connection.log[0], "Listening on /ip4/10.0.0.1/tcp/1");
    assert_eq!(app.connection.log[1], "second");
    assert_eq!(app.connection.log[2], "third");
}
