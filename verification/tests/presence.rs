use rchat::database::Store;
use rchat::models::user::{PasswordType, ProfileType, User};
use rchat::services::server::{create_server, join_server};
use rchat::websocket::connection::{set_presence, ConnectionManager};
use rchat::websocket::events::{
    reply_to, writer_step, ClientMessage, ServerMessage, WriterAction, WriterEvent,
};

fn world() -> Store {
    let mut s = Store::new();
    for name in ["owner", "mia", "zed"] {
        s.users.push(User::new(
            name.to_string(),
            "h".to_string(),
            PasswordType::Text,
            None,
            ProfileType::Identicon(String::new()),
            false,
        ));
    }
    create_server(&mut s, "Club".to_string(), "owner".to_string()).unwrap();
    create_server(&mut s, "Other".to_string(), "zed".to_string()).unwrap();
    join_server(&mut s, "Club".to_string(), "mia".to_string()).unwrap();
    join_server(&mut s, "Other".to_string(), "mia".to_string()).unwrap();
    s
}

fn flags(s: &Store, name: &str) -> Vec<i64> {
    s.server_members.iter().filter(|m| m.username == name).map(|m| m.is_online).collect()
}

fn presence(server: &str, user: &str, online: bool) -> ServerMessage {
    ServerMessage::UserOnlineStatusChanged {
        server_name: server.to_string(),
        username: user.to_string(),
        is_online: online,
    }
}

#[test]
fn connecting_marks_online_everywhere() {
    let mut s = world();
    let mut m = ConnectionManager::new();
    let (handle, events) = m.connect(&mut s, "mia".to_string());
    assert!(!handle.is_empty());
    assert_eq!(m.connections.len(), 1);
    assert_eq!(m.connections[0].id, handle);
    assert_eq!(m.connections[0].username, "mia");
    assert_eq!(events, vec![presence("Club", "mia", true), presence("Other", "mia", true)]);
    assert_eq!(flags(&s, "mia"), vec![1, 1]);
    assert_eq!(flags(&s, "owner"), vec![0]);
    assert!(m.is_online("MIA"));
    assert!(!m.is_online("zed"));
}

#[test]
fn two_connections_then_one_then_none() {
    let mut s = world();
    let mut m = ConnectionManager::new();
    let (first, _) = m.connect(&mut s, "mia".to_string());
    let (second, events) = m.connect(&mut s, "mia".to_string());
    assert_eq!(events.len(), 2);
    assert_ne!(first, second);
    let online = s.clone();
    let events = m.disconnect(&mut s, &first);
    assert!(events.is_empty());
    assert_eq!(s, online);
    assert_eq!(flags(&s, "mia"), vec![1, 1]);
    assert_eq!(m.connections.len(), 1);
    let events = m.disconnect(&mut s, &second);
    assert_eq!(events, vec![presence("Club", "mia", false), presence("Other", "mia", false)]);
    assert_eq!(flags(&s, "mia"), vec![0, 0]);
    assert!(m.connections.is_empty());
    // a connection is closed once: closing it again does nothing
    let offline = s.clone();
    assert!(m.disconnect(&mut s, &second).is_empty());
    assert_eq!(s, offline);
}

#[test]
fn guests_have_no_presence() {
    let mut s = world();
    join_server(&mut s, "Club".to_string(), "guest".to_string()).unwrap();
    let before = s.clone();
    let mut m = ConnectionManager::new();
    let (handle, events) = m.connect(&mut s, "guest".to_string());
    assert!(events.is_empty());
    assert_eq!(s, before);
    assert_eq!(m.connections.len(), 1);
    assert!(m.disconnect(&mut s, &handle).is_empty());
    assert_eq!(s, before);
    assert!(m.connections.is_empty());
}

#[test]
fn presence_of_others_is_untouched() {
    let mut s = world();
    let mut m = ConnectionManager::new();
    let (mia, _) = m.connect(&mut s, "mia".to_string());
    let (_zed, _) = m.connect(&mut s, "zed".to_string());
    let events = m.disconnect(&mut s, &mia);
    assert_eq!(events.len(), 2);
    assert_eq!(flags(&s, "mia"), vec![0, 0]);
    assert_eq!(flags(&s, "zed"), vec![1]);
    assert_eq!(m.connections.len(), 1);
    assert_eq!(m.connections[0].username, "zed");
}

#[test]
fn presence_is_set_by_name_whatever_the_case() {
    let mut s = world();
    let events = set_presence(&mut s, "MIA", true);
    assert_eq!(events, vec![presence("Club", "MIA", true), presence("Other", "MIA", true)]);
    assert_eq!(flags(&s, "mia"), vec![1, 1]);
    assert!(set_presence(&mut s, "nobody", true).is_empty());
}

#[test]
fn published_events_reach_every_receiver_in_order() {
    let m = ConnectionManager::new();
    // without a receiver, publishing is no failure
    m.broadcast(ServerMessage::Pong);
    let mut first = m.subscribe();
    let mut second = m.subscribe();
    let events = vec![
        presence("Club", "mia", true),
        ServerMessage::Pong,
        presence("Club", "mia", false),
    ];
    assert_eq!(m.publish(events.clone()), 3);
    for rx in [&mut first, &mut second] {
        for e in &events {
            assert_eq!(&rx.try_recv().unwrap(), e);
        }
        assert!(rx.try_recv().is_err());
    }
    // a receiver sees only what is published after it subscribed
    let mut late = m.subscribe();
    m.broadcast(ServerMessage::Pong);
    assert_eq!(late.try_recv().unwrap(), ServerMessage::Pong);
    assert!(late.try_recv().is_err());
}

#[test]
fn a_slow_receiver_loses_its_oldest_events() {
    let m = ConnectionManager::new();
    let mut rx = m.subscribe();
    for i in 0..1500 {
        m.broadcast(ServerMessage::FileDownloaded { file_id: "f".to_string(), download_count: i });
    }
    assert!(rx.try_recv().is_err());
    match rx.try_recv().unwrap() {
        ServerMessage::FileDownloaded { download_count, .. } => assert!(download_count > 0),
        other => panic!("unexpected event: {:?}", other),
    }
}

#[test]
fn the_writer_passes_over_drops_and_stops_on_failure() {
    assert_eq!(writer_step(WriterEvent::Received(ServerMessage::Pong)), WriterAction::Write(ServerMessage::Pong));
    assert_eq!(writer_step(WriterEvent::Lagged(12)), WriterAction::Receive);
    assert_eq!(writer_step(WriterEvent::NotSerialized), WriterAction::Receive);
    assert_eq!(writer_step(WriterEvent::Written), WriterAction::Receive);
    assert_eq!(writer_step(WriterEvent::Closed), WriterAction::Stop);
    assert_eq!(writer_step(WriterEvent::WriteFailed), WriterAction::Stop);
}

#[test]
fn a_default_registry_is_empty() {
    assert!(ConnectionManager::default().connections.is_empty());
}

#[test]
fn only_a_heartbeat_is_answered() {
    assert_eq!(reply_to(&ClientMessage::Heartbeat), Some(ServerMessage::Pong));
    assert_eq!(reply_to(&ClientMessage::Typing { channel_id: "c".to_string() }), None);
    assert_eq!(reply_to(&ClientMessage::Subscribe { channel_id: "c".to_string() }), None);
    assert_eq!(reply_to(&ClientMessage::Unsubscribe { channel_id: "c".to_string() }), None);
    assert_eq!(
        reply_to(&ClientMessage::SendMessage { channel_id: "c".to_string(), content: "x".to_string() }),
        None
    );
}
