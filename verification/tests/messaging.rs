use rchat::database::Store;
use rchat::models::message::{ContentType, Message};
use rchat::models::user::{PasswordType, ProfileType, User};
use rchat::services::chat::{create_message, get_channel_messages, verify_username_exists};
use rchat::services::direct_message::get_or_create_dm;
use rchat::services::messaging::{
    check_channel_send, check_dm_send, classify, delete_message, get_messages,
    send_channel_message, send_dm_message, send_message, MessageTarget, SendMessageRequest,
};
use rchat::services::server::{add_member, create_server, update_member_role};
use rchat::models::server_member::ServerRole;
use rchat::utils::error::AppError;

fn user(name: &str, admin: bool) -> User {
    User::new(
        name.to_string(),
        "hash".to_string(),
        PasswordType::Text,
        None,
        ProfileType::Person("#112233".to_string()),
        admin,
    )
}

/// A store with a site administrator "root", a community "Club" created by
/// "owner" with the member "mia", a stranger "zed", and the conversation of
/// "mia" and "owner". Returns the store, the channel and the conversation.
fn club() -> (Store, String, String) {
    let mut s = Store::new();
    s.users.push(user("root", true));
    s.users.push(user("owner", false));
    s.users.push(user("mia", false));
    s.users.push(user("zed", false));
    create_server(&mut s, "Club".to_string(), "owner".to_string()).unwrap();
    add_member(&mut s, "Club".to_string(), "mia".to_string(), ServerRole::Member);
    let channel = s.channels[0].id.clone();
    let dm = get_or_create_dm(&mut s, "owner".to_string(), "mia".to_string()).unwrap();
    (s, channel, dm.id)
}

fn to_channel(channel: &str, content: &str) -> SendMessageRequest {
    SendMessageRequest {
        target_type: MessageTarget::Channel,
        target_id: channel.to_string(),
        content: content.to_string(),
        content_type: "text".to_string(),
        file_id: None,
    }
}

fn to_dm(dm: &str, content: &str) -> SendMessageRequest {
    SendMessageRequest {
        target_type: MessageTarget::DirectMessage,
        target_id: dm.to_string(),
        content: content.to_string(),
        content_type: "text".to_string(),
        file_id: None,
    }
}

#[test]
fn channel_message_is_stored_and_enriched() {
    let (mut s, channel, _) = club();
    let sent = send_message(&mut s, to_channel(&channel, "hello there"), "mia").unwrap();
    assert_eq!(s.messages.len(), 1);
    assert_eq!(s.messages[0], sent.message);
    assert_eq!(sent.message.channel_id, Some(channel));
    assert_eq!(sent.message.dm_id, None);
    assert_eq!(sent.message.sender_username, "mia");
    assert_eq!(sent.message.content, "hello there");
    assert_eq!(sent.message.content_type, "text");
    assert_eq!(sent.message.filter_status, "clean");
    assert_eq!(sent.message.filtered_content, None);
    assert_eq!(sent.message.is_deleted, 0);
    assert_eq!(sent.message.edited_at, None);
    assert_eq!(sent.sender_profile_type, "person");
    assert_eq!(sent.sender_avatar_color, Some("#112233".to_string()));
    assert!(s.file_attachments.is_empty());
}

#[test]
fn profanity_is_filtered_in_channels_only() {
    let (mut s, channel, dm) = club();
    let raw = "what the fuck";
    let in_channel = send_message(&mut s, to_channel(&channel, raw), "mia").unwrap();
    assert_eq!(in_channel.message.filter_status, "filtered");
    let copy = in_channel.message.filtered_content.clone().unwrap();
    assert!(!copy.is_empty());
    assert_ne!(copy, raw);
    assert!(copy.contains('*'));
    assert_eq!(in_channel.message.content, raw);

    let in_dm = send_message(&mut s, to_dm(&dm, raw), "mia").unwrap();
    assert_eq!(in_dm.message.filter_status, "clean");
    assert_eq!(in_dm.message.filtered_content, None);
    assert_eq!(in_dm.message.content, raw);
    assert_eq!(in_dm.message.dm_id, Some(dm));
    assert_eq!(in_dm.message.channel_id, None);
}

#[test]
fn classification_of_the_censors_verdict() {
    assert_eq!(classify("****".to_string(), true), ("filtered", Some("****".to_string())));
    assert_eq!(classify("fine".to_string(), false), ("clean", None));
}

#[test]
fn sending_is_refused_for_content_target_and_standing() {
    let (mut s, channel, dm) = club();
    let before = s.clone();
    assert_eq!(
        send_message(&mut s, to_channel(&channel, ""), "mia"),
        Err(AppError::Validation("Message content cannot be empty".to_string()))
    );
    let long = "x".repeat(4001);
    assert_eq!(
        send_message(&mut s, to_channel(&channel, &long), "mia"),
        Err(AppError::Validation(
            "Message content must be at most 4000 characters long".to_string()
        ))
    );
    assert!(send_message(&mut s.clone(), to_channel(&channel, &"x".repeat(4000)), "mia").is_ok());
    assert_eq!(
        send_message(&mut s, to_channel("no-such-channel", "hi"), "mia"),
        Err(AppError::NotFound("Channel not found".to_string()))
    );
    assert_eq!(
        send_message(&mut s, to_channel(&channel, "hi"), "zed"),
        Err(AppError::Unauthorized(
            "You must be a member of the server to send messages".to_string()
        ))
    );
    assert_eq!(
        send_message(&mut s, to_dm("no-such-dm", "hi"), "mia"),
        Err(AppError::NotFound("Direct message conversation not found".to_string()))
    );
    assert_eq!(
        send_message(&mut s, to_dm(&dm, "hi"), "zed"),
        Err(AppError::Unauthorized("You are not part of this conversation".to_string()))
    );
    assert_eq!(s, before);
}

#[test]
fn each_way_of_sending_checks_target_standing_and_content_in_this_order() {
    let (mut s, channel, dm) = club();
    let before = s.clone();
    let empty = Err(AppError::Validation("Message content cannot be empty".to_string()));
    let long =
        Err(AppError::Validation("Message content must be at most 4000 characters long".to_string()));
    assert_eq!(send_channel_message(&mut s, &channel, "mia", "", "text", None), empty);
    assert_eq!(
        send_channel_message(&mut s, "missing", "zed", "", "text", None),
        Err(AppError::NotFound("Channel not found".to_string()))
    );
    assert_eq!(
        send_channel_message(&mut s, &channel, "zed", "", "text", None),
        Err(AppError::Unauthorized("You must be a member of the server to send messages".to_string()))
    );
    assert_eq!(
        send_channel_message(&mut s, &channel, "zed", &"y".repeat(4001), "text", None),
        Err(AppError::Unauthorized("You must be a member of the server to send messages".to_string()))
    );
    assert_eq!(send_channel_message(&mut s, &channel, "mia", &"y".repeat(4001), "text", None), long);
    assert_eq!(send_dm_message(&mut s, &dm, "mia", "", "text", None), empty);
    assert_eq!(send_dm_message(&mut s, &dm, "mia", &"y".repeat(4001), "text", None), long);
    assert_eq!(
        send_dm_message(&mut s, "missing", "zed", &"y".repeat(4001), "text", None),
        Err(AppError::NotFound("Direct message conversation not found".to_string()))
    );
    assert_eq!(
        send_dm_message(&mut s, &dm, "zed", "", "text", None),
        Err(AppError::Unauthorized("You are not part of this conversation".to_string()))
    );
    // an administrator of the site who takes no part is refused like anybody else
    assert_eq!(
        send_dm_message(&mut s, &dm, "root", "hello", "text", None),
        Err(AppError::Unauthorized("You are not part of this conversation".to_string()))
    );
    assert_eq!(check_channel_send(&s, &channel, "mia", "fine"), Ok(()));
    assert_eq!(
        check_channel_send(&s, &channel, "zed", "fine"),
        Err(AppError::Unauthorized("You must be a member of the server to send messages".to_string()))
    );
    assert_eq!(check_dm_send(&s, &dm, "owner", "fine"), Ok(()));
    assert_eq!(
        check_dm_send(&s, &dm, "zed", "fine"),
        Err(AppError::Unauthorized("You are not part of this conversation".to_string()))
    );
    assert_eq!(s, before);
    assert!(send_channel_message(&mut s, &channel, "mia", &"y".repeat(4000), "text", None).is_ok());
    assert!(send_dm_message(&mut s, &dm, "owner", "hello", "text", None).is_ok());
    assert_eq!(s.messages.len(), 2);
}

#[test]
fn blank_content_is_not_stored() {
    let (mut s, _, dm) = club();
    for blank in [" ", "\t\n", "\u{3000}\u{a0}"] {
        assert_eq!(
            create_message(&mut s, None, Some(dm.clone()), "mia".to_string(), blank.to_string(), ContentType::Text),
            Err(AppError::Validation("Message content cannot be empty".to_string()))
        );
    }
    assert!(create_message(&mut s, None, Some(dm), "mia".to_string(), " a ".to_string(), ContentType::Text).is_ok());
    assert_eq!(s.messages[0].content, " a ");
}

#[test]
fn a_file_is_linked_to_the_message() {
    let (mut s, channel, _) = club();
    let mut req = to_channel(&channel, "see attachment");
    req.file_id = Some("file-1".to_string());
    let sent = send_message(&mut s, req, "mia").unwrap();
    assert_eq!(s.file_attachments.len(), 1);
    assert_eq!(s.file_attachments[0].file_id, "file-1");
    assert_eq!(s.file_attachments[0].message_id, sent.message.id);
    assert_eq!(s.file_attachments[0].position, 0);
}

#[test]
fn a_sender_without_identity_row_gets_a_persistence_error_after_storing() {
    let (mut s, channel, _) = club();
    add_member(&mut s, "Club".to_string(), "ghost".to_string(), ServerRole::Member);
    let res = send_message(&mut s, to_channel(&channel, "boo"), "ghost");
    assert_eq!(
        res,
        Err(AppError::Database(
            "no rows returned by a query that expected to return at least one row".to_string()
        ))
    );
    assert_eq!(s.messages.len(), 1);
}

#[test]
fn sender_deletes_own_message_whatever_their_role() {
    let (mut s, channel, dm) = club();
    let m = send_message(&mut s, to_channel(&channel, "mine"), "mia").unwrap().message;
    let d = send_message(&mut s, to_dm(&dm, "mine too"), "mia").unwrap().message;
    let got = delete_message(&mut s, MessageTarget::Channel, &channel, &m.id, "mia").unwrap();
    assert_eq!(got, m);
    assert_eq!(s.messages[0].is_deleted, 1);
    assert_eq!(s.messages[0].content, "mine");
    assert_eq!(s.messages[1].is_deleted, 0);
    let got = delete_message(&mut s, MessageTarget::DirectMessage, &dm, &d.id, "mia").unwrap();
    assert_eq!(got, d);
    assert_eq!(s.messages[1].is_deleted, 1);
}

#[test]
fn strangers_cannot_delete() {
    let (mut s, channel, dm) = club();
    let m = send_message(&mut s, to_channel(&channel, "keep"), "mia").unwrap().message;
    let d = send_message(&mut s, to_dm(&dm, "keep"), "mia").unwrap().message;
    let before = s.clone();
    let denied =
        Err(AppError::Unauthorized("You do not have permission to delete this message".to_string()));
    assert_eq!(delete_message(&mut s, MessageTarget::Channel, &channel, &m.id, "zed"), denied);
    assert_eq!(delete_message(&mut s, MessageTarget::DirectMessage, &dm, &d.id, "zed"), denied);
    // an identity without a row is a stranger too
    assert_eq!(delete_message(&mut s, MessageTarget::Channel, &channel, &m.id, "nobody"), denied);
    // the other participant of the conversation is not the sender
    assert_eq!(delete_message(&mut s, MessageTarget::DirectMessage, &dm, &d.id, "owner"), denied);
    assert_eq!(s, before);
}

#[test]
fn community_admin_deletes_in_channels_only() {
    let (mut s, channel, dm) = club();
    let m = send_message(&mut s, to_channel(&channel, "moderated"), "mia").unwrap().message;
    // "owner" is an administrator of the community, "zed" becomes a member
    // and then an administrator
    add_member(&mut s, "Club".to_string(), "zed".to_string(), ServerRole::Member);
    let denied =
        Err(AppError::Unauthorized("You do not have permission to delete this message".to_string()));
    assert_eq!(delete_message(&mut s, MessageTarget::Channel, &channel, &m.id, "zed"), denied);
    update_member_role(&mut s, "Club", "zed", "admin", "owner").unwrap();
    assert!(delete_message(&mut s, MessageTarget::Channel, &channel, &m.id, "zed").is_ok());
    assert_eq!(s.messages[0].is_deleted, 1);

    let d = send_message(&mut s, to_dm(&dm, "private"), "mia").unwrap().message;
    assert_eq!(delete_message(&mut s, MessageTarget::DirectMessage, &dm, &d.id, "zed"), denied);
    assert_eq!(s.messages[1].is_deleted, 0);
}

#[test]
fn site_admin_deletes_anywhere() {
    let (mut s, channel, dm) = club();
    let m = send_message(&mut s, to_channel(&channel, "a"), "mia").unwrap().message;
    let d = send_message(&mut s, to_dm(&dm, "b"), "mia").unwrap().message;
    assert!(delete_message(&mut s, MessageTarget::Channel, &channel, &m.id, "root").is_ok());
    assert!(delete_message(&mut s, MessageTarget::DirectMessage, &dm, &d.id, "root").is_ok());
    assert_eq!(s.messages[0].is_deleted, 1);
    assert_eq!(s.messages[1].is_deleted, 1);
}

#[test]
fn deletion_checks_the_message_and_its_target() {
    let (mut s, channel, dm) = club();
    let m = send_message(&mut s, to_channel(&channel, "a"), "mia").unwrap().message;
    let d = send_message(&mut s, to_dm(&dm, "b"), "mia").unwrap().message;
    let before = s.clone();
    assert_eq!(
        delete_message(&mut s, MessageTarget::Channel, &channel, "missing", "mia"),
        Err(AppError::NotFound("Message not found".to_string()))
    );
    assert_eq!(
        delete_message(&mut s, MessageTarget::Channel, "other", &m.id, "mia"),
        Err(AppError::BadRequest("Message does not belong to this channel".to_string()))
    );
    assert_eq!(
        delete_message(&mut s, MessageTarget::Channel, &channel, &d.id, "mia"),
        Err(AppError::BadRequest("Message does not belong to this channel".to_string()))
    );
    assert_eq!(
        delete_message(&mut s, MessageTarget::DirectMessage, &dm, &m.id, "mia"),
        Err(AppError::BadRequest("Message does not belong to this DM".to_string()))
    );
    assert_eq!(s, before);
}

#[test]
fn a_channel_message_without_channel_row_is_reported_as_such() {
    let mut s = Store::new();
    s.users.push(user("zed", false));
    let m = Message::new(
        Some("gone".to_string()),
        None,
        "mia".to_string(),
        "orphan".to_string(),
        ContentType::Text,
        rchat::models::message::FilterStatus::Clean,
        None,
    );
    s.messages.push(m.clone());
    assert_eq!(
        delete_message(&mut s, MessageTarget::Channel, "gone", &m.id, "zed"),
        Err(AppError::NotFound("Channel not found".to_string()))
    );
}

fn stored(s: &mut Store, channel: Option<&str>, dm: Option<&str>, at: &str, sender: &str) -> Message {
    let mut m = create_message(
        s,
        channel.map(|c| c.to_string()),
        dm.map(|d| d.to_string()),
        sender.to_string(),
        format!("sent {}", at),
        ContentType::Text,
    )
    .unwrap();
    m.created_at = at.to_string();
    let last = s.messages.len() - 1;
    s.messages[last].created_at = at.to_string();
    m
}

#[test]
fn messages_are_read_latest_first_without_deleted_ones() {
    let (mut s, channel, dm) = club();
    let a = stored(&mut s, Some(&channel), None, "2024-01-01T00:00:00+00:00", "mia");
    let b = stored(&mut s, Some(&channel), None, "2024-01-03T00:00:00+00:00", "owner");
    let c = stored(&mut s, Some(&channel), None, "2024-01-02T00:00:00+00:00", "mia");
    let _other = stored(&mut s, None, Some(&dm), "2024-01-04T00:00:00+00:00", "mia");
    let gone = stored(&mut s, Some(&channel), None, "2024-01-05T00:00:00+00:00", "mia");
    rchat::services::chat::delete_message(&mut s, &gone.id).unwrap();
    let _ghost = stored(&mut s, Some(&channel), None, "2024-01-06T00:00:00+00:00", "ghost");

    let all = get_messages(&s, MessageTarget::Channel, &channel, 50, 0).unwrap();
    let ids: Vec<String> = all.iter().map(|e| e.message.message.id.clone()).collect();
    assert_eq!(ids, vec![b.id.clone(), c.id.clone(), a.id.clone()]);
    assert_eq!(all[0].message.sender_profile_type, "person");
    assert!(all[0].attachments.is_empty());

    let page = get_messages(&s, MessageTarget::Channel, &channel, 1, 1).unwrap();
    assert_eq!(page.len(), 1);
    assert_eq!(page[0].message.message.id, c.id);
    assert!(get_messages(&s, MessageTarget::Channel, &channel, 10, 7).unwrap().is_empty());
    assert_eq!(get_messages(&s, MessageTarget::Channel, &channel, -1, -5).unwrap().len(), 3);
    assert_eq!(get_messages(&s, MessageTarget::DirectMessage, &dm, 50, 0).unwrap().len(), 1);

    // the plain listing keeps messages whose sender has no identity row
    let plain = get_channel_messages(&s, &channel, 50, 0).unwrap();
    assert_eq!(plain.len(), 4);
    assert_eq!(plain[0].sender_username, "ghost");
    assert_eq!(plain[3].id, a.id);
}

#[test]
fn stored_messages_count_and_are_censored_by_target() {
    let (mut s, channel, dm) = club();
    let m = create_message(
        &mut s,
        Some(channel.clone()),
        None,
        "mia".to_string(),
        "what the fuck".to_string(),
        ContentType::Markdown,
    )
    .unwrap();
    assert_eq!(m.filter_status, "filtered");
    assert!(m.filtered_content.is_some());
    assert_eq!(m.content_type, "markdown");
    assert_eq!(s.channels[0].message_count, 1);
    let d = create_message(
        &mut s,
        None,
        Some(dm.clone()),
        "mia".to_string(),
        "what the fuck".to_string(),
        ContentType::Text,
    )
    .unwrap();
    assert_eq!(d.filter_status, "clean");
    assert_eq!(d.filtered_content, None);
    assert_eq!(s.direct_messages[0].message_count, 1);
    assert_eq!(s.direct_messages[0].last_message_at, Some(d.created_at.clone()));
    assert_eq!(
        create_message(&mut s, None, Some(dm.clone()), "mia".to_string(), "  \n ".to_string(), ContentType::Text),
        Err(AppError::Validation("Message content cannot be empty".to_string()))
    );
    assert_eq!(
        create_message(&mut s, None, Some(dm), "mia".to_string(), "y".repeat(4001), ContentType::Text),
        Err(AppError::Validation("Message content too long (max 4000 chars)".to_string()))
    );
    assert_eq!(s.messages.len(), 2);
}

#[test]
fn identities_are_found_by_exact_name() {
    let (s, _, _) = club();
    assert_eq!(verify_username_exists(&s, "mia"), Ok(true));
    assert_eq!(verify_username_exists(&s, "Mia"), Ok(false));
    assert_eq!(verify_username_exists(&s, "nobody"), Ok(false));
}
