use rchat::api::admin::{
    check_admin, count_distinct_ids, count_distinct_users, get_banned_users, list_all_servers,
    unban_user_handler,
};
use rchat::api::auth::{health_check, profile_for, register, RegisterRequestPayload};
use rchat::api::files::{
    content_disposition, decode_upload, downloaded, invalid_base64, unreadable,
};
use rchat::api::public::{lookup_server, ordered_attachments, ServerInfo};
use rchat::api::unified_messages::{
    delete_channel_message, delete_dm_message, get_messages_handler, parse_target,
    send_message_handler,
};
use rchat::api::users::list_users_handler;
use rchat::api::{page_limit, page_offset, public_page_limit, stats_event};
use rchat::database::Store;
use rchat::middleware::auth::{bearer_token, invalid_token, let_in, required_token};
use rchat::middleware::guest::is_guest_user;
use rchat::models::file::{File, FileAttachment};
use rchat::models::user::{PasswordType, ProfileType, User};
use rchat::services::default_server::ensure_default_server;
use rchat::services::messaging::{MessageTarget, SendMessageRequest};
use rchat::services::server::{add_member, create_server};
use rchat::models::server_member::ServerRole;
use rchat::text::{matches_pattern, pattern_containing};
use rchat::utils::clock::Instant;
use rchat::utils::error::AppError;
use rchat::utils::helpers::{acting_username, system_username};
use rchat::utils::jwt::{token_not_issued, token_rejected, Claims};
use rchat::websocket::events::ServerMessage;
use rchat::websocket::handlers::{identity_of, token_of, WsQuery};

fn user(name: &str, admin: bool, created: &str) -> User {
    let mut u = User::new(
        name.to_string(),
        "hash".to_string(),
        PasswordType::Text,
        None,
        ProfileType::Person("#010203".to_string()),
        admin,
    );
    u.created_at = created.to_string();
    u
}

fn world() -> (Store, String) {
    let mut s = Store::new();
    s.users.push(user("system", false, "2024-01-01T00:00:00+00:00"));
    s.users.push(user("root", true, "2024-01-02T00:00:00+00:00"));
    s.users.push(user("owner", false, "2024-01-03T00:00:00+00:00"));
    s.users.push(user("mia", false, "2024-01-04T00:00:00+00:00"));
    create_server(&mut s, "Club".to_string(), "owner".to_string()).unwrap();
    add_member(&mut s, "Club".to_string(), "mia".to_string(), ServerRole::Member);
    let channel = s.channels[0].id.clone();
    (s, channel)
}

#[test]
fn sending_publishes_exactly_one_event_with_the_message() {
    let (mut s, channel) = world();
    s.files.push(File::new("pic.png".into(), "p.bin".into(), "image/png".into(), 9, "h".into(), "mia".into()));
    let file_id = s.files[0].id.clone();
    let req = SendMessageRequest {
        target_type: MessageTarget::Channel,
        target_id: channel.clone(),
        content: "look".to_string(),
        content_type: "text".to_string(),
        file_id: Some(file_id.clone()),
    };
    let h = send_message_handler(&mut s, Some("mia".to_string()), req);
    let answer = h.result.unwrap();
    assert_eq!(answer.attachments.len(), 1);
    assert_eq!(answer.attachments[0].file_id, file_id);
    assert_eq!(answer.attachments[0].original_name, "pic.png");
    assert_eq!(h.events.len(), 1);
    match &h.events[0] {
        ServerMessage::NewMessage {
            message_id,
            channel_id,
            sender_username,
            content,
            filtered_content,
            content_type,
            filter_status,
            created_at,
            sender_profile_type,
            sender_avatar_color,
            attachments,
        } => {
            assert_eq!(message_id, &answer.message.message.id);
            assert_eq!(channel_id, &channel);
            assert_eq!(sender_username, "mia");
            assert_eq!(content, "look");
            assert_eq!(filtered_content, &None);
            assert_eq!(content_type, "text");
            assert_eq!(filter_status, "clean");
            assert_eq!(created_at, &answer.message.message.created_at);
            assert_eq!(sender_profile_type, &Some("person".to_string()));
            assert_eq!(sender_avatar_color, &Some("#010203".to_string()));
            assert_eq!(attachments, &Some(answer.attachments.clone()));
        }
        other => panic!("unexpected event: {:?}", other),
    }
    // a refused request publishes nothing; without a name the service acts
    let req = SendMessageRequest {
        target_type: MessageTarget::Channel,
        target_id: channel,
        content: "hi".to_string(),
        content_type: "text".to_string(),
        file_id: None,
    };
    let h = send_message_handler(&mut s, None, req);
    assert!(h.events.is_empty());
    assert_eq!(
        h.result,
        Err(AppError::Unauthorized(
            "You must be a member of the server to send messages".to_string()
        ))
    );
}

#[test]
fn deleting_publishes_exactly_one_event() {
    let (mut s, channel) = world();
    let req = SendMessageRequest {
        target_type: MessageTarget::Channel,
        target_id: channel.clone(),
        content: "bye".to_string(),
        content_type: "text".to_string(),
        file_id: None,
    };
    let id = send_message_handler(&mut s, Some("mia".to_string()), req).result.unwrap().message.message.id;
    let h = delete_channel_message(&mut s, Some("zed".to_string()), &channel, &id);
    assert!(h.events.is_empty());
    assert!(h.result.is_err());
    let h = delete_dm_message(&mut s, Some("mia".to_string()), &channel, &id);
    assert_eq!(h.result, Err(AppError::BadRequest("Message does not belong to this DM".to_string())));
    let h = delete_channel_message(&mut s, Some("mia".to_string()), &channel, &id);
    assert_eq!(h.result, Ok(()));
    assert_eq!(
        h.events,
        vec![ServerMessage::MessageDeleted {
            message_id: id,
            channel_id: Some(channel),
            dm_id: None
        }]
    );
}

#[test]
fn targets_are_named_channel_or_dm() {
    assert_eq!(parse_target("channel"), Some(MessageTarget::Channel));
    assert_eq!(parse_target("dm"), Some(MessageTarget::DirectMessage));
    assert_eq!(parse_target("direct_message"), Some(MessageTarget::DirectMessage));
    assert_eq!(parse_target("Channel"), None);
    let (s, channel) = world();
    assert_eq!(
        get_messages_handler(&s, "group", &channel, None, None),
        Err(AppError::BadRequest("Invalid target_type. Must be 'channel' or 'dm'".to_string()))
    );
    assert_eq!(get_messages_handler(&s, "channel", &channel, None, None), Ok(vec![]));
}

#[test]
fn page_sizes() {
    assert_eq!(page_limit(None), 50);
    assert_eq!(page_limit(Some(7)), 7);
    assert_eq!(page_offset(None), 0);
    assert_eq!(page_offset(Some(3)), 3);
    assert_eq!(public_page_limit(None), 50);
    assert_eq!(public_page_limit(Some(100)), 100);
    assert_eq!(public_page_limit(Some(101)), 100);
    assert_eq!(public_page_limit(Some(5)), 5);
}

#[test]
fn community_requests_publish_their_events() {
    let (mut s, _) = world();
    let h = rchat::api::servers::create(&mut s, Some("mia".to_string()), "Books".to_string());
    assert_eq!(
        h.events,
        vec![ServerMessage::ServerCreated {
            server_name: "Books".to_string(),
            owner_username: "mia".to_string()
        }]
    );
    assert_eq!(h.result.unwrap().name, "Books");
    let h = rchat::api::servers::create(&mut s, Some("mia".to_string()), "books".to_string());
    assert!(h.events.is_empty());
    assert!(h.result.is_err());

    let h = rchat::api::servers::join(&mut s, Some("root".to_string()), "books".to_string());
    assert_eq!(
        h.events,
        vec![
            ServerMessage::ServerMemberJoined {
                server_name: "Books".to_string(),
                username: "root".to_string()
            },
            ServerMessage::ServerStatsUpdated {
                server_name: "Books".to_string(),
                member_count: 2,
                channel_count: 1
            },
        ]
    );
    assert!(h.result.is_ok());

    let h = rchat::api::servers::update_member(&mut s, Some("mia".to_string()), "Books", "root", "admin".to_string());
    assert_eq!(
        h.events,
        vec![ServerMessage::ServerMemberRoleUpdated {
            server_name: "Books".to_string(),
            username: "root".to_string(),
            new_role: "admin".to_string()
        }]
    );
    let h = rchat::api::servers::transfer_ownership_handler(&mut s, Some("mia".to_string()), "Books", "root".to_string());
    assert_eq!(
        h.events,
        vec![
            ServerMessage::ServerMemberRoleUpdated {
                server_name: "Books".to_string(),
                username: "root".to_string(),
                new_role: "admin".to_string()
            },
            ServerMessage::ServerMemberRoleUpdated {
                server_name: "Books".to_string(),
                username: "mia".to_string(),
                new_role: "member".to_string()
            },
        ]
    );
    // removing a member bans them from the community
    let h = rchat::api::servers::remove_server_member(&mut s, Some("root".to_string()), "Books", "mia");
    assert_eq!(
        h.events,
        vec![
            ServerMessage::ServerMemberLeft {
                server_name: "Books".to_string(),
                username: "mia".to_string()
            },
            ServerMessage::ServerStatsUpdated {
                server_name: "Books".to_string(),
                member_count: 1,
                channel_count: 1
            },
        ]
    );
    assert!(s.is_server_banned("Books", "mia"));
    let h = rchat::api::servers::delete_server_handler(&mut s, Some("root".to_string()), "Books");
    assert_eq!(h.events, vec![ServerMessage::ServerDeleted { server_name: "Books".to_string() }]);
    let h = rchat::api::servers::delete_server_handler(&mut s, Some("root".to_string()), "Books");
    assert!(h.events.is_empty());
    assert_eq!(h.result, Err(AppError::NotFound("Server not found".to_string())));
    assert_eq!(
        rchat::api::servers::list_servers(&s, Some("mia".to_string())).unwrap().len(),
        1
    );
    assert_eq!(rchat::api::servers::list_members(&s, "Club").unwrap().len(), 2);
    assert_eq!(
        rchat::api::servers::reorder(&mut s, Some("mia".to_string()), vec!["x".to_string(), "Club".to_string()]),
        Ok(())
    );
    assert_eq!(s.server_members[1].position, 1);
}

#[test]
fn channel_requests_publish_their_events() {
    let (mut s, general) = world();
    let h = rchat::api::channels::create(&mut s, "Club".to_string(), "news".to_string());
    let made = h.result.unwrap();
    assert_eq!(
        h.events,
        vec![
            ServerMessage::ChannelCreated {
                server_name: "Club".to_string(),
                channel_id: made.id.clone(),
                channel_name: "news".to_string()
            },
            ServerMessage::ServerStatsUpdated {
                server_name: "Club".to_string(),
                member_count: 2,
                channel_count: 2
            },
        ]
    );
    // a channel of a community without a row is created, but its counters cannot be told
    let h = rchat::api::channels::create(&mut s, "Nowhere".to_string(), "void".to_string());
    assert_eq!(h.events.len(), 1);
    assert_eq!(
        h.result,
        Err(AppError::Database(
            "no rows returned by a query that expected to return at least one row".to_string()
        ))
    );
    let h = rchat::api::channels::rename(&mut s, "Club".to_string(), made.id.clone(), "updates".to_string());
    assert_eq!(
        h.events,
        vec![ServerMessage::ChannelRenamed {
            server_name: "Club".to_string(),
            channel_id: made.id.clone(),
            new_name: "updates".to_string()
        }]
    );
    assert_eq!(h.result.unwrap().name, "updates");
    let h = rchat::api::channels::remove(&mut s, "Club", general.clone());
    assert_eq!(
        h.events,
        vec![
            ServerMessage::ChannelDeleted {
                server_name: "Club".to_string(),
                channel_id: general
            },
            ServerMessage::ServerStatsUpdated {
                server_name: "Club".to_string(),
                member_count: 2,
                channel_count: 1
            },
        ]
    );
    let h = rchat::api::channels::remove(&mut s, "Club", made.id.clone());
    assert!(h.events.is_empty());
    assert_eq!(h.result, Err(AppError::BadRequest("Cannot delete the last channel".to_string())));
    assert_eq!(rchat::api::channels::list(&s, "Club").unwrap().len(), 1);
    assert_eq!(rchat::api::public::list_channels(&s, "Club").unwrap().len(), 2);
}

#[test]
fn conversation_requests() {
    let (mut s, _) = world();
    let h = rchat::api::direct_messages::create_or_get_dm(&mut s, Some("owner".to_string()), "mia".to_string());
    let dm = h.result.unwrap();
    assert_eq!((dm.username1.as_str(), dm.username2.as_str()), ("mia", "owner"));
    assert_eq!(
        h.events,
        vec![ServerMessage::DmCreated {
            dm_id: dm.id.clone(),
            username1: "owner".to_string(),
            username2: "mia".to_string()
        }]
    );
    let again = rchat::api::direct_messages::create_or_get_dm(&mut s, Some("mia".to_string()), "owner".to_string());
    assert_eq!(again.result.unwrap().id, dm.id);
    assert_eq!(s.direct_messages.len(), 1);
    let h = rchat::api::direct_messages::create_or_get_dm(&mut s, Some("mia".to_string()), "nobody".to_string());
    assert!(h.events.is_empty());
    assert_eq!(h.result, Err(AppError::NotFound("User not found".to_string())));

    let h = rchat::api::direct_messages::send_dm_message(
        &mut s,
        Some("mia".to_string()),
        dm.id.clone(),
        "what the fuck".to_string(),
        Some("markdown"),
    );
    let m = h.result.unwrap();
    assert_eq!(m.content_type, "markdown");
    assert_eq!(m.filter_status, "clean");
    assert_eq!(h.events.len(), 1);
    match &h.events[0] {
        ServerMessage::NewDmMessage { dm_id, sender_username, attachments, filtered_content, message_id, .. } => {
            assert_eq!(dm_id, &dm.id);
            assert_eq!(sender_username, "mia");
            assert_eq!(attachments, &None);
            assert_eq!(filtered_content, &None);
            assert_eq!(message_id, &m.id);
        }
        other => panic!("unexpected event: {:?}", other),
    }
    let h = rchat::api::direct_messages::send_dm_message(&mut s, Some("mia".to_string()), dm.id.clone(), " ".to_string(), None);
    assert!(h.events.is_empty());
    assert!(h.result.is_err());
    // somebody who takes no part in the conversation cannot post into it
    let before = s.clone();
    let h = rchat::api::direct_messages::send_dm_message(&mut s, Some("root".to_string()), dm.id.clone(), "boo".to_string(), Some("html"));
    assert!(h.events.is_empty());
    assert_eq!(h.result, Err(AppError::Unauthorized("You are not part of this conversation".to_string())));
    let h = rchat::api::direct_messages::send_dm_message(&mut s, Some("mia".to_string()), "no-such-dm".to_string(), "boo".to_string(), None);
    assert!(h.events.is_empty());
    assert_eq!(h.result, Err(AppError::NotFound("Direct message conversation not found".to_string())));
    let h = rchat::api::direct_messages::send_dm_message(&mut s, Some("mia".to_string()), dm.id.clone(), "".to_string(), None);
    assert_eq!(h.result, Err(AppError::Validation("Message content cannot be empty".to_string())));
    let h = rchat::api::direct_messages::send_dm_message(&mut s, Some("mia".to_string()), dm.id.clone(), "x".repeat(4001), None);
    assert_eq!(
        h.result,
        Err(AppError::Validation("Message content must be at most 4000 characters long".to_string()))
    );
    assert_eq!(s, before);
    // a participant without an identity row: the message is stored, the answer is an error
    let mut odd = rchat::models::direct_message::DirectMessage::new("ghost".to_string(), "mia".to_string());
    odd.id = "odd".to_string();
    s.direct_messages.push(odd);
    let h = rchat::api::direct_messages::send_dm_message(&mut s, Some("ghost".to_string()), "odd".to_string(), "boo".to_string(), Some("html"));
    assert!(h.events.is_empty());
    assert!(matches!(h.result, Err(AppError::Database(_))));
    assert_eq!(s.messages.len(), 2);
    assert_eq!(s.messages[1].content_type, "text");
    let h = rchat::api::direct_messages::send_dm_message(&mut s, Some("owner".to_string()), dm.id.clone(), "reply".to_string(), None);
    assert_eq!(h.events.len(), 1);
    assert_eq!(rchat::api::direct_messages::get_dm_messages(&s, "odd", None, None).unwrap().len(), 1);
    assert_eq!(rchat::api::direct_messages::get_dm_messages(&s, &dm.id, Some(500), None).unwrap().len(), 2);
    assert_eq!(rchat::api::direct_messages::get_dm_messages(&s, &dm.id, Some(1), Some(1)).unwrap().len(), 1);
    assert_eq!(rchat::api::direct_messages::list_dms(&s, Some("mia".to_string())).unwrap().len(), 2);
}

#[test]
fn site_ban_publishes_one_event_after_the_purge() {
    let (mut s, _) = world();
    let h = rchat::api::admin::ban_user_handler(&mut s, Some("mia".to_string()), "owner".to_string());
    assert!(h.events.is_empty());
    assert_eq!(h.result, Err(AppError::Forbidden("Only site admins can site-ban users".to_string())));
    let h = rchat::api::users::ban_user_handler(&mut s, Some("root".to_string()), "mia".to_string());
    assert_eq!(h.result, Ok(()));
    assert_eq!(h.events, vec![ServerMessage::UserBanned { username: "mia".to_string() }]);
    assert!(s.users.iter().all(|u| u.username != "mia"));
    assert!(s.is_site_banned("MIA"));
    assert_eq!(
        unban_user_handler(&mut s, Some("owner".to_string()), "mia"),
        Err(AppError::Unauthorized("Site admin privileges required".to_string()))
    );
    assert!(s.is_site_banned("mia"));
    assert_eq!(unban_user_handler(&mut s, Some("root".to_string()), "Mia"), Ok(()));
    assert!(s.is_site_banned("mia"));
    assert_eq!(unban_user_handler(&mut s, Some("root".to_string()), "mia"), Ok(()));
    assert!(!s.is_site_banned("mia"));
}

#[test]
fn administrators_search_communities_identities_and_bans() {
    let (mut s, _) = world();
    create_server(&mut s, "Book club".to_string(), "mia".to_string()).unwrap();
    create_server(&mut s, "Chess".to_string(), "mia".to_string()).unwrap();
    s.servers[0].created_at = "2024-02-01T00:00:00+00:00".to_string();
    s.servers[1].created_at = "2024-02-03T00:00:00+00:00".to_string();
    s.servers[2].created_at = "2024-02-02T00:00:00+00:00".to_string();
    assert_eq!(check_admin(&s, "root"), Ok(()));
    assert_eq!(
        check_admin(&s, "mia"),
        Err(AppError::Unauthorized("Site admin privileges required".to_string()))
    );
    assert_eq!(
        list_all_servers(&s, Some("mia".to_string()), None, None, None),
        Err(AppError::Unauthorized("Site admin privileges required".to_string()))
    );
    let all = list_all_servers(&s, Some("root".to_string()), None, None, None).unwrap();
    assert_eq!(all.total, 3);
    let names: Vec<&str> = all.servers.iter().map(|r| r.name.as_str()).collect();
    assert_eq!(names, vec!["Book club", "Chess", "Club"]);
    assert_eq!(all.servers[2].member_count, 2);
    assert_eq!(all.servers[2].channel_count, 1);
    let clubs = list_all_servers(&s, Some("root".to_string()), Some(1), Some(1), Some("CLUB".to_string())).unwrap();
    assert_eq!(clubs.total, 2);
    assert_eq!(clubs.servers.len(), 1);
    assert_eq!(clubs.servers[0].name, "Club");
    let wild = list_all_servers(&s, Some("root".to_string()), None, None, Some("c_e".to_string())).unwrap();
    assert_eq!(wild.total, 1);
    assert_eq!(wild.servers[0].name, "Chess");

    let users = list_users_handler(&s, Some("root".to_string()), None, None, None).unwrap();
    assert_eq!(users.total, 3);
    let names: Vec<&str> = users.users.iter().map(|u| u.username.as_str()).collect();
    assert_eq!(names, vec!["mia", "owner", "root"]);
    assert_eq!(users.users[2].is_admin, 1);
    let some = list_users_handler(&s, Some("root".to_string()), None, None, Some("O".to_string())).unwrap();
    assert_eq!(some.total, 2);
    assert!(list_users_handler(&s, Some("mia".to_string()), None, None, None).is_err());

    rchat::services::user_moderation::site_ban_user(&mut s, "mia", "root").unwrap();
    rchat::services::user_moderation::site_ban_user(&mut s, "owner", "root").unwrap();
    s.banned_usernames[0].banned_at = "2024-03-01T00:00:00+00:00".to_string();
    s.banned_usernames[1].banned_at = "2024-03-02T00:00:00+00:00".to_string();
    let bans = get_banned_users(&s, Some("root".to_string()), None, None, None).unwrap();
    assert_eq!(bans.total, 2);
    assert_eq!(bans.banned_users[0].username, "owner");
    let bans = get_banned_users(&s, Some("root".to_string()), None, None, Some("mi".to_string())).unwrap();
    assert_eq!(bans.total, 1);
    assert_eq!(bans.banned_users[0].username, "mia");
}

#[test]
fn search_patterns() {
    let p = pattern_containing("a_c");
    assert_eq!(p, vec!['%', 'a', '_', 'c', '%']);
    assert!(matches_pattern(&p, "xxABCyy"));
    assert!(matches_pattern(&p, "a-c"));
    assert!(!matches_pattern(&p, "ac"));
    assert!(matches_pattern(&pattern_containing(""), ""));
    assert!(matches_pattern(&pattern_containing(""), "anything"));
    assert!(matches_pattern(&pattern_containing("%"), "x"));
    assert!(!matches_pattern(&pattern_containing("é"), "É"));
    assert!(matches_pattern(&vec!['a', '%', 'z'], "AbcZ"));
    assert!(!matches_pattern(&vec!['a', '%', 'z'], "abczy"));
    assert!(matches_pattern(&vec![], ""));
    assert!(!matches_pattern(&vec![], "a"));
    assert!(matches_pattern(&vec!['_'], "é"));
}

#[test]
fn distinct_counts() {
    let (mut s, _) = world();
    assert_eq!(count_distinct_users(&s.server_members), 2);
    add_member(&mut s, "Other".to_string(), "mia".to_string(), ServerRole::Member);
    assert_eq!(count_distinct_users(&s.server_members), 2);
    assert_eq!(count_distinct_users(&Vec::<User>::new()), 0);
    let mut channels = s.channels.clone();
    channels.push(s.channels[0].clone());
    assert_eq!(count_distinct_ids(&channels), 1);
}

#[test]
fn listings_count_live_channels_only() {
    let (mut s, _) = world();
    let news = rchat::services::channel::create_channel(&mut s, "Club".to_string(), "news".to_string()).unwrap();
    rchat::services::channel::delete_channel(&mut s, &news.id, "Club").unwrap();
    assert_eq!(s.channels.len(), 2);
    assert_eq!(lookup_server(&s, "Club").unwrap().channel_count, 1);
    let listed = rchat::services::server::get_user_servers(&s, "mia").unwrap();
    assert_eq!(listed.len(), 1);
    assert_eq!((listed[0].member_count, listed[0].channel_count), (2, 1));
    let all = list_all_servers(&s, Some("root".to_string()), None, None, None).unwrap();
    assert_eq!((all.servers[0].member_count, all.servers[0].channel_count), (2, 1));
}

#[test]
fn lookup_and_stats() {
    let (mut s, _) = world();
    s.servers[0].member_count = 40;
    assert_eq!(
        lookup_server(&s, "CLUB"),
        Ok(ServerInfo {
            name: "Club".to_string(),
            creator_username: "owner".to_string(),
            created_at: s.servers[0].created_at.clone(),
            member_count: 2,
            channel_count: 1,
        })
    );
    assert_eq!(lookup_server(&s, "none"), Err(AppError::NotFound("Server not found".to_string())));
    assert_eq!(
        stats_event(&s, "Club"),
        Ok(ServerMessage::ServerStatsUpdated {
            server_name: "Club".to_string(),
            member_count: 40,
            channel_count: 1
        })
    );
    assert!(matches!(stats_event(&s, "club"), Err(AppError::Database(_))));
    s.servers[0].is_active = 0;
    assert_eq!(lookup_server(&s, "Club"), Err(AppError::NotFound("Server not found".to_string())));
    assert_eq!(rchat::api::public::list_members(&s, "Club").unwrap()[0].username, "mia");
}

#[test]
fn public_reading_orders_attachments_by_position() {
    let (mut s, channel) = world();
    let req = SendMessageRequest {
        target_type: MessageTarget::Channel,
        target_id: channel.clone(),
        content: "files".to_string(),
        content_type: "text".to_string(),
        file_id: None,
    };
    let id = send_message_handler(&mut s, Some("mia".to_string()), req).result.unwrap().message.message.id;
    for (i, name) in ["a", "b", "c"].iter().enumerate() {
        let mut f = File::new(name.to_string(), format!("{}.bin", name), "text/plain".into(), 1, format!("h{}", i), "mia".into());
        f.id = name.to_string();
        s.files.push(f);
    }
    s.files[2].is_deleted = 1;
    s.file_attachments.push(FileAttachment { file_id: "a".into(), message_id: id.clone(), position: 2 });
    s.file_attachments.push(FileAttachment { file_id: "b".into(), message_id: id.clone(), position: 1 });
    s.file_attachments.push(FileAttachment { file_id: "c".into(), message_id: id.clone(), position: 0 });
    s.file_attachments.push(FileAttachment { file_id: "a".into(), message_id: "other".into(), position: 0 });
    let names: Vec<String> = ordered_attachments(&s, &id).iter().map(|a| a.file_id.clone()).collect();
    assert_eq!(names, vec!["b", "a"]);
    let read = rchat::api::public::get_messages(&s, &channel, Some(1000), None).unwrap();
    assert_eq!(read.len(), 1);
    assert_eq!(read[0].attachments.len(), 2);
    assert_eq!(read[0].attachments[0].file_id, "b");
}

#[test]
fn file_requests() {
    let mut s = Store::new();
    let plan = rchat::api::files::upload(&s, "n.txt".to_string(), "text/plain".to_string(), b"words words words").unwrap();
    let file = match plan {
        rchat::services::file_storage::Upload::New(f) => f,
        other => panic!("unexpected: {:?}", other),
    };
    assert_eq!(file.uploader_username, "system");
    rchat::services::file_storage::save_file(&mut s, file.clone()).unwrap();
    let (path, found) = rchat::api::files::download(&s, &file.id).unwrap();
    assert_eq!(path, format!("./uploads/{}", file.file_name));
    let e = downloaded(&mut s, file.id.clone(), &found);
    assert_eq!(e, ServerMessage::FileDownloaded { file_id: file.id.clone(), download_count: 1 });
    assert_eq!(s.files[0].download_count, 1);
    assert_eq!(content_disposition("a b.txt"), "inline; filename=\"a b.txt\"");
    assert_eq!(rchat::api::files::list_files(&s).unwrap().len(), 1);
    assert_eq!(rchat::api::files::remove_file(&mut s, &file.id), Ok(()));
    assert!(rchat::api::files::list_files(&s).unwrap().is_empty());
    assert_eq!(invalid_base64("bad"), AppError::BadRequest("Invalid base64: bad".to_string()));
    assert_eq!(decode_upload("aGVsbG8="), Ok(b"hello".to_vec()));
    assert_eq!(decode_upload(""), Ok(Vec::new()));
    match decode_upload("not base64!") {
        Err(AppError::BadRequest(m)) => assert!(m.starts_with("Invalid base64: ")),
        other => panic!("unexpected: {:?}", other),
    }
    assert_eq!(unreadable("gone"), AppError::Internal("Failed to read file: gone".to_string()));
}

#[test]
fn registration_requests() {
    let mut s = Store::new();
    ensure_default_server(&mut s, None).unwrap();
    assert_eq!(health_check(), "OK");
    assert_eq!(
        profile_for("identicon", "abc", Some("#ffffff".to_string())),
        Ok(ProfileType::Identicon("ba7816bf8f01cfea".to_string()))
    );
    assert_eq!(profile_for("person", "abc", None), Ok(ProfileType::Person("#ba7816".to_string())));
    assert_eq!(
        profile_for("person", "abc", Some("#123456".to_string())),
        Ok(ProfileType::Person("#123456".to_string()))
    );
    assert_eq!(
        profile_for("robot", "abc", None),
        Err(AppError::BadRequest("Invalid profile type".to_string()))
    );
    let payload = RegisterRequestPayload {
        username: "abc".to_string(),
        password: Some("pw".to_string()),
        word_sequence: None,
        profile_type: "person".to_string(),
        avatar_color: None,
    };
    let h = register(&mut s, payload.clone());
    let reg = h.result.unwrap();
    assert_eq!(reg.user.avatar_color, Some("#ba7816".to_string()));
    assert_eq!(
        h.events,
        vec![
            ServerMessage::ServerMemberJoined {
                server_name: "RChat".to_string(),
                username: "abc".to_string()
            },
            ServerMessage::ServerStatsUpdated {
                server_name: "RChat".to_string(),
                member_count: 1,
                channel_count: 1
            },
        ]
    );
    let h = register(&mut s, payload.clone());
    assert!(h.events.is_empty());
    assert_eq!(h.result, Err(AppError::Conflict("Username already exists".to_string())));
    let mut bad = payload;
    bad.profile_type = "robot".to_string();
    let h = register(&mut s, bad);
    assert!(h.events.is_empty());
    assert_eq!(h.result, Err(AppError::BadRequest("Invalid profile type".to_string())));
}

#[test]
fn tokens_and_identities_of_requests() {
    assert_eq!(bearer_token("Bearer abc.def"), Some("abc.def"));
    assert_eq!(bearer_token("Bearer "), Some(""));
    assert_eq!(bearer_token("bearer abc"), None);
    assert_eq!(bearer_token("Bearer"), None);
    assert_eq!(bearer_token(""), None);
    assert_eq!(required_token(Some("Bearer t")), Ok("t"));
    let missing = Err(AppError::Auth("Missing or invalid authorization header".to_string()));
    assert_eq!(required_token(Some("Basic t")), missing);
    assert_eq!(required_token(None), missing);
    assert_eq!(
        invalid_token(&token_rejected("expired")),
        AppError::Auth("Invalid token: Authentication error: Invalid token: expired".to_string())
    );
    assert_eq!(
        token_not_issued("no key"),
        AppError::Internal("Failed to generate token: no key".to_string())
    );
    let (s, _) = world();
    assert_eq!(let_in(&s, "mia"), Ok(()));
    assert_eq!(let_in(&s, "Mia"), Err(AppError::Auth("User no longer exists".to_string())));
    assert!(is_guest_user(None));
    assert!(!is_guest_user(Some("Bearer t")));
    assert_eq!(token_of(WsQuery { token: Some("q".to_string()) }, Some("Bearer h")), Some("q".to_string()));
    assert_eq!(token_of(WsQuery { token: None }, Some("Bearer h")), Some("h".to_string()));
    assert_eq!(token_of(WsQuery { token: None }, Some("h")), None);
    assert_eq!(token_of(WsQuery { token: None }, None), None);
    assert_eq!(identity_of(Some("mia".to_string())), "mia");
    assert_eq!(identity_of(None), "guest");
    assert_eq!(system_username(), "system");
    assert_eq!(acting_username(None), "system");
    assert_eq!(acting_username(Some("mia".to_string())), "mia");
    let c = Claims::issue("mia", Instant { secs: 1_000, nanos: 5 });
    assert_eq!(c.sub, "mia");
    assert_eq!(c.username, "mia");
    assert_eq!(c.iat, 1_000);
    assert_eq!(c.exp, 1_000 + 36_500 * 86_400);
    assert_eq!(c.extract_username(), "mia");
}
