use rchat::database::Store;
use rchat::models::server_member::{ServerMember, ServerRole};
use rchat::models::user::{PasswordType, ProfileType, User};
use rchat::services::channel::{
    add_channel, create_channel, delete_channel, get_server_channels, rename_channel,
};
use rchat::services::server::{
    add_member, create_server, delete_server, get_server_members, get_user_servers, join_server,
    remove_member, reorder_servers, sync_server_counts, transfer_ownership, update_member_role,
};
use rchat::utils::error::AppError;

fn user(name: &str, admin: bool) -> User {
    User::new(
        name.to_string(),
        "hash".to_string(),
        PasswordType::Text,
        None,
        ProfileType::Identicon("seed".to_string()),
        admin,
    )
}

fn base() -> Store {
    let mut s = Store::new();
    s.users.push(user("root", true));
    s.users.push(user("owner", false));
    s.users.push(user("mia", false));
    s.users.push(user("zed", false));
    create_server(&mut s, "Club".to_string(), "owner".to_string()).unwrap();
    s
}

fn counts(s: &Store, name: &str) -> (i64, i64) {
    let row = s.servers.iter().find(|r| r.name == name).unwrap();
    (row.member_count, row.channel_count)
}

fn enumerated(s: &Store, name: &str) -> (i64, i64) {
    let members = s.server_members.iter().filter(|m| m.server_name == name).count() as i64;
    let channels =
        s.channels.iter().filter(|c| c.server_name == name && c.is_active == 1).count() as i64;
    (members, channels)
}

#[test]
fn a_new_community_has_its_creator_and_a_general_channel() {
    let mut s = Store::new();
    let made = create_server(&mut s, "Club".to_string(), "owner".to_string()).unwrap();
    assert_eq!(made.name, "Club");
    assert_eq!(made.creator_username, "owner");
    assert_eq!(made.is_active, 1);
    assert_eq!((made.member_count, made.channel_count), (0, 0));
    assert_eq!(s.servers.len(), 1);
    assert_eq!(counts(&s, "Club"), (1, 1));
    assert_eq!(s.server_members.len(), 1);
    assert_eq!(s.server_members[0].username, "owner");
    assert_eq!(s.server_members[0].role, "admin");
    assert_eq!(s.server_members[0].is_online, 0);
    assert_eq!(s.channels.len(), 1);
    assert_eq!(s.channels[0].name, "general");
    assert_eq!(s.channels[0].server_name, "Club");
    assert_eq!(s.channels[0].position, 0);
    assert_eq!(s.channels[0].is_active, 1);
}

#[test]
fn community_names_are_checked_and_unique_whatever_the_case() {
    let mut s = base();
    let before = s.clone();
    assert_eq!(
        create_server(&mut s, "".to_string(), "mia".to_string()),
        Err(AppError::Validation("Server name cannot be empty".to_string()))
    );
    assert_eq!(
        create_server(&mut s, "x".repeat(65), "mia".to_string()),
        Err(AppError::Validation("Server name must be at most 64 characters long".to_string()))
    );
    assert_eq!(
        create_server(&mut s, "caf\u{e9}".to_string(), "mia".to_string()),
        Err(AppError::Validation(
            "Server name must contain only printable ASCII characters".to_string()
        ))
    );
    assert_eq!(
        create_server(&mut s, "fuck".to_string(), "mia".to_string()),
        Err(AppError::Validation("Server name contains inappropriate language".to_string()))
    );
    assert_eq!(
        create_server(&mut s, "Club".to_string(), "mia".to_string()),
        Err(AppError::Conflict("Server name already exists".to_string()))
    );
    assert_eq!(
        create_server(&mut s, "cLUB".to_string(), "mia".to_string()),
        Err(AppError::Conflict("Server name already exists".to_string()))
    );
    assert_eq!(s, before);
    assert!(create_server(&mut s, "A quiet place for books ".repeat(3)[0..64].to_string(), "mia".to_string()).is_ok());
}

#[test]
fn joining_adds_a_member_once() {
    let mut s = base();
    let got = join_server(&mut s, "club".to_string(), "mia".to_string()).unwrap();
    assert_eq!(got.name, "Club");
    assert_eq!(got.member_count, 1);
    assert_eq!(s.server_members.len(), 2);
    assert_eq!(s.server_members[1].server_name, "Club");
    assert_eq!(s.server_members[1].username, "mia");
    assert_eq!(s.server_members[1].role, "member");
    assert_eq!(s.server_members[1].position, 0);
    assert_eq!(counts(&s, "Club"), (2, 1));
    let again = s.clone();
    join_server(&mut s, "Club".to_string(), "mia".to_string()).unwrap();
    assert_eq!(s, again);
    assert_eq!(
        join_server(&mut s, "Nowhere".to_string(), "mia".to_string()),
        Err(AppError::NotFound("Server not found".to_string()))
    );
}

#[test]
fn a_new_membership_inherits_the_online_flag() {
    let mut s = base();
    create_server(&mut s, "Other".to_string(), "root".to_string()).unwrap();
    join_server(&mut s, "Club".to_string(), "mia".to_string()).unwrap();
    for m in s.server_members.iter_mut() {
        if m.username == "mia" {
            m.is_online = 1;
        }
    }
    join_server(&mut s, "Other".to_string(), "mia".to_string()).unwrap();
    let last = s.server_members.last().unwrap();
    assert_eq!(last.server_name, "Other");
    assert_eq!(last.is_online, 1);
    join_server(&mut s, "Other".to_string(), "zed".to_string()).unwrap();
    assert_eq!(s.server_members.last().unwrap().is_online, 0);
}

#[test]
fn leaving_and_removing_members() {
    let mut s = base();
    join_server(&mut s, "Club".to_string(), "mia".to_string()).unwrap();
    join_server(&mut s, "Club".to_string(), "zed".to_string()).unwrap();
    let before = s.clone();
    assert_eq!(
        remove_member(&mut s, "RChat", "mia", "mia"),
        Err(AppError::BadRequest(
            "Cannot leave the RChat server - all users must remain in RChat".to_string()
        ))
    );
    assert_eq!(
        remove_member(&mut s, "Club", "mia", "zed"),
        Err(AppError::Unauthorized(
            "Admin privileges required to remove other members".to_string()
        ))
    );
    assert_eq!(
        remove_member(&mut s, "Club", "mia", "stranger"),
        Err(AppError::Unauthorized("Not a member of this server".to_string()))
    );
    assert_eq!(
        remove_member(&mut s, "Nowhere", "mia", "mia"),
        Err(AppError::NotFound("Server not found".to_string()))
    );
    assert_eq!(
        remove_member(&mut s, "Club", "owner", "owner"),
        Err(AppError::BadRequest("Cannot remove server creator".to_string()))
    );
    assert_eq!(
        remove_member(&mut s, "Club", "owner", "root"),
        Err(AppError::BadRequest("Cannot remove server creator".to_string()))
    );
    assert_eq!(s, before);
    remove_member(&mut s, "Club", "mia", "mia").unwrap();
    assert_eq!(counts(&s, "Club"), (2, 1));
    assert!(!s.is_member("Club", "mia"));
    remove_member(&mut s, "Club", "zed", "owner").unwrap();
    assert_eq!(counts(&s, "Club"), (1, 1));
    join_server(&mut s, "Club".to_string(), "zed".to_string()).unwrap();
    remove_member(&mut s, "Club", "zed", "root").unwrap();
    assert!(!s.is_member("Club", "zed"));
}

#[test]
fn roles_are_set_by_administrators() {
    let mut s = base();
    join_server(&mut s, "Club".to_string(), "mia".to_string()).unwrap();
    join_server(&mut s, "Club".to_string(), "zed".to_string()).unwrap();
    let before = s.clone();
    assert_eq!(
        update_member_role(&mut s, "Club", "mia", "owner", "owner"),
        Err(AppError::BadRequest("Invalid role".to_string()))
    );
    assert_eq!(
        update_member_role(&mut s, "Club", "mia", "admin", "zed"),
        Err(AppError::Unauthorized("Admin privileges required".to_string()))
    );
    assert_eq!(
        update_member_role(&mut s, "Club", "mia", "admin", "stranger"),
        Err(AppError::Unauthorized("Not a member of this server".to_string()))
    );
    assert_eq!(
        update_member_role(&mut s, "Nowhere", "mia", "admin", "root"),
        Err(AppError::NotFound("Server not found".to_string()))
    );
    assert_eq!(
        update_member_role(&mut s, "Club", "owner", "member", "root"),
        Err(AppError::BadRequest("Cannot modify creator role".to_string()))
    );
    assert_eq!(s, before);
    update_member_role(&mut s, "Club", "mia", "admin", "owner").unwrap();
    assert!(s.is_server_admin("Club", "mia"));
    assert!(!s.is_server_admin("Club", "zed"));
    update_member_role(&mut s, "Club", "mia", "member", "root").unwrap();
    assert!(!s.is_server_admin("Club", "mia"));
}

#[test]
fn ownership_passes_to_a_member() {
    let mut s = base();
    join_server(&mut s, "Club".to_string(), "mia".to_string()).unwrap();
    let before = s.clone();
    assert_eq!(
        transfer_ownership(&mut s, "Nowhere", "mia", "owner"),
        Err(AppError::NotFound("Server not found".to_string()))
    );
    assert_eq!(
        transfer_ownership(&mut s, "Club", "mia", "root"),
        Err(AppError::Unauthorized("Only the server creator can transfer ownership".to_string()))
    );
    assert_eq!(
        transfer_ownership(&mut s, "Club", "owner", "owner"),
        Err(AppError::BadRequest("Cannot transfer ownership to yourself".to_string()))
    );
    assert_eq!(
        transfer_ownership(&mut s, "Club", "zed", "owner"),
        Err(AppError::BadRequest("New owner must be a member of the server".to_string()))
    );
    assert_eq!(s, before);
    transfer_ownership(&mut s, "Club", "mia", "owner").unwrap();
    assert_eq!(s.servers[0].creator_username, "mia");
    assert!(s.is_server_admin("Club", "mia"));
    assert!(!s.is_server_admin("Club", "owner"));
    assert!(s.is_member("Club", "owner"));
}

#[test]
fn deleting_a_community_takes_what_belongs_to_it() {
    let mut s = base();
    create_server(&mut s, "Other".to_string(), "mia".to_string()).unwrap();
    join_server(&mut s, "Club".to_string(), "zed".to_string()).unwrap();
    let club_channel = s.channels[0].id.clone();
    let other_channel = s.channels[1].id.clone();
    rchat::services::chat::create_message(
        &mut s,
        Some(club_channel),
        None,
        "zed".to_string(),
        "in club".to_string(),
        rchat::models::message::ContentType::Text,
    )
    .unwrap();
    rchat::services::chat::create_message(
        &mut s,
        Some(other_channel),
        None,
        "mia".to_string(),
        "in other".to_string(),
        rchat::models::message::ContentType::Text,
    )
    .unwrap();
    rchat::services::user_moderation::server_ban_user(&mut s, "Club", "zed", "owner", None).unwrap();
    let before = s.clone();
    assert_eq!(
        delete_server(&mut s, "RChat", "root"),
        Err(AppError::BadRequest("Cannot delete the RChat server".to_string()))
    );
    assert_eq!(
        delete_server(&mut s, "Nowhere", "root"),
        Err(AppError::NotFound("Server not found".to_string()))
    );
    assert_eq!(
        delete_server(&mut s, "Club", "mia"),
        Err(AppError::Unauthorized(
            "Only server creator or site admin can delete server".to_string()
        ))
    );
    assert_eq!(s, before);
    delete_server(&mut s, "Club", "owner").unwrap();
    assert_eq!(s.servers.len(), 1);
    assert_eq!(s.servers[0].name, "Other");
    assert!(s.channels.iter().all(|c| c.server_name == "Other"));
    assert!(s.server_members.iter().all(|m| m.server_name == "Other"));
    assert!(s.server_bans.is_empty());
    assert_eq!(s.messages.len(), 1);
    assert_eq!(s.messages[0].content, "in other");
    delete_server(&mut s, "Other", "root").unwrap();
    assert!(s.servers.is_empty());
}

#[test]
fn recount_matches_enumeration_after_any_operations() {
    let mut s = base();
    create_server(&mut s, "Other".to_string(), "mia".to_string()).unwrap();
    join_server(&mut s, "Club".to_string(), "mia".to_string()).unwrap();
    join_server(&mut s, "Club".to_string(), "zed".to_string()).unwrap();
    let second = create_channel(&mut s, "Club".to_string(), "news".to_string()).unwrap();
    create_channel(&mut s, "Club".to_string(), "games".to_string()).unwrap();
    delete_channel(&mut s, &second.id, "Club").unwrap();
    remove_member(&mut s, "Club", "zed", "zed").unwrap();
    // let the cached counters drift
    s.servers[0].member_count = 99;
    s.servers[0].channel_count = -3;
    s.servers[1].member_count = 7;
    s.server_members.push(ServerMember::new("Other".to_string(), "zed".to_string(), ServerRole::Member));
    assert_eq!(sync_server_counts(&mut s), Ok(()));
    assert_eq!(counts(&s, "Club"), enumerated(&s, "Club"));
    assert_eq!(counts(&s, "Other"), enumerated(&s, "Other"));
    assert_eq!(counts(&s, "Club"), (2, 2));
    assert_eq!(counts(&s, "Other"), (2, 1));
    let once = s.clone();
    sync_server_counts(&mut s).unwrap();
    assert_eq!(s, once);
}

#[test]
fn channels_are_created_at_the_next_position() {
    let mut s = base();
    let news = create_channel(&mut s, "Club".to_string(), "news".to_string()).unwrap();
    assert_eq!(news.position, 1);
    assert_eq!(news.is_active, 1);
    assert_eq!(news.message_count, 0);
    let games = create_channel(&mut s, "Club".to_string(), "games".to_string()).unwrap();
    assert_eq!(games.position, 2);
    assert_eq!(counts(&s, "Club"), (1, 3));
    let first = add_channel(&mut s, "Empty".to_string(), "first".to_string());
    assert_eq!(first.position, 0);
    let before = s.clone();
    assert_eq!(
        create_channel(&mut s, "Club".to_string(), "".to_string()),
        Err(AppError::Validation("Channel name cannot be empty".to_string()))
    );
    assert_eq!(
        create_channel(&mut s, "Club".to_string(), "c".repeat(65)),
        Err(AppError::Validation("Channel name must be at most 64 characters long".to_string()))
    );
    assert_eq!(
        create_channel(&mut s, "Club".to_string(), "line\nbreak".to_string()),
        Err(AppError::Validation(
            "Channel name must contain only printable ASCII characters".to_string()
        ))
    );
    assert_eq!(
        create_channel(&mut s, "Club".to_string(), "shit".to_string()),
        Err(AppError::Validation("Channel name contains inappropriate language".to_string()))
    );
    assert_eq!(s, before);
}

#[test]
fn the_last_live_channel_cannot_be_deleted() {
    let mut s = base();
    let general = s.channels[0].id.clone();
    let before = s.clone();
    assert_eq!(
        delete_channel(&mut s, &general, "Club"),
        Err(AppError::BadRequest("Cannot delete the last channel".to_string()))
    );
    assert_eq!(s, before);
    assert_eq!(s.channels[0].is_active, 1);
    let news = create_channel(&mut s, "Club".to_string(), "news".to_string()).unwrap();
    delete_channel(&mut s, &general, "Club").unwrap();
    assert_eq!(s.channels[0].is_active, 0);
    assert_eq!(s.channels[1].is_active, 1);
    assert_eq!(counts(&s, "Club"), (1, 1));
    assert_eq!(
        delete_channel(&mut s, &news.id, "Club"),
        Err(AppError::BadRequest("Cannot delete the last channel".to_string()))
    );
    assert_eq!(s.channels[1].is_active, 1);
}

#[test]
fn a_deletion_that_would_leave_no_live_channel_is_refused() {
    let mut s = base();
    let news = create_channel(&mut s, "Club".to_string(), "news".to_string()).unwrap();
    // two live channels that share one identifier are all that the community has
    s.channels[0].id = news.id.clone();
    let before = s.clone();
    assert_eq!(
        delete_channel(&mut s, &news.id, "Club"),
        Err(AppError::BadRequest("Cannot delete the last channel".to_string()))
    );
    assert_eq!(s, before);
    let games = create_channel(&mut s, "Club".to_string(), "games".to_string()).unwrap();
    assert_eq!(delete_channel(&mut s, &news.id, "Club"), Ok(()));
    assert_eq!(s.channels.iter().filter(|c| c.is_active == 1).count(), 1);
    assert_eq!(counts(&s, "Club"), (1, 1));
    // an identifier that names no live channel of the community changes nothing
    assert_eq!(delete_channel(&mut s, "unknown", "Club"), Err(AppError::BadRequest("Cannot delete the last channel".to_string())));
    create_channel(&mut s, "Club".to_string(), "more".to_string()).unwrap();
    let quiet = s.clone();
    assert_eq!(delete_channel(&mut s, "unknown", "Club"), Ok(()));
    assert_eq!(s, quiet);
    assert_eq!(games.is_active, 1);
}

#[test]
fn a_channel_is_deleted_only_in_its_own_community() {
    let mut s = base();
    create_server(&mut s, "Other".to_string(), "mia".to_string()).unwrap();
    create_channel(&mut s, "Club".to_string(), "news".to_string()).unwrap();
    let others_only = s.channels[1].id.clone();
    assert_eq!(s.channels[1].server_name, "Other");
    delete_channel(&mut s, &others_only, "Club").unwrap();
    assert!(s.channels.iter().all(|c| c.is_active == 1));
    assert_eq!(counts(&s, "Other"), (1, 1));
}

#[test]
fn channels_are_renamed_and_listed_by_position() {
    let mut s = base();
    let general = s.channels[0].id.clone();
    let news = create_channel(&mut s, "Club".to_string(), "news".to_string()).unwrap();
    let games = create_channel(&mut s, "Club".to_string(), "games".to_string()).unwrap();
    s.channels[0].position = 5;
    let renamed = rename_channel(&mut s, &news.id, "updates".to_string()).unwrap();
    assert_eq!(renamed.name, "updates");
    assert_eq!(renamed.id, news.id);
    assert_eq!(s.channels[1].name, "updates");
    assert_eq!(
        rename_channel(&mut s, "missing", "fine".to_string()),
        Err(AppError::NotFound("Channel not found".to_string()))
    );
    assert_eq!(
        rename_channel(&mut s, &news.id, "".to_string()),
        Err(AppError::Validation("Channel name cannot be empty".to_string()))
    );
    delete_channel(&mut s, &games.id, "Club").unwrap();
    let listed = get_server_channels(&s, "Club").unwrap();
    let ids: Vec<String> = listed.iter().map(|c| c.id.clone()).collect();
    assert_eq!(ids, vec![news.id.clone(), general]);
    assert!(get_server_channels(&s, "Nowhere").unwrap().is_empty());
}

#[test]
fn communities_are_listed_in_the_members_order() {
    let mut s = base();
    create_server(&mut s, "Other".to_string(), "mia".to_string()).unwrap();
    create_server(&mut s, "Third".to_string(), "zed".to_string()).unwrap();
    join_server(&mut s, "Club".to_string(), "mia".to_string()).unwrap();
    join_server(&mut s, "Third".to_string(), "mia".to_string()).unwrap();
    s.servers[0].created_at = "2024-01-01T00:00:00+00:00".to_string();
    s.servers[1].created_at = "2024-01-02T00:00:00+00:00".to_string();
    s.servers[2].created_at = "2024-01-03T00:00:00+00:00".to_string();
    // all at position 0: the community created last comes first
    let names: Vec<String> =
        get_user_servers(&s, "mia").unwrap().iter().map(|r| r.name.clone()).collect();
    assert_eq!(names, vec!["Third", "Other", "Club"]);
    reorder_servers(
        &mut s,
        "mia",
        vec!["Club".to_string(), "Third".to_string(), "Other".to_string(), "Nowhere".to_string()],
    )
    .unwrap();
    let listed = get_user_servers(&s, "mia").unwrap();
    let names: Vec<String> = listed.iter().map(|r| r.name.clone()).collect();
    assert_eq!(names, vec!["Club", "Third", "Other"]);
    assert_eq!(listed[0].member_count, 2);
    assert_eq!(listed[0].channel_count, 1);
    // other members keep their order
    assert!(s.server_members.iter().filter(|m| m.username != "mia").all(|m| m.position == 0));
    s.servers[2].is_active = 0;
    let names: Vec<String> =
        get_user_servers(&s, "mia").unwrap().iter().map(|r| r.name.clone()).collect();
    assert_eq!(names, vec!["Club", "Other"]);
}

#[test]
fn members_are_listed_in_joining_order_with_their_profiles() {
    let mut s = base();
    join_server(&mut s, "Club".to_string(), "mia".to_string()).unwrap();
    join_server(&mut s, "Club".to_string(), "ghost".to_string()).unwrap();
    join_server(&mut s, "Club".to_string(), "zed".to_string()).unwrap();
    s.server_members[0].joined_at = "2024-03-01T00:00:00+00:00".to_string();
    s.server_members[1].joined_at = "2024-01-01T00:00:00+00:00".to_string();
    s.server_members[3].joined_at = "2024-02-01T00:00:00+00:00".to_string();
    let listed = get_server_members(&s, "Club").unwrap();
    let names: Vec<String> = listed.iter().map(|m| m.username.clone()).collect();
    assert_eq!(names, vec!["mia", "zed", "owner"]);
    assert_eq!(listed[0].profile_type, Some("identicon".to_string()));
    assert_eq!(listed[0].avatar_color, None);
}
