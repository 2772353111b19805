use rchat::database::Store;
use rchat::models::file::File;
use rchat::models::message::ContentType;
use rchat::models::user::{CreateUserRequest, PasswordType, ProfileType, User};
use rchat::services::auth::{check_registration, validate_username};
use rchat::services::chat::create_message;
use rchat::services::direct_message::get_or_create_dm;
use rchat::services::server::{create_server, join_server};
use rchat::services::user_moderation::{server_ban_user, site_ban_user};
use rchat::utils::error::AppError;

fn user(name: &str, admin: bool) -> User {
    User::new(
        name.to_string(),
        "hash".to_string(),
        PasswordType::Text,
        None,
        ProfileType::Identicon("seed".to_string()),
        admin,
    )
}

fn world() -> Store {
    let mut s = Store::new();
    s.users.push(user("root", true));
    s.users.push(user("owner", false));
    s.users.push(user("Mallory", false));
    s.users.push(user("mia", false));
    create_server(&mut s, "Club".to_string(), "owner".to_string()).unwrap();
    create_server(&mut s, "Other".to_string(), "mia".to_string()).unwrap();
    join_server(&mut s, "Club".to_string(), "Mallory".to_string()).unwrap();
    join_server(&mut s, "Other".to_string(), "Mallory".to_string()).unwrap();
    join_server(&mut s, "Club".to_string(), "mia".to_string()).unwrap();
    s
}

fn request(name: &str) -> CreateUserRequest {
    CreateUserRequest {
        username: name.to_string(),
        password: Some("secret".to_string()),
        word_sequence: None,
        profile_type: ProfileType::Identicon("seed".to_string()),
    }
}

#[test]
fn site_ban_purges_every_trace() {
    let mut s = world();
    let channel = s.channels[0].id.clone();
    create_message(&mut s, Some(channel.clone()), None, "Mallory".to_string(), "spam".to_string(), ContentType::Text).unwrap();
    create_message(&mut s, Some(channel), None, "mia".to_string(), "fine".to_string(), ContentType::Text).unwrap();
    get_or_create_dm(&mut s, "mia".to_string(), "Mallory".to_string()).unwrap();
    get_or_create_dm(&mut s, "mia".to_string(), "owner".to_string()).unwrap();
    s.files.push(File::new("a".into(), "a.bin".into(), "text/plain".into(), 1, "h1".into(), "MALLORY".into()));
    s.files.push(File::new("b".into(), "b.bin".into(), "text/plain".into(), 1, "h2".into(), "mia".into()));

    assert_eq!(site_ban_user(&mut s, "mallory", "ROOT"), Ok(()));

    assert_eq!(s.banned_usernames.len(), 1);
    assert_eq!(s.banned_usernames[0].username, "mallory");
    assert_eq!(s.banned_usernames[0].banned_by, "ROOT");
    assert_eq!(s.banned_usernames[0].reason, "Site ban");
    assert!(s.messages.iter().all(|m| !m.sender_username.eq_ignore_ascii_case("mallory")));
    assert_eq!(s.messages.len(), 1);
    assert!(s.server_members.iter().all(|m| !m.username.eq_ignore_ascii_case("mallory")));
    assert_eq!(s.direct_messages.len(), 1);
    assert_eq!(s.files.len(), 1);
    assert_eq!(s.files[0].uploader_username, "mia");
    assert!(s.users.iter().all(|u| !u.username.eq_ignore_ascii_case("mallory")));
    assert_eq!(s.users.len(), 3);
    assert_eq!(s.servers[0].member_count, 2);
    assert_eq!(s.servers[1].member_count, 1);
}

#[test]
fn a_banned_name_cannot_register_in_any_case() {
    let mut s = world();
    site_ban_user(&mut s, "Mallory", "root").unwrap();
    let banned = Err(AppError::BadRequest("Username is permanently banned".to_string()));
    for name in ["Mallory", "mallory", "MALLORY", "mAlLoRy"] {
        assert_eq!(validate_username(&s, name), banned);
        assert_eq!(check_registration(&s, &request(name)).map(|_| ()), banned);
        let before = s.clone();
        assert_eq!(
            rchat::services::auth::register_user(&mut s, request(name)).map(|_| ()),
            banned
        );
        assert_eq!(s, before);
    }
    assert!(check_registration(&s, &request("malory")).is_ok());
}

#[test]
fn site_ban_is_refused_for_the_wrong_requester_or_target() {
    let mut s = world();
    let before = s.clone();
    assert_eq!(
        site_ban_user(&mut s, "Mallory", "mia"),
        Err(AppError::Forbidden("Only site admins can site-ban users".to_string()))
    );
    assert_eq!(
        site_ban_user(&mut s, "Mallory", "nobody"),
        Err(AppError::Forbidden("Only site admins can site-ban users".to_string()))
    );
    assert_eq!(
        site_ban_user(&mut s, "nobody", "root"),
        Err(AppError::NotFound("User not found".to_string()))
    );
    assert_eq!(
        site_ban_user(&mut s, "Root", "root"),
        Err(AppError::BadRequest("Cannot ban yourself".to_string()))
    );
    assert_eq!(s, before);
}

#[test]
fn site_ban_can_be_run_again() {
    let mut s = world();
    site_ban_user(&mut s, "Mallory", "root").unwrap();
    // the identity is gone, so a second ban finds no target and changes nothing
    let after = s.clone();
    assert_eq!(
        site_ban_user(&mut s, "Mallory", "root"),
        Err(AppError::NotFound("User not found".to_string()))
    );
    assert_eq!(s, after);
}

#[test]
fn community_ban_removes_one_membership_and_blocks_joining() {
    let mut s = world();
    let channel = s.channels[0].id.clone();
    create_message(&mut s, Some(channel), None, "Mallory".to_string(), "stays".to_string(), ContentType::Text).unwrap();
    assert_eq!(
        server_ban_user(&mut s, "Club", "Mallory", "owner", Some("rude".to_string())),
        Ok(())
    );
    assert_eq!(s.server_bans.len(), 1);
    assert_eq!(s.server_bans[0].server_name, "Club");
    assert_eq!(s.server_bans[0].username, "Mallory");
    assert_eq!(s.server_bans[0].banned_by, "owner");
    assert_eq!(s.server_bans[0].reason, Some("rude".to_string()));
    assert!(!s.is_member("Club", "Mallory"));
    assert!(s.is_member("Other", "Mallory"));
    assert_eq!(s.messages.len(), 1);
    assert_eq!(s.servers[0].member_count, 2);
    let before = s.clone();
    let refused = Err(AppError::Forbidden("You are banned from this server".to_string()));
    assert_eq!(join_server(&mut s, "Club".to_string(), "Mallory".to_string()), refused);
    assert_eq!(join_server(&mut s, "club".to_string(), "Mallory".to_string()), refused);
    // whatever happens in between: the ban stays
    join_server(&mut s, "Other".to_string(), "owner".to_string()).unwrap();
    assert_eq!(join_server(&mut s, "CLUB".to_string(), "Mallory".to_string()), refused);
    assert_eq!(s.server_bans, before.server_bans);
    assert!(!s.is_member("Club", "Mallory"));
}

#[test]
fn community_ban_is_refused_in_order() {
    let mut s = world();
    s.servers.push(rchat::models::server::Server::new("RChat".to_string(), "system".to_string()));
    let before = s.clone();
    assert_eq!(
        server_ban_user(&mut s, "RChat", "Mallory", "root", None),
        Err(AppError::BadRequest("Cannot ban users from RChat server".to_string()))
    );
    assert_eq!(
        server_ban_user(&mut s, "Nowhere", "Mallory", "root", None),
        Err(AppError::NotFound("Server not found".to_string()))
    );
    assert_eq!(
        server_ban_user(&mut s, "Club", "owner", "root", None),
        Err(AppError::BadRequest("Cannot ban server owner".to_string()))
    );
    assert_eq!(
        server_ban_user(&mut s, "Club", "Mallory", "mia", None),
        Err(AppError::Unauthorized("Server admin privileges required".to_string()))
    );
    assert_eq!(
        server_ban_user(&mut s, "Club", "Mallory", "stranger", None),
        Err(AppError::Unauthorized("Not a member of this server".to_string()))
    );
    assert_eq!(s, before);
    server_ban_user(&mut s, "Club", "Mallory", "root", None).unwrap();
    let after = s.clone();
    assert_eq!(
        server_ban_user(&mut s, "Club", "Mallory", "owner", None),
        Err(AppError::Conflict("User is already banned".to_string()))
    );
    assert_eq!(s, after);
    // somebody who never was a member can be banned too
    server_ban_user(&mut s, "Club", "never", "owner", None).unwrap();
    assert_eq!(s.server_bans.len(), 2);
}
