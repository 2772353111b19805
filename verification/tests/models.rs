use rchat::models::channel::Channel;
use rchat::models::direct_message::{canonical_pair, DirectMessage};
use rchat::models::login_attempt::LoginAttempt;
use rchat::models::message::{ContentType, FilterStatus, Message};
use rchat::models::server::Server;
use rchat::models::server_member::{ServerMember, ServerRole};
use rchat::models::user::{PasswordType, ProfileType, User, UserResponse};
use rchat::models::user_session::UserSession;
use rchat::models::file::File;
use rchat::utils::clock::{format_instant, Instant, LATEST_INSTANT_TEXT};
use rchat::utils::permissions::{
    check_channel_admin, check_server_admin, check_site_admin, require_admin, standing,
    Standing,
};
use rchat::utils::validation::{
    validate_channel_name, validate_message_content, validate_password, validate_server_name,
    validate_username,
};
use rchat::utils::error::AppError;

#[test]
fn enumerations_have_their_texts() {
    assert_eq!(ContentType::Text.as_str(), "text");
    assert_eq!(ContentType::Markdown.as_str(), "markdown");
    assert_eq!(ContentType::FileAttachment.as_str(), "file_attachment");
    assert_eq!(FilterStatus::Clean.as_str(), "clean");
    assert_eq!(FilterStatus::Filtered.as_str(), "filtered");
    assert_eq!(FilterStatus::Warning.as_str(), "warning");
    assert_eq!(ServerRole::Member.as_str(), "member");
    assert_eq!(ServerRole::Admin.as_str(), "admin");
    assert_eq!(PasswordType::Text.as_str(), "text");
    assert_eq!(PasswordType::WordSequence.as_str(), "word_sequence");
    assert_eq!(PasswordType::parse("text"), Some(PasswordType::Text));
    assert_eq!(PasswordType::parse("word_sequence"), Some(PasswordType::WordSequence));
    assert_eq!(PasswordType::parse("Text"), None);
    assert_eq!(ProfileType::Identicon("s".into()).as_str(), "identicon");
    assert_eq!(ProfileType::Person("c".into()).as_str(), "person");
    assert_eq!(ProfileType::Identicon("s".into()).data(), "s");
    assert_eq!(ProfileType::Person("c".into()).data(), "c");
    assert_eq!(
        ProfileType::from_str_with_data("identicon", Some("s".into())),
        Some(ProfileType::Identicon("s".into()))
    );
    assert_eq!(
        ProfileType::from_str_with_data("person", None),
        Some(ProfileType::Person(String::new()))
    );
    assert_eq!(ProfileType::from_str_with_data("robot", Some("s".into())), None);
}

#[test]
fn new_rows_start_as_they_should() {
    let c = Channel::new("Club".into(), "general".into(), 4);
    assert_eq!((c.server_name.as_str(), c.name.as_str(), c.position), ("Club", "general", 4));
    assert_eq!((c.is_active, c.message_count), (1, 0));
    assert_eq!(c.id.len(), 36);
    assert_ne!(c.id, Channel::new("Club".into(), "general".into(), 4).id);
    assert!(rchat::utils::clock::Instant::eq(&Instant { secs: 1, nanos: 2 }, &Instant { secs: 1, nanos: 2 }));
    assert_eq!(c.duplicate(), c);

    let s = Server::new("Club".into(), "owner".into());
    assert_eq!((s.is_active, s.member_count, s.channel_count), (1, 0, 0));
    assert_eq!(s.duplicate(), s);

    let m = ServerMember::new("Club".into(), "mia".into(), ServerRole::Admin);
    assert_eq!(m.role, "admin");
    assert_eq!(m.joined_at, m.last_seen);
    assert_eq!((m.is_online, m.position), (0, 0));
    assert_eq!((m.profile_type.clone(), m.avatar_color.clone()), (None, None));
    assert_eq!(m.duplicate(), m);

    let msg = Message::new(None, Some("d".into()), "mia".into(), "hi".into(), ContentType::Markdown, FilterStatus::Warning, Some("h*".into()));
    assert_eq!(msg.content_type, "markdown");
    assert_eq!(msg.filter_status, "warning");
    assert_eq!(msg.filtered_content, Some("h*".to_string()));
    assert_eq!((msg.is_deleted, msg.edited_at.clone()), (0, None));
    assert_eq!(msg.duplicate(), msg);

    let a = LoginAttempt::new("mia".into(), "ip".into(), true, Some("mia".into()), None);
    assert_eq!(a.success, 1);
    let b = LoginAttempt::new("mia".into(), "ip".into(), false, None, Some("why".into()));
    assert_eq!(b.success, 0);
    assert_eq!(b.failure_reason, Some("why".to_string()));

    let u = User::new("mia".into(), "h".into(), PasswordType::WordSequence, Some(vec!["a\"b".into(), "c".into()]), ProfileType::Person("#fff".into()), true);
    assert_eq!(u.password_type, "word_sequence");
    assert_eq!(u.word_sequence, Some("[\"a\\\"b\",\"c\"]".to_string()));
    assert_eq!(u.profile_type, "person");
    assert_eq!(u.avatar_color, Some("#fff".to_string()));
    assert_eq!(u.is_admin, 1);
    assert_eq!(u.duplicate(), u);
    let shown = UserResponse::from(u.clone());
    assert_eq!(shown.username, "mia");
    assert!(shown.is_admin);
    assert_eq!(shown.created_at, u.created_at);
    let v = User::new("zed".into(), "h".into(), PasswordType::Text, None, ProfileType::Identicon("s".into()), false);
    assert_eq!(v.avatar_color, None);
    assert!(!UserResponse::from(v).is_admin);
}

#[test]
fn conversations_are_stored_in_canonical_order() {
    assert_eq!(canonical_pair("bob".into(), "alice".into()), ("alice".to_string(), "bob".to_string()));
    assert_eq!(canonical_pair("alice".into(), "bob".into()), ("alice".to_string(), "bob".to_string()));
    assert_eq!(canonical_pair("a".into(), "a".into()), ("a".to_string(), "a".to_string()));
    assert_eq!(canonical_pair("a".into(), "B".into()), ("B".to_string(), "a".to_string()));
    let d = DirectMessage::new("zed".into(), "mia".into());
    assert_eq!((d.username1.as_str(), d.username2.as_str()), ("mia", "zed"));
    assert_eq!((d.message_count, d.is_active, d.last_message_at.clone()), (0, 1, None));
    assert_eq!(d.duplicate(), d);
}

#[test]
fn sessions_last_thirty_days() {
    let s = UserSession::started_at(Instant { secs: 0, nanos: 0 }, "id".into(), Some("mia".into()));
    assert_eq!(s.created_at, "1970-01-01T00:00:00+00:00");
    assert_eq!(s.last_activity, "1970-01-01T00:00:00+00:00");
    assert_eq!(s.expires_at, "1970-01-31T00:00:00+00:00");
    assert_eq!(s.server_preferences, None);
    let n = UserSession::new(None);
    assert_eq!(n.username, None);
    assert_eq!(n.created_at, n.last_activity);
    assert!(n.created_at < n.expires_at);
}

#[test]
fn an_instant_beyond_the_calendar_is_written_as_the_latest_date() {
    let far = File::uploaded_at(Instant { secs: i64::MAX, nanos: 0 }, "id".into(), "n".into(), "n.bin".into(), "text/plain".into(), 1, "h".into(), "mia".into());
    assert_eq!(far.upload_time, "+262142-12-31T23:59:59.999999999+00:00");
    assert_eq!(far.upload_time, chrono::DateTime::<chrono::Utc>::MAX_UTC.to_rfc3339());
    assert_eq!(format_instant(Instant { secs: 0, nanos: 2_000_000_000 }), LATEST_INSTANT_TEXT);
    assert_eq!(format_instant(Instant { secs: 1, nanos: 500_000_000 }), "1970-01-01T00:00:01.500+00:00");
}

#[test]
fn instants() {
    let t = Instant { secs: 10, nanos: 500 };
    assert_eq!(t.plus_seconds(5), Instant { secs: 15, nanos: 500 });
    assert_eq!(t.plus_seconds(-20), Instant { secs: -10, nanos: 500 });
    assert_eq!(Instant { secs: i64::MAX, nanos: 0 }.plus_seconds(1).secs, i64::MAX);
    assert_eq!(Instant { secs: i64::MIN, nanos: 0 }.plus_seconds(-1).secs, i64::MIN);
    assert!(t.is_before(&Instant { secs: 10, nanos: 501 }));
    assert!(t.is_before(&Instant { secs: 11, nanos: 0 }));
    assert!(!t.is_before(&t));
    assert!(Instant { secs: 12, nanos: 499_999_999 }.within_seconds_of(&Instant { secs: 10, nanos: 0 }, 3));
    assert!(!Instant { secs: 13, nanos: 0 }.within_seconds_of(&Instant { secs: 10, nanos: 0 }, 3));
    assert!(Instant { secs: 5, nanos: 0 }.within_seconds_of(&Instant { secs: 10, nanos: 0 }, 3));
}

#[test]
fn locks_hold_until_their_time() {
    let mut u = User::new("mia".into(), "h".into(), PasswordType::Text, None, ProfileType::Identicon("s".into()), false);
    let now = Instant { secs: 1_700_000_000, nanos: 0 };
    assert!(!u.is_locked_at(now));
    u.account_locked = 1;
    assert!(!u.is_locked_at(now));
    u.lock_until = Some("not a time".to_string());
    assert!(!u.is_locked_at(now));
    u.lock_until = Some("2023-11-14T22:13:21+00:00".to_string());
    assert!(u.is_locked_at(now));
    assert!(!u.is_locked_at(Instant { secs: 1_700_000_001, nanos: 0 }));
    u.lock_until = Some("2023-11-15T00:13:20+02:00".to_string());
    assert!(!u.is_locked_at(now));
    u.lock_until = Some("2999-01-01T00:00:00Z".to_string());
    assert!(u.is_locked());
    u.account_locked = 0;
    assert!(!u.is_locked());
}

#[test]
fn names_and_content_are_validated() {
    assert_eq!(validate_username("mia"), Ok(()));
    assert_eq!(validate_username(""), Err(AppError::Validation("Username cannot be empty".to_string())));
    assert_eq!(
        validate_username(&"u".repeat(65)),
        Err(AppError::Validation("Username must be at most 64 characters long".to_string()))
    );
    assert_eq!(
        validate_username("mi\u{e4}"),
        Err(AppError::Validation("Username must contain only printable ASCII characters".to_string()))
    );
    assert_eq!(
        validate_username("fuck"),
        Err(AppError::Validation("Username contains inappropriate language".to_string()))
    );
    assert_eq!(validate_server_name("Book club"), Ok(()));
    assert_eq!(validate_channel_name("general"), Ok(()));
    assert_eq!(validate_message_content("hi"), Ok(()));
    assert_eq!(validate_message_content(&"é".repeat(2000)), Ok(()));
    assert_eq!(
        validate_message_content(&"é".repeat(2001)),
        Err(AppError::Validation("Message content must be at most 4000 characters long".to_string()))
    );
    assert_eq!(
        validate_message_content(""),
        Err(AppError::Validation("Message content cannot be empty".to_string()))
    );
    assert_eq!(validate_password(&"p".repeat(128)), Ok(()));
    assert_eq!(
        validate_password(&"p".repeat(129)),
        Err(AppError::Validation("Password must be at most 128 characters long".to_string()))
    );
    assert_eq!(validate_password(""), Err(AppError::Validation("Password cannot be empty".to_string())));
}

#[test]
fn administrators_are_resolved_by_scope() {
    let mut s = rchat::database::Store::new();
    s.users.push(User::new("root".into(), "h".into(), PasswordType::Text, None, ProfileType::Identicon("s".into()), true));
    s.users.push(User::new("mia".into(), "h".into(), PasswordType::Text, None, ProfileType::Identicon("s".into()), false));
    rchat::services::server::create_server(&mut s, "Club".into(), "owner".into()).unwrap();
    rchat::services::server::add_member(&mut s, "Club".into(), "mia".into(), ServerRole::Member);
    let channel = s.channels[0].id.clone();
    assert_eq!(check_site_admin(&s, "root"), Ok(true));
    assert_eq!(check_site_admin(&s, "mia"), Ok(false));
    assert_eq!(check_site_admin(&s, "nobody"), Ok(false));
    assert_eq!(check_server_admin(&s, "owner", "Club"), Ok(true));
    assert_eq!(check_server_admin(&s, "mia", "Club"), Ok(false));
    assert_eq!(check_server_admin(&s, "owner", "Other"), Ok(false));
    assert_eq!(check_channel_admin(&s, "owner", &channel), Ok(true));
    assert_eq!(check_channel_admin(&s, "mia", &channel), Ok(false));
    assert_eq!(check_channel_admin(&s, "owner", "missing"), Ok(false));
    assert_eq!(standing(&s, "Club", "root"), Standing::SiteAdmin);
    assert_eq!(standing(&s, "Club", "owner"), Standing::CommunityAdmin);
    assert_eq!(standing(&s, "Club", "mia"), Standing::Member);
    assert_eq!(standing(&s, "Club", "zed"), Standing::Stranger);
    assert_eq!(standing(&s, "Other", "owner"), Standing::Stranger);
    assert_eq!(require_admin(&s, "root", None, None), Ok(()));
    // a site administrator needs no membership
    assert_eq!(require_admin(&s, "root", Some("Club"), None), Ok(()));
    assert_eq!(require_admin(&s, "root", None, Some(&channel)), Ok(()));
    assert_eq!(require_admin(&s, "root", Some("Nowhere"), None), Ok(()));
    // no membership is another failure than a membership without the role
    assert_eq!(
        require_admin(&s, "zed", Some("Club"), None),
        Err(AppError::Unauthorized("Not a member of this server".to_string()))
    );
    assert_eq!(
        require_admin(&s, "zed", None, Some(&channel)),
        Err(AppError::Unauthorized("Not a member of this server".to_string()))
    );
    assert_eq!(
        require_admin(&s, "mia", None, Some("missing")),
        Err(AppError::Unauthorized("Channel admin privileges required".to_string()))
    );
    assert_eq!(require_admin(&s, "owner", Some("Club"), None), Ok(()));
    assert_eq!(require_admin(&s, "owner", Some("Club"), Some("missing")), Ok(()));
    assert_eq!(require_admin(&s, "owner", None, Some(&channel)), Ok(()));
    assert_eq!(
        require_admin(&s, "mia", Some("Club"), None),
        Err(AppError::Unauthorized("Server admin privileges required".to_string()))
    );
    assert_eq!(
        require_admin(&s, "mia", None, Some(&channel)),
        Err(AppError::Unauthorized("Channel admin privileges required".to_string()))
    );
    assert_eq!(
        require_admin(&s, "owner", None, None),
        Err(AppError::Unauthorized("Site admin privileges required".to_string()))
    );
}
