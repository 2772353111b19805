use rchat::database::Store;
use rchat::models::login_attempt::LoginAttempt;
use rchat::models::user::{CreateUserRequest, PasswordType, ProfileType, User};
use rchat::services::auth::{
    check_registration, finish_registration, join_words, login_user, login_user_at,
    register_user, secret_of, LoginRequest, LoginResponse, RegisterResponse,
};
use rchat::services::default_server::ensure_default_server;
use rchat::utils::clock::Instant;
use rchat::utils::crypto::{hash_password, hashed, verify_password};
use rchat::utils::error::AppError;

fn ready() -> Store {
    let mut s = Store::new();
    ensure_default_server(&mut s, None).unwrap();
    s
}

fn with_password(name: &str, password: &str) -> CreateUserRequest {
    CreateUserRequest {
        username: name.to_string(),
        password: Some(password.to_string()),
        word_sequence: None,
        profile_type: ProfileType::Person("#abcdef".to_string()),
    }
}

fn seven() -> Vec<String> {
    ["one", "two", "three", "four", "five", "six", "seven"].iter().map(|w| w.to_string()).collect()
}

fn login(name: &str, password: &str) -> LoginRequest {
    LoginRequest { username: name.to_string(), password: Some(password.to_string()), word_sequence: None }
}

const T0: Instant = Instant { secs: 1_700_000_000, nanos: 0 };

#[test]
fn the_first_identity_becomes_site_administrator() {
    let mut s = ready();
    let first = register_user(&mut s, with_password("alice", "pw-one")).unwrap();
    assert_eq!(first.user.username, "alice");
    assert!(first.user.is_admin);
    assert_eq!(first.user.profile_type, "person");
    assert_eq!(first.user.avatar_color, Some("#abcdef".to_string()));
    assert_eq!(first.word_sequence, None);
    let second = register_user(&mut s, with_password("bob", "pw-two")).unwrap();
    assert!(!second.user.is_admin);
    let alice = s.users.iter().find(|u| u.username == "alice").unwrap();
    assert_eq!(alice.is_admin, 1);
    assert_eq!(alice.password_type, "text");
    assert_eq!(alice.word_sequence, None);
    assert_eq!(alice.login_attempts, 0);
    assert_eq!(alice.account_locked, 0);
    assert_ne!(alice.password_hash, "pw-one");
    assert_eq!(verify_password("pw-one", &alice.password_hash), Ok(true));
    assert_eq!(verify_password("pw-two", &alice.password_hash), Ok(false));
    assert!(s.is_member("RChat", "alice"));
    assert!(s.is_member("RChat", "bob"));
    assert_eq!(s.servers[0].member_count, 2);
    // each identity has a conversation with itself
    assert!(s.direct_messages.iter().any(|d| d.username1 == "bob" && d.username2 == "bob"));
}

#[test]
fn registration_with_a_word_sequence() {
    let mut s = ready();
    let req = CreateUserRequest {
        username: "carol".to_string(),
        password: None,
        word_sequence: Some(seven()),
        profile_type: ProfileType::Identicon("seed".to_string()),
    };
    let got = register_user(&mut s, req).unwrap();
    assert_eq!(got.word_sequence, Some(seven()));
    let row = s.users.iter().find(|u| u.username == "carol").unwrap();
    assert_eq!(row.password_type, "word_sequence");
    assert_eq!(
        row.word_sequence,
        Some("[\"one\",\"two\",\"three\",\"four\",\"five\",\"six\",\"seven\"]".to_string())
    );
    assert_eq!(row.profile_type, "identicon");
    assert_eq!(row.avatar_color, None);
    assert_eq!(verify_password("one two three four five six seven", &row.password_hash), Ok(true));
    let request = LoginRequest {
        username: "carol".to_string(),
        password: None,
        word_sequence: Some(seven()),
    };
    assert!(login_user_at(&mut s, request, "ip".to_string(), T0).is_ok());
}

#[test]
fn registration_is_refused_in_order() {
    let mut s = ready();
    register_user(&mut s, with_password("alice", "pw")).unwrap();
    let before = s.clone();
    let cases: Vec<(CreateUserRequest, AppError)> = vec![
        (with_password("", "pw"), AppError::Validation("Username cannot be empty".to_string())),
        (
            with_password(&"n".repeat(65), "pw"),
            AppError::Validation("Username must be at most 64 characters long".to_string()),
        ),
        (
            with_password("fuck", "pw"),
            AppError::Validation("Username contains inappropriate language".to_string()),
        ),
        (with_password("ALICE", "pw"), AppError::Conflict("Username already exists".to_string())),
        (with_password("dave", ""), AppError::Validation("Password cannot be empty".to_string())),
        (
            with_password("dave", &"p".repeat(129)),
            AppError::Validation("Password must be at most 128 characters long".to_string()),
        ),
        (
            CreateUserRequest {
                username: "dave".to_string(),
                password: None,
                word_sequence: Some(vec!["one".to_string()]),
                profile_type: ProfileType::Identicon(String::new()),
            },
            AppError::Validation("Word sequence must contain exactly 7 words".to_string()),
        ),
        (
            CreateUserRequest {
                username: "dave".to_string(),
                password: None,
                word_sequence: None,
                profile_type: ProfileType::Identicon(String::new()),
            },
            AppError::BadRequest("Must provide either password or word sequence".to_string()),
        ),
        (
            CreateUserRequest {
                username: "dave".to_string(),
                password: Some("pw".to_string()),
                word_sequence: Some(seven()),
                profile_type: ProfileType::Identicon(String::new()),
            },
            AppError::BadRequest("Must provide either password or word sequence".to_string()),
        ),
    ];
    for (req, expected) in cases {
        assert_eq!(check_registration(&s, &req), Err(expected.clone()));
        assert_eq!(register_user(&mut s, req), Err(expected));
        assert_eq!(s, before);
    }
    assert_eq!(check_registration(&s, &with_password("dave", "pw")), Ok("pw".to_string()));
}

#[test]
fn a_failed_hash_ends_the_registration() {
    let mut s = ready();
    let before = s.clone();
    assert_eq!(
        finish_registration(&mut s, with_password("erin", "pw"), Err("out of memory".to_string())),
        Err(AppError::Internal("Failed to hash password: out of memory".to_string()))
    );
    assert_eq!(s, before);
    assert_eq!(hashed(Ok("h".to_string())), Ok("h".to_string()));
    let got = finish_registration(&mut s, with_password("erin", "pw"), Ok("the-hash".to_string())).unwrap();
    assert_eq!(got.user.username, "erin");
    assert_eq!(s.users.last().unwrap().password_hash, "the-hash");
}

#[test]
fn registration_without_default_community_leaves_the_identity() {
    let mut s = Store::new();
    assert_eq!(
        finish_registration(&mut s, with_password("erin", "pw"), Ok("h".to_string())),
        Err(AppError::NotFound("Server not found".to_string()))
    );
    assert_eq!(s.users.len(), 1);
    assert!(s.server_members.is_empty());
    assert!(s.direct_messages.is_empty());
}

#[test]
fn words_are_joined_by_single_spaces() {
    assert_eq!(join_words(&seven()), "one two three four five six seven");
    assert_eq!(join_words(&vec!["solo".to_string()]), "solo");
    assert_eq!(join_words(&Vec::new()), "");
    assert_eq!(secret_of(&Some("pw".to_string()), &None), Some("pw".to_string()));
    assert_eq!(secret_of(&None, &Some(seven())), Some("one two three four five six seven".to_string()));
    assert_eq!(secret_of(&None, &None), None);
    assert_eq!(secret_of(&Some("pw".to_string()), &Some(seven())), None);
}

#[test]
fn password_hashes_verify_and_bad_hashes_are_reported() {
    let h = hash_password("correct horse").unwrap();
    assert_eq!(verify_password("correct horse", &h), Ok(true));
    assert_eq!(verify_password("wrong horse", &h), Ok(false));
    match verify_password("x", "not a hash") {
        Err(AppError::Internal(m)) => assert!(m.starts_with("Failed to parse password hash: ")),
        other => panic!("unexpected: {:?}", other),
    }
}

#[test]
fn login_succeeds_and_records_it() {
    let mut s = ready();
    register_user(&mut s, with_password("alice", "pw")).unwrap();
    s.server_members.retain(|m| m.username != "alice");
    s.users[1].login_attempts = 5;
    let shown = login_user_at(&mut s, login("Alice", "pw"), "10.0.0.1".to_string(), T0).unwrap();
    assert_eq!(shown.username, "alice");
    assert!(shown.is_admin);
    let row = s.users.iter().find(|u| u.username == "alice").unwrap();
    assert_eq!(row.login_attempts, 0);
    assert_eq!(row.account_locked, 0);
    assert_eq!(row.lock_until, None);
    assert_eq!(row.last_login, Some("2023-11-14T22:13:20+00:00".to_string()));
    let attempt = s.login_attempts.last().unwrap();
    assert_eq!(attempt.username, "Alice");
    assert_eq!(attempt.ip_address, "10.0.0.1");
    assert_eq!(attempt.success, 1);
    assert_eq!(attempt.timestamp, "2023-11-14T22:13:20+00:00");
    assert_eq!(attempt.attempted_username, Some("alice".to_string()));
    assert_eq!(attempt.failure_reason, None);
    // the safety net: the identity is a member of the default community again
    assert!(s.is_member("RChat", "alice"));
}

#[test]
fn login_fails_for_unknown_identity_and_wrong_password() {
    let mut s = ready();
    register_user(&mut s, with_password("alice", "pw")).unwrap();
    assert_eq!(
        login_user_at(&mut s, login("nobody", "pw"), "ip".to_string(), T0),
        Err(AppError::Auth("Invalid credentials".to_string()))
    );
    let attempt = s.login_attempts.last().unwrap();
    assert_eq!(attempt.success, 0);
    assert_eq!(attempt.attempted_username, None);
    assert_eq!(attempt.failure_reason, Some("User not found".to_string()));

    assert_eq!(
        login_user_at(&mut s, login("alice", "nope"), "ip".to_string(), T0),
        Err(AppError::Auth("Invalid credentials".to_string()))
    );
    let row = s.users.iter().find(|u| u.username == "alice").unwrap();
    assert_eq!(row.login_attempts, 1);
    assert_eq!(row.account_locked, 0);
    assert_eq!(row.lock_until, None);
    let attempt = s.login_attempts.last().unwrap();
    assert_eq!(attempt.success, 0);
    assert_eq!(attempt.attempted_username, Some("alice".to_string()));
    assert_eq!(attempt.failure_reason, Some("Invalid password".to_string()));
}

#[test]
fn attempts_must_be_three_seconds_apart() {
    let mut s = ready();
    register_user(&mut s, with_password("alice", "pw")).unwrap();
    let _ = login_user_at(&mut s, login("alice", "nope"), "ip".to_string(), T0);
    let before = s.clone();
    let soon = Instant { secs: T0.secs + 2, nanos: 999_999_999 };
    assert_eq!(
        login_user_at(&mut s, login("alice", "pw"), "ip".to_string(), soon),
        Err(AppError::RateLimitExceeded)
    );
    assert_eq!(s, before);
    // an attempt for another spelling is another name on the record
    assert!(login_user_at(&mut s.clone(), login("ALICE", "pw"), "ip".to_string(), soon).is_ok());
    let later = Instant { secs: T0.secs + 3, nanos: 0 };
    assert!(login_user_at(&mut s, login("alice", "pw"), "ip".to_string(), later).is_ok());
}

#[test]
fn an_unreadable_time_stamp_does_not_limit() {
    let mut s = ready();
    register_user(&mut s, with_password("alice", "pw")).unwrap();
    s.login_attempts.push(LoginAttempt::at(
        "yesterday".to_string(),
        "alice".to_string(),
        "ip".to_string(),
        false,
        None,
        None,
    ));
    assert!(login_user_at(&mut s, login("alice", "pw"), "ip".to_string(), T0).is_ok());
}

#[test]
fn the_thousandth_failure_locks_for_a_day() {
    let mut s = ready();
    register_user(&mut s, with_password("alice", "pw")).unwrap();
    s.users[1].login_attempts = 998;
    let _ = login_user_at(&mut s, login("alice", "nope"), "ip".to_string(), T0);
    assert_eq!(s.users[1].login_attempts, 999);
    assert_eq!(s.users[1].account_locked, 0);
    let t1 = Instant { secs: T0.secs + 10, nanos: 0 };
    let _ = login_user_at(&mut s, login("alice", "nope"), "ip".to_string(), t1);
    assert_eq!(s.users[1].login_attempts, 1000);
    assert_eq!(s.users[1].account_locked, 1);
    assert_eq!(s.users[1].lock_until, Some("2023-11-15T22:13:30+00:00".to_string()));
    assert!(s.users[1].is_locked_at(Instant { secs: t1.secs + 86_399, nanos: 0 }));
    assert!(!s.users[1].is_locked_at(Instant { secs: t1.secs + 86_400, nanos: 0 }));
    let before = s.clone();
    let t2 = Instant { secs: t1.secs + 100, nanos: 0 };
    assert_eq!(
        login_user_at(&mut s, login("alice", "pw"), "ip".to_string(), t2),
        Err(AppError::Auth("Account is locked. Try again later.".to_string()))
    );
    assert_eq!(s, before);
    let t3 = Instant { secs: t1.secs + 86_400, nanos: 0 };
    assert!(login_user_at(&mut s, login("alice", "pw"), "ip".to_string(), t3).is_ok());
    assert_eq!(s.users[1].account_locked, 0);
}

#[test]
fn login_needs_exactly_one_credential() {
    let mut s = ready();
    register_user(&mut s, with_password("alice", "pw")).unwrap();
    let before = s.clone();
    let none = LoginRequest { username: "alice".to_string(), password: None, word_sequence: None };
    assert_eq!(
        login_user_at(&mut s, none, "ip".to_string(), T0),
        Err(AppError::BadRequest("Must provide either password or word sequence".to_string()))
    );
    assert_eq!(s, before);
    s.users[1].password_hash = "garbage".to_string();
    match login_user_at(&mut s, login("alice", "pw"), "ip".to_string(), T0) {
        Err(AppError::Internal(m)) => assert!(m.starts_with("Failed to parse password hash: ")),
        other => panic!("unexpected: {:?}", other),
    }
}

#[test]
fn login_now_uses_the_clock() {
    let mut s = ready();
    register_user(&mut s, with_password("alice", "pw")).unwrap();
    assert!(login_user(&mut s, login("alice", "pw"), "ip".to_string()).is_ok());
    assert_eq!(
        login_user(&mut s, login("alice", "pw"), "ip".to_string()),
        Err(AppError::RateLimitExceeded)
    );
}

#[test]
fn responses_carry_the_token() {
    let mut s = ready();
    let reg = register_user(&mut s, with_password("alice", "pw")).unwrap();
    let user = reg.user.clone();
    let r = RegisterResponse::new(reg, "tok".to_string());
    assert_eq!(r.token, "tok");
    assert_eq!(r.user, user);
    let l = LoginResponse::new(user.clone(), "tok2".to_string());
    assert_eq!(l.user, user);
    assert_eq!(l.token, "tok2");
}

#[test]
fn setup_creates_what_is_missing_once() {
    let mut s = Store::new();
    let (name, channel) = ensure_default_server(&mut s, Some("boss")).unwrap();
    assert_eq!(name, "RChat");
    assert_eq!(s.users.len(), 2);
    assert_eq!(s.users[0].username, "system");
    assert_eq!(s.users[0].is_admin, 0);
    assert_eq!(s.users[0].avatar_color, Some("#808080".to_string()));
    assert_eq!(s.users[0].profile_type, "identicon");
    assert_eq!(verify_password("system-internal-only", &s.users[0].password_hash), Ok(true));
    assert_eq!(s.users[1].username, "boss");
    assert_eq!(s.users[1].is_admin, 1);
    assert_eq!(s.servers.len(), 1);
    assert_eq!(s.servers[0].creator_username, "system");
    assert_eq!(s.channels.len(), 1);
    assert_eq!(s.channels[0].id, channel);
    assert_eq!(s.channels[0].name, "general");
    // on the first run the community did not exist when the administrator was made
    assert!(!s.is_member("RChat", "boss"));
    let (_, again) = ensure_default_server(&mut s, Some("boss")).unwrap();
    assert_eq!(again, channel);
    assert_eq!(s.users.len(), 2);
    assert_eq!(s.servers.len(), 1);
    assert_eq!(s.channels.len(), 1);
    assert!(s.is_member("RChat", "boss"));
    let snapshot = s.clone();
    ensure_default_server(&mut s, Some("boss")).unwrap();
    assert_eq!(s, snapshot);
}

#[test]
fn first_time_creation_of_the_default_community() {
    let mut s = Store::new();
    rchat::services::init::ensure_rchat_server(&mut s).unwrap();
    assert_eq!(s.servers.len(), 1);
    assert_eq!(s.servers[0].name, "RChat");
    assert_eq!(s.servers[0].creator_username, "system");
    assert_eq!((s.servers[0].member_count, s.servers[0].channel_count), (0, 1));
    assert_eq!(s.channels.len(), 1);
    assert_eq!(s.channels[0].name, "general");
    let once = s.clone();
    rchat::services::init::ensure_rchat_server(&mut s).unwrap();
    assert_eq!(s, once);
}

#[test]
fn internal_identities_are_added_with_a_given_hash() {
    let mut s = Store::new();
    assert_eq!(
        rchat::services::default_server::add_internal_user(&mut s, "svc", true, Err("boom".to_string())),
        Err(AppError::Internal("Failed to hash password: boom".to_string()))
    );
    assert!(s.users.is_empty());
    rchat::services::default_server::add_internal_user(&mut s, "svc", true, Ok("h".to_string())).unwrap();
    let u: &User = &s.users[0];
    assert_eq!(u.username, "svc");
    assert_eq!(u.password_hash, "h");
    assert_eq!(u.password_type, PasswordType::Text.as_str());
    assert_eq!(u.is_admin, 1);
}
