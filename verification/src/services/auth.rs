//! Registration and login.
use vstd::prelude::*;
use vstd::string::StringExecFns;
use vstd::utf8::encode_utf8;
use crate::database::query::{except, user_is, user_like, Except, UserIs, UserLike};
use crate::database::table::{
    any, count, count_where, exists_where, first, position_where, rewrite_where, rewritten,
    Rewrite,
};
use crate::database::Store;
use crate::models::login_attempt::LoginAttempt;
use crate::models::user::{
    json_array_text, opt_text, password_type_text, profile_color, profile_type_text, texts,
    CreateUserRequest, PasswordType, User, UserResponse,
};
use crate::services::direct_message::{conversation_state, get_or_create_dm};
use crate::services::profanity::{contains_profanity, is_inappropriate};
use crate::services::server::{join_rejection, join_server, joined_state, DEFAULT_SERVER};
use crate::text::{name_lt, str_eq, str_lt};
use crate::utils::clock::{
    format_instant, nanos_between, parse_instant, rfc3339_instant, rfc3339_text, shifted,
    system_now, Instant,
};
use crate::utils::crypto::{argon2_hash, password_check, verify_password};
use crate::utils::error::{rejected_as, rejection, AppError, AppResult, ErrorKind, Rejection};
use crate::utils::validation::{
    byte_len, password_rejection, validate_password, MAX_NAME_LENGTH,
};

verus! {

/// What a successful registration returns, together with the session token.
#[derive(Debug, Clone, PartialEq, Eq)]
pub struct RegisterResponse {
    pub user: UserResponse,
    pub token: String,
    pub word_sequence: Option<Vec<String>>,
}

/// A request to log in, with a password or with a word sequence.
#[derive(Debug, Clone, PartialEq, Eq)]
pub struct LoginRequest {
    pub username: String,
    pub password: Option<String>,
    pub word_sequence: Option<Vec<String>>,
}

/// What a successful login returns, together with the session token.
#[derive(Debug, Clone, PartialEq, Eq)]
pub struct LoginResponse {
    pub user: UserResponse,
    pub token: String,
}

/// A registered identity, before a session token is issued for it.
#[derive(Debug, Clone, PartialEq, Eq)]
pub struct Registered {
    pub user: UserResponse,
    pub word_sequence: Option<Vec<String>>,
}

/// The name of the identity that stands for the service itself.
pub const SYSTEM_USER: &'static str = "system";

/// The number of words in a word sequence.
pub const WORD_SEQUENCE_LENGTH: usize = 7;

/// The number of failed attempts at which an account is locked.
pub const LOCK_THRESHOLD: i64 = 1000;

/// Seconds for which a locked account stays locked: one day.
pub const LOCK_SECONDS: i64 = 86_400;

/// Seconds that must pass between two login attempts for one name.
pub const ATTEMPT_SPACING_SECONDS: u32 = 3;

/// The word sequence from which the identity `username` may pick the words
/// it logs in with, drawn from the usable words of `words`, of which there
/// must be at least twenty.
pub fn generate_word_sequence_for_username(words: &Vec<String>, username: &str) -> (r: Vec<String>)
    requires
        crate::services::word_sequence::usable(words@).len()
            >= crate::services::word_sequence::SEQUENCE_SIZE,
    ensures
        texts(r@) == crate::services::word_sequence::word_sequence(words@, username@),
{
    crate::services::word_sequence::get_word_sequence_for_username(words, username)
}

/// Words written one after the other with a space between neighbours.
pub open spec fn joined_words(words: Seq<Seq<char>>) -> Seq<char>
    decreases words.len(),
{
    if words.len() == 0 {
        Seq::empty()
    } else if words.len() == 1 {
        words[0]
    } else {
        joined_words(words.drop_last()) + seq![' '] + words.last()
    }
}

/// Writes words one after the other with a space between neighbours.
pub fn join_words(words: &Vec<String>) -> (r: String)
    ensures
        r@ == joined_words(texts(words@)),
{
    let mut out = String::new();
    let mut i: usize = 0;
    while i < words.len()
        invariant
            i <= words@.len(),
            out@ == joined_words(texts(words@.take(i as int))),
        decreases words@.len() - i,
    {
        let ghost before = out@;
        if i > 0 {
            proof {
                reveal_strlit(" ");
            }
            out.append(" ");
        }
        out.append(words[i].as_str());
        proof {
            let t = texts(words@.take(i + 1));
            assert(t.drop_last() =~= texts(words@.take(i as int)));
            assert(t.last() == words@[i as int]@);
            if i > 0 {
                assert(" "@ =~= seq![' ']);
            } else {
                assert(before =~= Seq::<char>::empty());
                assert(out@ =~= t[0]);
            }
        }
        i += 1;
    }
    proof {
        assert(words@.take(words@.len() as int) =~= words@);
    }
    out
}

/// Why `username` cannot be taken by a new identity, if it cannot: it is
/// empty, longer than 64 bytes, inappropriate, or banned from the site.
pub open spec fn new_username_rejection(s: Store, username: Seq<char>) -> Option<Rejection> {
    if username.len() == 0 {
        Some(rejection(ErrorKind::Validation, "Username cannot be empty"))
    } else if encode_utf8(username).len() > MAX_NAME_LENGTH {
        Some(rejection(ErrorKind::Validation, "Username must be at most 64 characters long"))
    } else if is_inappropriate(username) {
        Some(rejection(ErrorKind::Validation, "Username contains inappropriate language"))
    } else if s.site_banned(username) {
        Some(rejection(ErrorKind::BadRequest, "Username is permanently banned"))
    } else {
        None
    }
}

/// Checks that `username` can be taken by a new identity.
pub fn validate_username(pool: &Store, username: &str) -> (res: AppResult<()>)
    ensures
        crate::utils::validation::decided(res, new_username_rejection(*pool, username@)),
{
    if username.is_empty() {
        return Err(AppError::Validation("Username cannot be empty".to_string()));
    }
    if byte_len(username) > MAX_NAME_LENGTH {
        return Err(
            AppError::Validation("Username must be at most 64 characters long".to_string()),
        );
    }
    if contains_profanity(username) {
        return Err(AppError::Validation("Username contains inappropriate language".to_string()));
    }
    if pool.is_site_banned(username) {
        return Err(AppError::BadRequest("Username is permanently banned".to_string()));
    }
    Ok(())
}

/// The secret that a request presents: the password, or the words of the
/// word sequence joined by spaces; `None` unless exactly one of the two is
/// given.
pub open spec fn secret_text(password: Option<String>, words: Option<Vec<String>>) -> Option<
    Seq<char>,
> {
    match (password, words) {
        (Some(p), None) => Some(p@),
        (None, Some(w)) => Some(joined_words(texts(w@))),
        _ => None,
    }
}

/// The secret that a request presents.
pub fn secret_of(password: &Option<String>, words: &Option<Vec<String>>) -> (r: Option<String>)
    ensures
        opt_text(r) == secret_text(*password, *words),
{
    match (password, words) {
        (Some(p), None) => Some(p.clone()),
        (None, Some(w)) => Some(join_words(w)),
        _ => None,
    }
}

/// Why the credentials of a registration are refused, if they are: the
/// password breaks the rules for passwords, the word sequence does not have
/// seven words, or not exactly one of the two is given.
pub open spec fn credential_rejection(req: CreateUserRequest) -> Option<Rejection> {
    match (req.password, req.word_sequence) {
        (Some(p), None) => password_rejection(p@),
        (None, Some(w)) => if w@.len() != WORD_SEQUENCE_LENGTH {
            Some(rejection(ErrorKind::Validation, "Word sequence must contain exactly 7 words"))
        } else {
            None
        },
        _ => Some(rejection(ErrorKind::BadRequest, "Must provide either password or word sequence")),
    }
}

/// Why a registration is refused, if it is: for the name, because an
/// identity with that name, whatever the case of its letters, exists, or for
/// the credentials.
pub open spec fn registration_rejection(s: Store, req: CreateUserRequest) -> Option<Rejection> {
    if new_username_rejection(s, req.username@) is Some {
        new_username_rejection(s, req.username@)
    } else if any(s.users@, user_like(req.username@)) {
        Some(rejection(ErrorKind::Conflict, "Username already exists"))
    } else {
        credential_rejection(req)
    }
}

/// Checks a registration and returns the secret to hash.
pub fn check_registration(pool: &Store, request: &CreateUserRequest) -> (res: AppResult<String>)
    ensures
        match registration_rejection(*pool, *request) {
            Some(r) => rejected_as(res, r),
            None => res matches Ok(secret) && Some(secret@) == secret_text(
                request.password,
                request.word_sequence,
            ),
        },
{
    match validate_username(pool, request.username.as_str()) {
        Err(e) => {
            return Err(e);
        },
        Ok(_) => {},
    }
    if exists_where(&pool.users, &UserLike(request.username.as_str())) {
        return Err(AppError::Conflict("Username already exists".to_string()));
    }
    match (&request.password, &request.word_sequence) {
        (Some(password), None) => {
            match validate_password(password.as_str()) {
                Err(e) => Err(e),
                Ok(_) => Ok(password.clone()),
            }
        },
        (None, Some(words)) => {
            if words.len() != WORD_SEQUENCE_LENGTH {
                Err(
                    AppError::Validation(
                        "Word sequence must contain exactly 7 words".to_string(),
                    ),
                )
            } else {
                Ok(join_words(words))
            }
        },
        _ => Err(AppError::BadRequest("Must provide either password or word sequence".to_string())),
    }
}

/// Whether no identity but the service's own has a row: the next identity
/// to register is the first, and becomes a site administrator.
pub open spec fn no_user_yet(s: Store) -> bool {
    count(s.users@, except(user_is(SYSTEM_USER@))) == 0
}

/// How a request proves itself: by word sequence if only that is given, by
/// password otherwise.
pub open spec fn password_type_of(req: CreateUserRequest) -> PasswordType {
    match (req.password, req.word_sequence) {
        (None, Some(_)) => PasswordType::WordSequence,
        _ => PasswordType::Text,
    }
}

/// The word sequence that is stored with a new identity: that of the
/// request if the identity proves itself by it, as a JSON array.
pub open spec fn stored_words(req: CreateUserRequest) -> Option<Seq<char>> {
    match (req.password, req.word_sequence) {
        (None, Some(w)) => Some(json_array_text(texts(w@))),
        _ => None,
    }
}

/// `u` is the row of the identity that `req` registers with the password
/// hash `hash`.
pub open spec fn is_new_user(u: User, req: CreateUserRequest, hash: String, admin: bool) -> bool {
    &&& u.username@ == req.username@
    &&& u.password_hash == hash
    &&& u.password_type@ == password_type_text(password_type_of(req))
    &&& opt_text(u.word_sequence) == stored_words(req)
    &&& u.profile_type@ == profile_type_text(req.profile_type)
    &&& opt_text(u.avatar_color) == profile_color(req.profile_type)
    &&& u.last_login is None
    &&& u.login_attempts == 0
    &&& u.account_locked == 0
    &&& u.lock_until is None
    &&& u.is_admin == (if admin {
        1i64
    } else {
        0i64
    })
}

/// What is shown of an identity row.
pub open spec fn shown(u: User) -> UserResponse {
    UserResponse {
        username: u.username,
        profile_type: u.profile_type,
        avatar_color: u.avatar_color,
        created_at: u.created_at,
        is_admin: u.is_admin == 1,
    }
}

/// The word sequence that a registration hands back: that of the request
/// if the identity proves itself by it.
pub open spec fn returned_words(req: CreateUserRequest) -> Option<Seq<Seq<char>>> {
    match (req.password, req.word_sequence) {
        (None, Some(w)) => Some(texts(w@)),
        _ => None,
    }
}

/// The views of an optional list of strings.
pub open spec fn opt_texts(words: Option<Vec<String>>) -> Option<Seq<Seq<char>>> {
    match words {
        Some(w) => Some(texts(w@)),
        None => None,
    }
}

/// What completing a checked registration does, given the outcome of
/// hashing the secret.
///
/// If hashing failed, nothing changes and an internal error reports it.
/// Otherwise the identity is the new last row of the identities; it is a
/// site administrator if it is the first to register. It then joins the
/// default community; if that is refused the refusal is returned and the
/// identity row stays. Last, the identity's conversation with itself is
/// opened if it can be. The result shows the new identity.
pub open spec fn registered(
    pre: Store,
    post: Store,
    req: CreateUserRequest,
    hashing: Result<String, String>,
    res: AppResult<Registered>,
) -> bool {
    match hashing {
        Err(m) => post == pre && rejected_as(
            res,
            Rejection { kind: ErrorKind::Internal, text: "Failed to hash password: "@ + m@ },
        ),
        Ok(hash) => {
            let with_user = Store { users: post.users, ..pre };
            let with_member = Store { direct_messages: pre.direct_messages, ..post };
            let u = post.users@.last();
            &&& post.users@.len() == pre.users@.len() + 1
            &&& post.users@.drop_last() =~= pre.users@
            &&& is_new_user(u, req, hash, no_user_yet(pre))
            &&& match join_rejection(with_user, DEFAULT_SERVER@, req.username@) {
                Some(r) => rejected_as(res, r) && post == with_user,
                None => {
                    &&& joined_state(with_user, with_member, DEFAULT_SERVER@, req.username@)
                    &&& conversation_state(with_member, post, req.username@, req.username@)
                    &&& res matches Ok(reg) && reg.user == shown(u) && opt_texts(
                        reg.word_sequence,
                    ) == returned_words(req)
                },
            }
        },
    }
}

/// A copy of a list of strings.
pub fn copy_words(words: &Vec<String>) -> (r: Vec<String>)
    ensures
        r@ == words@,
{
    let mut out: Vec<String> = Vec::new();
    let mut i: usize = 0;
    while i < words.len()
        invariant
            i <= words@.len(),
            out@ == words@.take(i as int),
        decreases words@.len() - i,
    {
        out.push(words[i].clone());
        proof {
            assert(words@.take(i + 1) =~= words@.take(i as int).push(words@[i as int]));
        }
        i += 1;
    }
    proof {
        assert(words@.take(words@.len() as int) =~= words@);
    }
    out
}

/// Completes a registration that has passed [`check_registration`], given
/// the outcome of hashing its secret.
pub fn finish_registration(
    pool: &mut Store,
    request: CreateUserRequest,
    hashing: Result<String, String>,
) -> (res: AppResult<Registered>)
    ensures
        registered(*old(pool), *final(pool), request, hashing, res),
{
    let password_hash = match crate::utils::crypto::hashed(hashing) {
        Ok(h) => h,
        Err(e) => {
            return Err(e);
        },
    };
    let total_users = count_where(&pool.users, &Except(UserIs(SYSTEM_USER)));
    let is_first_user = total_users == 0;
    let (password_type, word_sequence) = match (&request.password, &request.word_sequence) {
        (None, Some(words)) => (PasswordType::WordSequence, Some(copy_words(words))),
        _ => (PasswordType::Text, None),
    };
    let stored = match &word_sequence {
        Some(w) => Some(copy_words(w)),
        None => None,
    };
    let username = request.username.clone();
    let user = User::new(
        request.username,
        password_hash,
        password_type,
        stored,
        request.profile_type,
        is_first_user,
    );
    pool.users.push(user.duplicate());
    let ghost with_user = *pool;
    match join_server(pool, DEFAULT_SERVER.to_string(), username.clone()) {
        Err(e) => {
            return Err(e);
        },
        Ok(_) => {},
    }
    let ghost with_member = *pool;
    let _ = get_or_create_dm(pool, username.clone(), username);
    proof {
        assert(with_user == (Store { users: pool.users, ..*old(pool) }));
        assert(with_member == (Store { direct_messages: old(pool).direct_messages, ..*pool }));
    }
    Ok(Registered { user: UserResponse::from(user), word_sequence })
}

/// Registers an identity.
///
/// The name must be free, whatever the case of its letters, not banned, and
/// within the rules for names; exactly one of a password and a word
/// sequence of seven words must be given. The first identity to register
/// becomes a site administrator. Every new identity joins the default
/// community.
pub fn register_user(pool: &mut Store, request: CreateUserRequest) -> (res: AppResult<Registered>)
    ensures
        match registration_rejection(*old(pool), request) {
            Some(r) => rejected_as(res, r) && *final(pool) == *old(pool),
            None => exists|hashing: Result<String, String>|
                registered(*old(pool), *final(pool), request, hashing, res),
        },
{
    let secret = match check_registration(pool, &request) {
        Err(e) => {
            return Err(e);
        },
        Ok(s) => s,
    };
    let hashing = argon2_hash(secret.as_str());
    finish_registration(pool, request, hashing)
}

/// The latest time, as text, at which a login was attempted for the name
/// `user`: the greatest time stamp in the order on texts. `None` if no
/// attempt is on record.
pub open spec fn latest_attempt(attempts: Seq<LoginAttempt>, user: Seq<char>) -> Option<Seq<char>>
    decreases attempts.len(),
{
    if attempts.len() == 0 {
        None
    } else {
        let rest = latest_attempt(attempts.drop_last(), user);
        let a = attempts.last();
        if a.username@ != user {
            rest
        } else {
            match rest {
                Some(best) => if name_lt(best, a.timestamp@) {
                    Some(a.timestamp@)
                } else {
                    rest
                },
                None => Some(a.timestamp@),
            }
        }
    }
}

/// The latest time, as text, at which a login was attempted for `user`.
pub fn last_attempt_time(attempts: &Vec<LoginAttempt>, user: &str) -> (r: Option<String>)
    ensures
        opt_text(r) == latest_attempt(attempts@, user@),
{
    let mut best: Option<usize> = None;
    let mut i: usize = 0;
    while i < attempts.len()
        invariant
            i <= attempts@.len(),
            match best {
                Some(k) => k < i && latest_attempt(attempts@.take(i as int), user@) == Some(
                    attempts@[k as int].timestamp@,
                ),
                None => latest_attempt(attempts@.take(i as int), user@) is None,
            },
        decreases attempts@.len() - i,
    {
        proof {
            assert(attempts@.take(i + 1).drop_last() =~= attempts@.take(i as int));
        }
        if str_eq(attempts[i].username.as_str(), user) {
            best = match best {
                Some(k) => if str_lt(attempts[k].timestamp.as_str(), attempts[i].timestamp.as_str()) {
                    Some(i)
                } else {
                    best
                },
                None => Some(i),
            };
        }
        i += 1;
    }
    proof {
        assert(attempts@.take(attempts@.len() as int) =~= attempts@);
    }
    match best {
        Some(k) => Some(attempts[k].timestamp.clone()),
        None => None,
    }
}

/// Whether a login for the name `user` was attempted less than three
/// seconds before `now`. A latest attempt whose time stamp cannot be read
/// does not count.
pub open spec fn attempted_recently(s: Store, user: Seq<char>, now: Instant) -> bool {
    match latest_attempt(s.login_attempts@, user) {
        Some(text) => match rfc3339_instant(text) {
            Some((secs, nanos)) => nanos_between(Instant { secs, nanos }, now)
                < ATTEMPT_SPACING_SECONDS * 1_000_000_000,
            None => false,
        },
        None => false,
    }
}

/// How a login attempt ends.
pub enum LoginOutcome {
    /// Another attempt for the same name was made moments ago.
    RateLimited,
    /// No identity has the name.
    UnknownUser,
    /// The account is locked.
    Locked,
    /// Not exactly one of password and word sequence was given.
    NoCredential,
    /// The stored password hash cannot be read; the text says why.
    BadHash(Seq<char>),
    /// The secret does not match.
    WrongPassword,
    /// The secret matches.
    Success,
}

/// How a login attempt made at `now` ends. The checks run in this order:
/// spacing of attempts, existence of the identity, lock, credentials,
/// password.
pub open spec fn login_outcome(s: Store, req: LoginRequest, now: Instant) -> LoginOutcome {
    if attempted_recently(s, req.username@, now) {
        LoginOutcome::RateLimited
    } else {
        match first(s.users@, user_like(req.username@)) {
            None => LoginOutcome::UnknownUser,
            Some(user) => if user.locked_at(now) {
                LoginOutcome::Locked
            } else {
                match secret_text(req.password, req.word_sequence) {
                    None => LoginOutcome::NoCredential,
                    Some(secret) => match password_check(secret, user.password_hash@) {
                        Err(m) => LoginOutcome::BadHash(m),
                        Ok(false) => LoginOutcome::WrongPassword,
                        Ok(true) => LoginOutcome::Success,
                    },
                }
            },
        }
    }
}

/// `a` is the record of an attempt for `username` from `ip` at the time
/// written in `timestamp`.
pub open spec fn is_attempt(
    a: LoginAttempt,
    username: Seq<char>,
    ip: Seq<char>,
    success: bool,
    timestamp: Seq<char>,
    attempted: Option<Seq<char>>,
    failure: Option<Seq<char>>,
) -> bool {
    &&& a.username@ == username
    &&& a.ip_address@ == ip
    &&& a.success == (if success {
        1i64
    } else {
        0i64
    })
    &&& a.timestamp@ == timestamp
    &&& opt_text(a.attempted_username) == attempted
    &&& opt_text(a.failure_reason) == failure
}

/// The record `a` is the new last row of the login attempts.
pub open spec fn attempt_logged(pre: Seq<LoginAttempt>, post: Seq<LoginAttempt>) -> bool {
    post.len() == pre.len() + 1 && post.drop_last() =~= pre
}

/// One more than `n`, or `n` where there is no greater value.
pub open spec fn bumped(n: i64) -> i64 {
    if n < i64::MAX {
        (n + 1) as i64
    } else {
        n
    }
}

/// Records a failed login on an identity row.
pub struct RecordFailure<'a> {
    pub attempts: i64,
    pub lock_until: Option<&'a str>,
}

/// Whether `after` is `before` with a failed login recorded: the number of
/// failed attempts is `attempts`; the account is locked until `lock_until`
/// if that is given, and not locked otherwise.
pub open spec fn failure_recorded(attempts: i64, lock_until: Option<Seq<char>>) -> spec_fn(
    User,
    User,
) -> bool {
    |before: User, after: User|
        {
            &&& after.login_attempts == attempts
            &&& after.account_locked == (if lock_until is Some {
                1i64
            } else {
                0i64
            })
            &&& opt_text(after.lock_until) == lock_until
            &&& after == (User {
                login_attempts: after.login_attempts,
                account_locked: after.account_locked,
                lock_until: after.lock_until,
                ..before
            })
        }
}

impl<'a> Rewrite<User> for RecordFailure<'a> {
    open spec fn relates(&self) -> spec_fn(User, User) -> bool {
        failure_recorded(self.attempts, crate::services::messaging::opt_str_text(self.lock_until))
    }

    fn rewrite(&self, row: &mut User) {
        row.login_attempts = self.attempts;
        match self.lock_until {
            Some(t) => {
                row.account_locked = 1;
                row.lock_until = Some(t.to_string());
            },
            None => {
                row.account_locked = 0;
                row.lock_until = None;
            },
        }
    }
}

/// Records a successful login on an identity row.
pub struct RecordSuccess<'a> {
    pub at: &'a str,
}

/// Whether `after` is `before` with a successful login at the time written
/// in `at` recorded: no failed attempts, no lock, and `at` as the time of
/// the last login.
pub open spec fn success_recorded(at: Seq<char>) -> spec_fn(User, User) -> bool {
    |before: User, after: User|
        {
            &&& after.login_attempts == 0
            &&& after.account_locked == 0
            &&& after.lock_until is None
            &&& opt_text(after.last_login) == Some(at)
            &&& after == (User {
                login_attempts: after.login_attempts,
                account_locked: after.account_locked,
                lock_until: after.lock_until,
                last_login: after.last_login,
                ..before
            })
        }
}

impl<'a> Rewrite<User> for RecordSuccess<'a> {
    open spec fn relates(&self) -> spec_fn(User, User) -> bool {
        success_recorded(self.at@)
    }

    fn rewrite(&self, row: &mut User) {
        row.login_attempts = 0;
        row.account_locked = 0;
        row.lock_until = None;
        row.last_login = Some(self.at.to_string());
    }
}

/// The time until which an account stays locked after a failed attempt at
/// `now` that brings the number of failed attempts to `attempts`: a day
/// from `now` once the threshold is reached, no time before.
pub open spec fn lock_after(attempts: i64, now: Instant) -> Option<Seq<char>> {
    if attempts >= LOCK_THRESHOLD {
        let until = shifted(now, LOCK_SECONDS);
        Some(rfc3339_text(until.secs, until.nanos))
    } else {
        None
    }
}

/// What a login attempt made at `now` from the address `ip` does.
///
/// - Rate limited, locked, without a usable credential, or with an
///   unreadable stored hash: nothing changes and the matching error is
///   returned.
/// - Unknown identity: the failed attempt is logged; the credentials are
///   reported as invalid.
/// - Wrong secret: every row with the identity's name gets one more failed
///   attempt, and a lock of one day once the threshold is reached; the
///   failed attempt is logged; the credentials are reported as invalid.
/// - Success: every row with the identity's name has its failures and lock
///   cleared and its last login set to `now`; the attempt is logged; the
///   identity joins the default community if it can; the identity is
///   returned as it was before the login.
pub open spec fn logged_in(
    pre: Store,
    post: Store,
    req: LoginRequest,
    ip: Seq<char>,
    now: Instant,
    res: AppResult<UserResponse>,
) -> bool {
    let stamp = rfc3339_text(now.secs, now.nanos);
    let logged = Store { login_attempts: post.login_attempts, ..pre };
    let last = post.login_attempts@.last();
    match login_outcome(pre, req, now) {
        LoginOutcome::RateLimited => post == pre && res == Err::<UserResponse, AppError>(
            AppError::RateLimitExceeded,
        ),
        LoginOutcome::UnknownUser => {
            &&& attempt_logged(pre.login_attempts@, post.login_attempts@)
            &&& is_attempt(
                last,
                req.username@,
                ip,
                false,
                stamp,
                None,
                Some("User not found"@),
            )
            &&& post == logged
            &&& rejected_as(res, rejection(ErrorKind::Auth, "Invalid credentials"))
        },
        LoginOutcome::Locked => post == pre && rejected_as(
            res,
            rejection(ErrorKind::Auth, "Account is locked. Try again later."),
        ),
        LoginOutcome::NoCredential => post == pre && rejected_as(
            res,
            rejection(ErrorKind::BadRequest, "Must provide either password or word sequence"),
        ),
        LoginOutcome::BadHash(m) => post == pre && rejected_as(
            res,
            Rejection { kind: ErrorKind::Internal, text: "Failed to parse password hash: "@ + m },
        ),
        LoginOutcome::WrongPassword => {
            let user = first(pre.users@, user_like(req.username@))->Some_0;
            let attempts = bumped(user.login_attempts);
            &&& rewritten(
                pre.users@,
                post.users@,
                user_is(user.username@),
                failure_recorded(attempts, lock_after(attempts, now)),
            )
            &&& attempt_logged(pre.login_attempts@, post.login_attempts@)
            &&& is_attempt(
                last,
                req.username@,
                ip,
                false,
                stamp,
                Some(user.username@),
                Some("Invalid password"@),
            )
            &&& post == (Store { users: post.users, login_attempts: post.login_attempts, ..pre })
            &&& rejected_as(res, rejection(ErrorKind::Auth, "Invalid credentials"))
        },
        LoginOutcome::Success => {
            let user = first(pre.users@, user_like(req.username@))->Some_0;
            let recorded = Store {
                users: post.users,
                login_attempts: post.login_attempts,
                ..pre
            };
            &&& rewritten(pre.users@, post.users@, user_is(user.username@), success_recorded(stamp))
            &&& attempt_logged(pre.login_attempts@, post.login_attempts@)
            &&& is_attempt(last, req.username@, ip, true, stamp, Some(user.username@), None)
            &&& if join_rejection(recorded, DEFAULT_SERVER@, user.username@) is Some {
                post == recorded
            } else {
                joined_state(recorded, post, DEFAULT_SERVER@, user.username@)
            }
            &&& res == Ok::<UserResponse, AppError>(shown(user))
        },
    }
}

/// Handles a login attempt made at `now`.
pub fn login_user_at(pool: &mut Store, request: LoginRequest, ip_address: String, now: Instant) -> (res:
    AppResult<UserResponse>)
    ensures
        logged_in(*old(pool), *final(pool), request, ip_address@, now, res),
{
    match last_attempt_time(&pool.login_attempts, request.username.as_str()) {
        Some(text) => match parse_instant(text.as_str()) {
            Some(last_time) => if now.within_seconds_of(&last_time, ATTEMPT_SPACING_SECONDS) {
                return Err(AppError::RateLimitExceeded);
            },
            None => {},
        },
        None => {},
    }
    let stamp = format_instant(now);
    let idx = match position_where(&pool.users, &UserLike(request.username.as_str())) {
        Some(i) => i,
        None => {
            let attempt = LoginAttempt::at(
                stamp,
                request.username.clone(),
                ip_address,
                false,
                None,
                Some("User not found".to_string()),
            );
            pool.login_attempts.push(attempt);
            return Err(AppError::Auth("Invalid credentials".to_string()));
        },
    };
    let user = pool.users[idx].duplicate();
    if user.is_locked_at(now) {
        return Err(AppError::Auth("Account is locked. Try again later.".to_string()));
    }
    let password_to_verify = match secret_of(&request.password, &request.word_sequence) {
        Some(secret) => secret,
        None => {
            return Err(
                AppError::BadRequest("Must provide either password or word sequence".to_string()),
            );
        },
    };
    let is_valid = match verify_password(password_to_verify.as_str(), user.password_hash.as_str()) {
        Ok(b) => b,
        Err(e) => {
            return Err(e);
        },
    };
    if !is_valid {
        let new_attempts = if user.login_attempts < i64::MAX {
            user.login_attempts + 1
        } else {
            user.login_attempts
        };
        let lock_until = if new_attempts >= LOCK_THRESHOLD {
            Some(format_instant(now.plus_seconds(LOCK_SECONDS)))
        } else {
            None
        };
        let lock_ref: Option<&str> = match &lock_until {
            Some(t) => Some(t.as_str()),
            None => None,
        };
        rewrite_where(
            &mut pool.users,
            &UserIs(user.username.as_str()),
            &RecordFailure { attempts: new_attempts, lock_until: lock_ref },
        );
        let attempt = LoginAttempt::at(
            stamp,
            request.username.clone(),
            ip_address,
            false,
            Some(user.username.clone()),
            Some("Invalid password".to_string()),
        );
        pool.login_attempts.push(attempt);
        return Err(AppError::Auth("Invalid credentials".to_string()));
    }
    rewrite_where(
        &mut pool.users,
        &UserIs(user.username.as_str()),
        &RecordSuccess { at: stamp.as_str() },
    );
    let attempt = LoginAttempt::at(
        stamp,
        request.username.clone(),
        ip_address,
        true,
        Some(user.username.clone()),
        None,
    );
    pool.login_attempts.push(attempt);
    let _ = join_server(pool, DEFAULT_SERVER.to_string(), user.username.clone());
    Ok(UserResponse::from(user))
}

/// Handles a login attempt made now.
///
/// Attempts for one name must be at least three seconds apart. A thousand
/// failed attempts lock the account for a day. A successful login clears
/// the failures and makes sure that the identity is a member of the
/// default community.
pub fn login_user(pool: &mut Store, request: LoginRequest, ip_address: String) -> (res: AppResult<
    UserResponse,
>)
    ensures
        exists|now: Instant| logged_in(*old(pool), *final(pool), request, ip_address@, now, res),
{
    login_user_at(pool, request, ip_address, system_now())
}

impl RegisterResponse {
    /// The response to a registration for which `token` was issued.
    pub fn new(registered: Registered, token: String) -> (r: RegisterResponse)
        ensures
            r.user == registered.user,
            r.token == token,
            r.word_sequence == registered.word_sequence,
    {
        RegisterResponse { user: registered.user, token, word_sequence: registered.word_sequence }
    }
}

impl LoginResponse {
    /// The response to a login for which `token` was issued.
    pub fn new(user: UserResponse, token: String) -> (r: LoginResponse)
        ensures
            r.user == user,
            r.token == token,
    {
        LoginResponse { user, token }
    }
}

} // verus!
