//! Registration, login, and the word sequences offered for logging in.
use vstd::prelude::*;

use crate::api::{stats_event, tells_stats, Handled};
use crate::database::query::server_is;
use crate::database::table::first;
use crate::database::Store;
use crate::models::user::{opt_text, CreateUserRequest, ProfileType, UserResponse};
use crate::services::auth::{
    login_user, logged_in, register_user, registered, registration_rejection, LoginRequest,
    Registered,
};
use crate::services::avatar::{
    generate_identicon_data, get_random_color_from_hash, identicon_seed,
};
use crate::services::server::DEFAULT_SERVER;
use crate::text::str_eq;
use crate::utils::clock::Instant;
use crate::utils::error::{rejected_as, rejection, AppError, AppResult, ErrorKind};
use crate::websocket::events::ServerMessage;

verus! {

/// What a request to register comes with.
#[derive(Debug, Clone, PartialEq, Eq)]
pub struct RegisterRequestPayload {
    pub username: String,
    pub password: Option<String>,
    pub word_sequence: Option<Vec<String>>,
    pub profile_type: String,
    pub avatar_color: Option<String>,
}

/// The answer to the question whether the service is up.
pub fn health_check() -> (s: &'static str)
    ensures
        s@ == "OK"@,
{
    "OK"
}

/// `p` is the profile that a registration asks for: a generated picture
/// seeded by the name, or a person icon in the colour asked for.
pub open spec fn is_profile(
    p: ProfileType,
    kind: Seq<char>,
    username: Seq<char>,
    color: Option<Seq<char>>,
) -> bool {
    if kind == "identicon"@ {
        p matches ProfileType::Identicon(seed) && seed@ == identicon_seed(username)
    } else {
        p matches ProfileType::Person(c) && match color {
            Some(asked) => c@ == asked,
            None => c@ == crate::services::avatar::color_of(
                vstd::utf8::encode_utf8(identicon_seed(username)),
            ),
        }
    }
}

/// The profile that a registration asks for. A kind other than "identicon"
/// and "person" is refused.
pub fn profile_for(kind: &str, username: &str, avatar_color: Option<String>) -> (res: AppResult<
    ProfileType,
>)
    ensures
        if kind@ == "identicon"@ || kind@ == "person"@ {
            res matches Ok(p) && is_profile(p, kind@, username@, opt_text(avatar_color))
        } else {
            rejected_as(res, rejection(ErrorKind::BadRequest, "Invalid profile type"))
        },
{
    if str_eq(kind, "identicon") {
        Ok(ProfileType::Identicon(generate_identicon_data(username)))
    } else if str_eq(kind, "person") {
        let color = match avatar_color {
            Some(c) => c,
            None => {
                let hash = generate_identicon_data(username);
                proof {
                    vstd::utf8::is_ascii_chars_encode_utf8(hash@);
                    ascii_boundaries(hash@, 2);
                    ascii_boundaries(hash@, 4);
                    ascii_boundaries(hash@, 6);
                }
                get_random_color_from_hash(hash.as_str())
            },
        };
        Ok(ProfileType::Person(color))
    } else {
        Err(AppError::BadRequest("Invalid profile type".to_string()))
    }
}

/// In a text of ASCII characters every position ends a character.
pub proof fn ascii_boundaries(chars: Seq<char>, i: int)
    requires
        vstd::utf8::is_ascii_chars(chars),
        0 <= i <= chars.len(),
    ensures
        vstd::utf8::is_char_boundary(vstd::utf8::encode_utf8(chars), i),
{
    vstd::utf8::is_ascii_chars_encode_utf8(chars);
    let bytes = vstd::utf8::encode_utf8(chars);
    vstd::utf8::encode_utf8_valid_utf8(chars);
    if 0 < i < bytes.len() {
        assert(bytes[i] == chars[i] as u8);
        assert('\0' <= chars[i] <= '\u{7f}');
        assert(!vstd::utf8::is_continuation_byte(bytes[i])) by {
            let b = bytes[i];
            assert(b < 128);
            assert(b & 0xc0 != 0x80) by (bit_vector)
                requires
                    b < 128,
            ;
        }
        vstd::utf8::is_char_boundary_iff_not_is_continuation_byte(bytes, i);
    } else {
        vstd::utf8::is_char_boundary_start_end_of_seq(bytes);
    }
}

/// What is published for a new identity: that it joined the default
/// community, and then the community's counters if they can be had.
pub open spec fn tells_registration(post: Store, username: Seq<char>, events: Seq<ServerMessage>) -> bool {
    &&& events.len() >= 1
    &&& events[0] matches ServerMessage::ServerMemberJoined { server_name, username: name }
        && server_name@ == DEFAULT_SERVER@ && name@ == username
    &&& match first(post.servers@, server_is(DEFAULT_SERVER@)) {
        Some(_) => events.len() == 2 && tells_stats(events[1], post, DEFAULT_SERVER@),
        None => events.len() == 1,
    }
}

/// Handles the request to register: settles the profile and registers the
/// identity. A refusal is the answer and nothing is published. Otherwise
/// the answer is the new identity, and the events tell that it joined the
/// default community.
pub fn register(pool: &mut Store, payload: RegisterRequestPayload) -> (h: Handled<Registered>)
    ensures
        h.result is Err ==> h.events@.len() == 0,
        h.result matches Ok(reg) ==> tells_registration(
            *final(pool),
            reg.user.username@,
            h.events@,
        ) && reg.user.username@ == payload.username@,
        payload.profile_type@ != "identicon"@ && payload.profile_type@ != "person"@ ==> rejected_as(
            h.result,
            rejection(ErrorKind::BadRequest, "Invalid profile type"),
        ) && *final(pool) == *old(pool),
        payload.profile_type@ == "identicon"@ || payload.profile_type@ == "person"@
            ==> exists|request: CreateUserRequest|
            {
                &&& request.username == payload.username
                &&& request.password == payload.password
                &&& request.word_sequence == payload.word_sequence
                &&& is_profile(
                    request.profile_type,
                    payload.profile_type@,
                    payload.username@,
                    opt_text(payload.avatar_color),
                )
                &&& #[trigger] registration_outcome(*old(pool), *final(pool), request, h.result)
            },
{
    let profile_type = match profile_for(
        payload.profile_type.as_str(),
        payload.username.as_str(),
        payload.avatar_color,
    ) {
        Ok(p) => p,
        Err(e) => {
            return Handled { events: Vec::new(), result: Err(e) };
        },
    };
    let request = CreateUserRequest {
        username: payload.username,
        password: payload.password,
        word_sequence: payload.word_sequence,
        profile_type,
    };
    let response = match register_user(pool, request) {
        Ok(r) => r,
        Err(e) => {
            let h = Handled { events: Vec::new(), result: Err(e) };
            assert(registration_outcome(*old(pool), *pool, request, h.result));
            return h;
        },
    };
    let mut events: Vec<ServerMessage> = Vec::new();
    events.push(
        ServerMessage::ServerMemberJoined {
            server_name: DEFAULT_SERVER.to_string(),
            username: response.user.username.clone(),
        },
    );
    match stats_event(pool, DEFAULT_SERVER) {
        Ok(stats) => {
            events.push(stats);
        },
        Err(_) => {},
    }
    let h = Handled { events, result: Ok(response) };
    assert(registration_outcome(*old(pool), *pool, request, h.result));
    h
}

/// What registering `request` does: a refused request changes nothing;
/// an accepted one is completed with whatever hashing its secret gave.
pub open spec fn registration_outcome(
    pre: Store,
    post: Store,
    request: CreateUserRequest,
    res: AppResult<Registered>,
) -> bool {
    match registration_rejection(pre, request) {
        Some(r) => rejected_as(res, r) && post == pre,
        None => exists|hashing: Result<String, String>|
            registered(pre, post, request, hashing, res),
    }
}

/// Handles the request to log in from the address `ip`.
pub fn login(pool: &mut Store, payload: LoginRequest, ip: String) -> (res: AppResult<UserResponse>)
    ensures
        exists|now: Instant| logged_in(*old(pool), *final(pool), payload, ip@, now, res),
{
    login_user(pool, payload, ip)
}

/// Handles the request for the word sequence of a name.
pub fn get_word_sequence(words: &Vec<String>, username: &str) -> (r: Vec<String>)
    requires
        crate::services::word_sequence::usable(words@).len()
            >= crate::services::word_sequence::SEQUENCE_SIZE,
    ensures
        crate::models::user::texts(r@) == crate::services::word_sequence::word_sequence(
            words@,
            username@,
        ),
{
    crate::services::auth::generate_word_sequence_for_username(words, username)
}

} // verus!
