//! Password hashing and content digests. The hash functions are those of
//! `argon2` and `sha2`.
use vstd::prelude::*;
use vstd::string::StringExecFns;
use crate::text::concat_str;
use crate::utils::error::{AppError, AppResult, ErrorKind, Rejection};

verus! {

/// What checking a password against a stored hash with `argon2` gives:
/// whether the password matches, or, for a stored text that is no password
/// hash, the description of what is wrong with it.
pub uninterp spec fn password_check(password: Seq<char>, hash: Seq<char>) -> Result<
    bool,
    Seq<char>,
>;

/// The SHA-256 digest of a byte string.
pub uninterp spec fn sha256_digest(data: Seq<u8>) -> Seq<u8>;

/// Hashes a password with a fresh random salt.
///
/// Calls `SaltString::generate` on the system's random source and
/// `Argon2::default().hash_password`. The salt is random: nothing is claimed
/// of the result. An error is returned as its description.
#[verifier::external_body]
pub(crate) fn argon2_hash(password: &str) -> Result<String, String> {
    let salt = argon2::password_hash::SaltString::generate(
        &mut argon2::password_hash::rand_core::OsRng,
    );
    match argon2::PasswordHasher::hash_password(&argon2::Argon2::default(), password.as_bytes(), &salt) {
        Ok(hash) => Ok(hash.to_string()),
        Err(e) => Err(e.to_string()),
    }
}

/// Checks a password against a stored hash.
///
/// Calls `PasswordHash::new` on the stored text and, where that succeeds,
/// `Argon2::default().verify_password`; the result is the value named
/// [`password_check`].
#[verifier::external_body]
pub(crate) fn argon2_verify(password: &str, password_hash: &str) -> (r: Result<bool, String>)
    ensures
        match r {
            Ok(b) => password_check(password@, password_hash@) == Ok::<bool, Seq<char>>(b),
            Err(m) => password_check(password@, password_hash@) == Err::<bool, Seq<char>>(m@),
        },
{
    match argon2::PasswordHash::new(password_hash) {
        Err(e) => Err(e.to_string()),
        Ok(parsed) => Ok(
            argon2::PasswordVerifier::verify_password(
                &argon2::Argon2::default(),
                password.as_bytes(),
                &parsed,
            ).is_ok(),
        ),
    }
}

/// The SHA-256 digest of `data`.
///
/// Calls `Sha256::digest`; the result is the value named [`sha256_digest`],
/// which is 32 bytes long.
#[verifier::external_body]
pub(crate) fn sha256(data: &[u8]) -> (r: Vec<u8>)
    ensures
        r@ == sha256_digest(data@),
        r@.len() == 32,
{
    <sha2::Sha256 as sha2::Digest>::digest(data).to_vec()
}

/// What a hashing outcome means for the caller: the hash, or an internal
/// error that carries the description of the failure.
pub open spec fn hashing_result(outcome: Result<String, String>, res: AppResult<String>) -> bool {
    match outcome {
        Ok(h) => res == Ok::<String, AppError>(h),
        Err(m) => res matches Err(e) && e@ == (Rejection {
            kind: ErrorKind::Internal,
            text: "Failed to hash password: "@ + m@,
        }),
    }
}

/// Turns the outcome of hashing into a result.
pub fn hashed(outcome: Result<String, String>) -> (res: AppResult<String>)
    ensures
        hashing_result(outcome, res),
{
    match outcome {
        Ok(h) => Ok(h),
        Err(m) => Err(AppError::Internal(concat_str("Failed to hash password: ", m.as_str()))),
    }
}

/// Hashes a password with a fresh random salt. The result is what
/// [`hashed`] makes of the outcome of hashing: the hash as it came back, or
/// an internal error that carries the description of the failure. Which of
/// the two it is, and which hash, is up to the hash function and its salt.
pub fn hash_password(password: &str) -> (res: AppResult<String>)
    ensures
        exists|outcome: Result<String, String>| hashing_result(outcome, res),
        res matches Err(e) ==> e@.kind == ErrorKind::Internal,
{
    hashed(argon2_hash(password))
}

/// What checking `password` against the stored `hash` returns: whether it
/// matches, or an internal error where the stored text is no password hash.
pub open spec fn verification(password: Seq<char>, hash: Seq<char>, res: AppResult<bool>) -> bool {
    match password_check(password, hash) {
        Ok(b) => res == Ok::<bool, AppError>(b),
        Err(m) => res matches Err(e) && e@ == (Rejection {
            kind: ErrorKind::Internal,
            text: "Failed to parse password hash: "@ + m,
        }),
    }
}

/// Checks a password against a stored hash.
pub fn verify_password(password: &str, password_hash: &str) -> (res: AppResult<bool>)
    ensures
        verification(password@, password_hash@, res),
{
    match argon2_verify(password, password_hash) {
        Ok(b) => Ok(b),
        Err(m) => Err(AppError::Internal(concat_str("Failed to parse password hash: ", m.as_str()))),
    }
}

/// The lower-case hexadecimal digit for a value below sixteen.
pub open spec fn hex_digit(n: u8) -> char {
    if n == 0 {
        '0'
    } else if n == 1 {
        '1'
    } else if n == 2 {
        '2'
    } else if n == 3 {
        '3'
    } else if n == 4 {
        '4'
    } else if n == 5 {
        '5'
    } else if n == 6 {
        '6'
    } else if n == 7 {
        '7'
    } else if n == 8 {
        '8'
    } else if n == 9 {
        '9'
    } else if n == 10 {
        'a'
    } else if n == 11 {
        'b'
    } else if n == 12 {
        'c'
    } else if n == 13 {
        'd'
    } else if n == 14 {
        'e'
    } else {
        'f'
    }
}

/// A byte string in lower-case hexadecimal, two digits per byte.
pub open spec fn hex_text(bytes: Seq<u8>) -> Seq<char>
    decreases bytes.len(),
{
    if bytes.len() == 0 {
        Seq::empty()
    } else {
        hex_text(bytes.drop_last()).push(hex_digit(bytes.last() / 16)).push(
            hex_digit(bytes.last() % 16),
        )
    }
}

/// The hexadecimal digits are ASCII characters, and a byte string in
/// hexadecimal has two of them for each byte.
pub proof fn lemma_hex_text_is_ascii(bytes: Seq<u8>)
    ensures
        vstd::utf8::is_ascii_chars(hex_text(bytes)),
        hex_text(bytes).len() == 2 * bytes.len(),
    decreases bytes.len(),
{
    if bytes.len() > 0 {
        lemma_hex_text_is_ascii(bytes.drop_last());
    }
}

/// The lower-case hexadecimal digit for `n`, as text.
pub fn digit_text(n: u8) -> (s: &'static str)
    requires
        n < 16,
    ensures
        s@ == seq![hex_digit(n)],
{
    proof {
        reveal_strlit("0");
        reveal_strlit("1");
        reveal_strlit("2");
        reveal_strlit("3");
        reveal_strlit("4");
        reveal_strlit("5");
        reveal_strlit("6");
        reveal_strlit("7");
        reveal_strlit("8");
        reveal_strlit("9");
        reveal_strlit("a");
        reveal_strlit("b");
        reveal_strlit("c");
        reveal_strlit("d");
        reveal_strlit("e");
        reveal_strlit("f");
    }
    let s = if n == 0 {
        "0"
    } else if n == 1 {
        "1"
    } else if n == 2 {
        "2"
    } else if n == 3 {
        "3"
    } else if n == 4 {
        "4"
    } else if n == 5 {
        "5"
    } else if n == 6 {
        "6"
    } else if n == 7 {
        "7"
    } else if n == 8 {
        "8"
    } else if n == 9 {
        "9"
    } else if n == 10 {
        "a"
    } else if n == 11 {
        "b"
    } else if n == 12 {
        "c"
    } else if n == 13 {
        "d"
    } else if n == 14 {
        "e"
    } else {
        "f"
    };
    assert(s@ =~= seq![hex_digit(n)]);
    s
}

/// Writes a byte string in lower-case hexadecimal.
pub fn to_hex(bytes: &[u8]) -> (s: String)
    ensures
        s@ == hex_text(bytes@),
{
    let mut out = String::new();
    let mut i: usize = 0;
    while i < bytes.len()
        invariant
            i <= bytes@.len(),
            out@ == hex_text(bytes@.take(i as int)),
        decreases bytes@.len() - i,
    {
        let b = bytes[i];
        let ghost before = out@;
        out.append(digit_text(b / 16));
        out.append(digit_text(b % 16));
        proof {
            assert(bytes@.take(i + 1).drop_last() =~= bytes@.take(i as int));
            assert(out@ =~= before.push(hex_digit(b / 16)).push(hex_digit(b % 16)));
        }
        i += 1;
    }
    proof {
        assert(bytes@.take(bytes@.len() as int) =~= bytes@);
    }
    out
}

/// The SHA-256 digest of a file's content, in lower-case hexadecimal.
pub fn hash_file(content: &[u8]) -> (s: String)
    ensures
        s@ == hex_text(sha256_digest(content@)),
{
    let digest = sha256(content);
    to_hex(digest.as_slice())
}

} // verus!
