//! The generated pictures and colours of identities.
use vstd::prelude::*;
use vstd::string::StringSliceAdditionalSpecFns;
use vstd::utf8::{encode_utf8, is_char_boundary};
use crate::text::concat_str;
use crate::utils::crypto::{hex_text, sha256, sha256_digest, to_hex};

verus! {

/// The seed of the picture of an identity: the first eight bytes of the
/// SHA-256 digest of its name, in hexadecimal.
pub open spec fn identicon_seed(username: Seq<char>) -> Seq<char> {
    hex_text(sha256_digest(encode_utf8(username)).take(8))
}

/// The seed of the picture of the identity `username`.
pub fn generate_identicon_data(username: &str) -> (s: String)
    ensures
        s@ == identicon_seed(username@),
        s@.len() == 16,
        vstd::utf8::is_ascii_chars(s@),
{
    let digest = sha256(username.as_bytes());
    let mut head: Vec<u8> = Vec::new();
    let mut i: usize = 0;
    while i < 8
        invariant
            i <= 8,
            digest@.len() == 32,
            head@ == digest@.take(i as int),
        decreases 8 - i,
    {
        head.push(digest[i]);
        proof {
            assert(digest@.take(i + 1) =~= digest@.take(i as int).push(digest@[i as int]));
        }
        i += 1;
    }
    proof {
        crate::utils::crypto::lemma_hex_text_is_ascii(head@);
    }
    to_hex(head.as_slice())
}

/// The value of a hexadecimal digit, in either case.
pub open spec fn hex_value(b: u8) -> Option<u8> {
    if 0x30 <= b <= 0x39 {
        Some((b - 0x30) as u8)
    } else if 0x61 <= b <= 0x66 {
        Some((b - 0x61 + 10) as u8)
    } else if 0x41 <= b <= 0x46 {
        Some((b - 0x41 + 10) as u8)
    } else {
        None
    }
}

/// The number that two bytes spell in hexadecimal: two digits, or a plus
/// sign and one digit. `None` for anything else.
pub open spec fn hex_pair(a: u8, b: u8) -> Option<u8> {
    match (hex_value(a), hex_value(b)) {
        (Some(x), Some(y)) => Some((x * 16 + y) as u8),
        (None, Some(y)) => if a == 0x2b {
            Some(y)
        } else {
            None
        },
        _ => None,
    }
}

/// The value of a hexadecimal digit.
pub fn digit_value(b: u8) -> (r: Option<u8>)
    ensures
        r == hex_value(b),
{
    if 0x30 <= b && b <= 0x39 {
        Some(b - 0x30)
    } else if 0x61 <= b && b <= 0x66 {
        Some(b - 0x61 + 10)
    } else if 0x41 <= b && b <= 0x46 {
        Some(b - 0x41 + 10)
    } else {
        None
    }
}

/// The number that two bytes spell in hexadecimal, or `fallback`.
pub fn pair_or(a: u8, b: u8, fallback: u8) -> (r: u8)
    ensures
        r == (match hex_pair(a, b) {
            Some(v) => v,
            None => fallback,
        }),
{
    match (digit_value(a), digit_value(b)) {
        (Some(x), Some(y)) => x * 16 + y,
        (None, Some(y)) => if a == 0x2b {
            y
        } else {
            fallback
        },
        _ => fallback,
    }
}

/// The colour that a hash gives: its first three pairs of hexadecimal
/// digits as red, green and blue; a pair that is no number gives 100, 150
/// or 200 in its place.
pub open spec fn color_of(bytes: Seq<u8>) -> Seq<char> {
    let r = match hex_pair(bytes[0], bytes[1]) {
        Some(v) => v,
        None => 100u8,
    };
    let g = match hex_pair(bytes[2], bytes[3]) {
        Some(v) => v,
        None => 150u8,
    };
    let b = match hex_pair(bytes[4], bytes[5]) {
        Some(v) => v,
        None => 200u8,
    };
    seq!['#'] + hex_text(seq![r, g, b])
}

/// The colour that `hash` gives, as "#rrggbb".
///
/// The hash must have at least six bytes, and its first three pairs of
/// bytes must each be whole characters.
pub fn get_random_color_from_hash(hash: &str) -> (s: String)
    requires
        hash.spec_bytes().len() >= 6,
        is_char_boundary(hash.spec_bytes(), 2),
        is_char_boundary(hash.spec_bytes(), 4),
        is_char_boundary(hash.spec_bytes(), 6),
    ensures
        s@ == color_of(hash.spec_bytes()),
{
    let bytes = hash.as_bytes();
    let r = pair_or(bytes[0], bytes[1], 100);
    let g = pair_or(bytes[2], bytes[3], 150);
    let b = pair_or(bytes[4], bytes[5], 200);
    let mut rgb: Vec<u8> = Vec::new();
    rgb.push(r);
    rgb.push(g);
    rgb.push(b);
    proof {
        reveal_strlit("#");
        assert(rgb@ =~= seq![r, g, b]);
        assert("#"@ =~= seq!['#']);
    }
    let digits = to_hex(rgb.as_slice());
    concat_str("#", digits.as_str())
}

} // verus!
