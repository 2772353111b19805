use rchat::services::auth::generate_word_sequence_for_username;
use rchat::services::word_sequence::{
    draw_words, find_free_from, get_word_sequence_for_username, next_free_position,
    start_position, usable_words, SEQUENCE_SIZE,
};

fn word_list() -> Vec<String> {
    let mut words = Vec::new();
    for i in 0..256 {
        words.push(format!("word{:03}", i));
        if i % 16 == 0 {
            words.push(String::new());
        }
    }
    words
}

#[test]
fn test_word_sequence_deterministic() {
    let username = "testuser";
    let seq1 = get_word_sequence_for_username(&word_list(), username);
    let seq2 = get_word_sequence_for_username(&word_list(), username);
    assert_eq!(seq1, seq2);
    assert_eq!(seq1.len(), SEQUENCE_SIZE);
}

#[test]
fn test_word_sequence_case_insensitive() {
    let seq1 = get_word_sequence_for_username(&word_list(), "TestUser");
    let seq2 = get_word_sequence_for_username(&word_list(), "testuser");
    assert_eq!(seq1, seq2);
}

#[test]
fn test_word_sequence_different_users() {
    let seq1 = get_word_sequence_for_username(&word_list(), "user1");
    let seq2 = get_word_sequence_for_username(&word_list(), "user2");
    assert_ne!(seq1, seq2);
}

#[test]
fn word_sequence_has_no_repeats_and_no_empty_words() {
    let seq = get_word_sequence_for_username(&word_list(), "somebody");
    for (i, w) in seq.iter().enumerate() {
        assert!(!w.is_empty());
        for other in seq.iter().skip(i + 1) {
            assert_ne!(w, other);
        }
    }
}

#[test]
fn word_sequence_uses_every_word_of_a_list_of_twenty() {
    let mut words = Vec::new();
    for i in 0..20 {
        words.push(format!("w{}", i));
    }
    let mut seq = get_word_sequence_for_username(&words, "crowded");
    assert_eq!(seq.len(), 20);
    seq.sort();
    let mut all = words.clone();
    all.sort();
    assert_eq!(seq, all);
}

#[test]
fn word_sequence_first_word_follows_the_digest() {
    // SHA-256 of "abc" followed by eight zero bytes starts with the bytes
    // that the first round reads as a number.
    let words = word_list();
    let usable = usable_words(&words);
    assert_eq!(usable.len(), 256);
    let seq = get_word_sequence_for_username(&words, "ABC");
    let mut input = b"abc".to_vec();
    input.extend_from_slice(&[0u8; 8]);
    let digest = rchat::utils::crypto::hash_file(&input);
    let first = u32::from_str_radix(&digest[0..8], 16).unwrap() as usize % 256;
    assert_eq!(seq[0], usable[first]);
}

#[test]
fn words_are_drawn_for_the_lower_case_name_as_seed() {
    let words = word_list();
    assert_eq!(draw_words(&words, b"abc"), get_word_sequence_for_username(&words, "ABC"));
    assert_ne!(draw_words(&words, b"ABC"), get_word_sequence_for_username(&words, "ABC"));
    assert_eq!(draw_words(&words, b"").len(), SEQUENCE_SIZE);
}

#[test]
fn a_round_starts_where_its_digest_says() {
    assert_eq!(start_position(&vec![0, 0, 0, 7, 99], 256), 7);
    assert_eq!(start_position(&vec![0, 0, 1, 0], 256), 0);
    assert_eq!(start_position(&vec![0, 0, 1, 2], 100), 58);
    assert_eq!(start_position(&vec![255, 255, 255, 255], 1000), 295);
    assert_eq!(start_position(&vec![1, 0, 0, 0], 7), 16_777_216 % 7);
}

#[test]
fn a_taken_word_is_passed_over_for_the_next_free_one() {
    let taken = vec![true, false, true, true, false, true];
    assert_eq!(next_free_position(&taken, 0), 1);
    assert_eq!(next_free_position(&taken, 1), 1);
    assert_eq!(next_free_position(&taken, 2), 4);
    assert_eq!(next_free_position(&taken, 5), 1);
    assert_eq!(next_free_position(&taken, 6), 1);
    assert_eq!(find_free_from(&taken, 5), 6);
    assert_eq!(next_free_position(&vec![true, true], 1), 2);
    assert_eq!(next_free_position(&Vec::new(), 0), 0);
}

#[test]
fn generated_sequence_is_the_word_sequence() {
    let a = generate_word_sequence_for_username(&word_list(), "alice");
    let b = get_word_sequence_for_username(&word_list(), "alice");
    assert_eq!(a, b);
}
