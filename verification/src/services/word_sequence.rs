//! The word sequences from which an identity may pick the words it logs in
//! with. The sequence of an identity is drawn from a word list by hashing
//! the identity's name, so that it is the same every time.
use vstd::prelude::*;
use vstd::utf8::encode_utf8;
use crate::models::user::texts;
use crate::text::{lowercased, to_lowercase};
use crate::utils::crypto::{sha256, sha256_digest};

verus! {

/// The number of words in the sequence of an identity.
pub const SEQUENCE_SIZE: usize = 20;

/// The words of a list that can be drawn: those that are not empty, in
/// order.
pub open spec fn usable(words: Seq<String>) -> Seq<String> {
    words.filter(|w: String| w@.len() > 0)
}

/// The number `i` as eight bytes, least significant first, for `i` below
/// 256.
pub open spec fn round_bytes(i: nat) -> Seq<u8> {
    seq![i as u8, 0u8, 0u8, 0u8, 0u8, 0u8, 0u8, 0u8]
}

/// The number that four bytes spell, most significant first.
pub open spec fn be32(b: Seq<u8>) -> nat {
    (b[0] as nat) * 16777216 + (b[1] as nat) * 65536 + (b[2] as nat) * 256 + (b[3] as nat)
}

/// Where the search for the word of round `i` starts in a list of `total`
/// words: at the first four bytes of the digest of the seed followed by the
/// round, read as a number, modulo `total`.
pub open spec fn start_index(seed: Seq<u8>, i: nat, total: nat) -> int {
    (be32(sha256_digest(seed + round_bytes(i))) % total) as int
}

/// The first position at or after `from` that is not taken, or the length
/// of `taken` if there is none.
pub open spec fn first_free_from(taken: Seq<bool>, from: int) -> int
    decreases taken.len() - from,
{
    if from < 0 || from >= taken.len() {
        taken.len() as int
    } else if !taken[from] {
        from
    } else {
        first_free_from(taken, from + 1)
    }
}

/// The first position that is not taken, searching from `start` to the end
/// and then from the beginning.
pub open spec fn next_free(taken: Seq<bool>, start: int) -> int {
    let j = first_free_from(taken, start);
    if j < taken.len() {
        j
    } else {
        first_free_from(taken, 0)
    }
}

/// Which of `total` words are taken after `n` rounds.
pub open spec fn taken_after(seed: Seq<u8>, total: nat, n: nat) -> Seq<bool>
    decreases n,
{
    if n == 0 {
        Seq::new(total, |i: int| false)
    } else {
        let before = taken_after(seed, total, (n - 1) as nat);
        before.update(next_free(before, start_index(seed, (n - 1) as nat, total)), true)
    }
}

/// The position of the word drawn in round `i`.
pub open spec fn drawn(seed: Seq<u8>, total: nat, i: nat) -> int {
    next_free(taken_after(seed, total, i), start_index(seed, i, total))
}

/// The seed of an identity: its name in lower case, as bytes.
pub open spec fn seed_of(username: Seq<char>) -> Seq<u8> {
    encode_utf8(lowercased(username))
}

/// The words drawn for a seed: for each round the word drawn in it.
pub open spec fn drawn_words(words: Seq<String>, seed: Seq<u8>) -> Seq<Seq<char>> {
    Seq::new(
        SEQUENCE_SIZE as nat,
        |i: int| usable(words)[drawn(seed, usable(words).len(), i as nat)]@,
    )
}

/// The word sequence of an identity: the words drawn for its seed.
pub open spec fn word_sequence(words: Seq<String>, username: Seq<char>) -> Seq<Seq<char>> {
    drawn_words(words, seed_of(username))
}

/// The number of positions that are taken.
pub open spec fn count_taken(taken: Seq<bool>) -> nat
    decreases taken.len(),
{
    if taken.len() == 0 {
        0
    } else {
        count_taken(taken.drop_last()) + if taken.last() {
            1nat
        } else {
            0nat
        }
    }
}

/// Taking a free position takes one more.
pub proof fn lemma_count_taken_update(taken: Seq<bool>, j: int)
    requires
        0 <= j < taken.len(),
        !taken[j],
    ensures
        count_taken(taken.update(j, true)) == count_taken(taken) + 1,
    decreases taken.len(),
{
    let after = taken.update(j, true);
    if j == taken.len() - 1 {
        assert(after.drop_last() =~= taken.drop_last());
    } else {
        lemma_count_taken_update(taken.drop_last(), j);
        assert(after.drop_last() =~= taken.drop_last().update(j, true));
    }
}

/// Where every position is taken, as many are taken as there are.
pub proof fn lemma_all_taken(taken: Seq<bool>)
    requires
        forall|k: int| 0 <= k < taken.len() ==> taken[k],
    ensures
        count_taken(taken) == taken.len(),
    decreases taken.len(),
{
    if taken.len() > 0 {
        lemma_all_taken(taken.drop_last());
    }
}

/// From a position on, the search finds the first free position, and every
/// position it passes is taken.
pub proof fn lemma_first_free(taken: Seq<bool>, from: int)
    requires
        0 <= from <= taken.len(),
    ensures
        from <= first_free_from(taken, from) <= taken.len(),
        first_free_from(taken, from) < taken.len() ==> !taken[first_free_from(taken, from)],
        forall|k: int| from <= k < first_free_from(taken, from) ==> taken[k],
    decreases taken.len() - from,
{
    if from < taken.len() && taken[from] {
        lemma_first_free(taken, from + 1);
    }
}

/// While fewer positions are taken than there are, the search finds a free
/// one.
pub proof fn lemma_next_free(taken: Seq<bool>, start: int)
    requires
        0 <= start < taken.len(),
        count_taken(taken) < taken.len(),
    ensures
        0 <= next_free(taken, start) < taken.len(),
        !taken[next_free(taken, start)],
{
    lemma_first_free(taken, start);
    lemma_first_free(taken, 0);
    if first_free_from(taken, start) >= taken.len() && first_free_from(taken, 0) >= taken.len() {
        lemma_all_taken(taken);
    }
}

/// The words of `words` that can be drawn.
pub fn usable_words(words: &Vec<String>) -> (r: Vec<String>)
    ensures
        r@ == usable(words@),
{
    let mut out: Vec<String> = Vec::new();
    let ghost p = |w: String| w@.len() > 0;
    let mut i: usize = 0;
    proof {
        reveal(Seq::filter);
        assert(words@.take(0) =~= Seq::<String>::empty());
    }
    while i < words.len()
        invariant
            i <= words@.len(),
            p == (|w: String| w@.len() > 0),
            out@ == words@.take(i as int).filter(p),
        decreases words@.len() - i,
    {
        proof {
            crate::database::table::lemma_filter_step(words@, p, i as int);
        }
        if !words[i].as_str().is_empty() {
            out.push(words[i].clone());
        }
        i += 1;
    }
    proof {
        assert(words@.take(words@.len() as int) =~= words@);
    }
    out
}

/// The first position at or after `from` that is not taken, or the length
/// of `taken`.
pub fn find_free_from(taken: &Vec<bool>, from: usize) -> (j: usize)
    requires
        from <= taken@.len(),
    ensures
        j == first_free_from(taken@, from as int),
{
    let mut j = from;
    while j < taken.len() && taken[j]
        invariant
            from <= j <= taken@.len(),
            first_free_from(taken@, from as int) == first_free_from(taken@, j as int),
        decreases taken@.len() - j,
    {
        j += 1;
    }
    j
}

/// Where the search of a round starts in a list of `total` words, given the
/// digest of the round.
pub fn start_position(digest: &Vec<u8>, total: usize) -> (start: usize)
    requires
        digest@.len() >= 4,
        total > 0,
    ensures
        start == be32(digest@) % (total as nat),
{
    let index_value: u32 = (digest[0] as u32) * 16777216 + (digest[1] as u32) * 65536 + (
    digest[2] as u32) * 256 + (digest[3] as u32);
    (index_value as usize) % total
}

/// The first position that is not taken, searching from `start` to the end
/// and then from the beginning; the length of `taken` where all are taken.
pub fn next_free_position(taken: &Vec<bool>, start: usize) -> (j: usize)
    requires
        start <= taken@.len(),
    ensures
        j == next_free(taken@, start as int),
{
    let j = find_free_from(taken, start);
    if j >= taken.len() {
        find_free_from(taken, 0)
    } else {
        j
    }
}

/// The words drawn for the seed `seed_bytes` from the usable words of
/// `words`.
///
/// Twenty rounds draw one word each. A round hashes the seed followed by
/// the number of the round and starts at the position that the hash gives;
/// a word that an earlier round drew is passed over for the next one that
/// no round drew.
pub fn draw_words(words: &Vec<String>, seed_bytes: &[u8]) -> (r: Vec<String>)
    requires
        usable(words@).len() >= SEQUENCE_SIZE,
    ensures
        texts(r@) == drawn_words(words@, seed_bytes@),
{
    let pool = usable_words(words);
    let total = pool.len();
    let mut taken: Vec<bool> = Vec::new();
    let mut k: usize = 0;
    while k < total
        invariant
            k <= total,
            taken@.len() == k,
            forall|i: int| 0 <= i < k ==> !taken@[i],
        decreases total - k,
    {
        taken.push(false);
        k += 1;
    }
    proof {
        assert(taken@ =~= taken_after(seed_bytes@, total as nat, 0));
        lemma_none_taken(taken@);
    }
    let mut selected: Vec<String> = Vec::new();
    let mut round: usize = 0;
    while round < SEQUENCE_SIZE
        invariant
            round <= SEQUENCE_SIZE,
            total == pool@.len(),
            total >= SEQUENCE_SIZE,
            pool@ == usable(words@),
            taken@ == taken_after(seed_bytes@, total as nat, round as nat),
            taken@.len() == total,
            count_taken(taken@) == round,
            selected@.len() == round,
            forall|i: int|
                0 <= i < round ==> (#[trigger] selected@[i])@ == pool@[drawn(
                    seed_bytes@,
                    total as nat,
                    i as nat,
                )]@,
        decreases SEQUENCE_SIZE - round,
    {
        let mut input: Vec<u8> = Vec::new();
        let mut b: usize = 0;
        while b < seed_bytes.len()
            invariant
                b <= seed_bytes@.len(),
                input@ == seed_bytes@.take(b as int),
            decreases seed_bytes@.len() - b,
        {
            input.push(seed_bytes[b]);
            proof {
                assert(seed_bytes@.take(b + 1) =~= seed_bytes@.take(b as int).push(
                    seed_bytes@[b as int],
                ));
            }
            b += 1;
        }
        input.push(round as u8);
        let mut z: usize = 0;
        while z < 7
            invariant
                z <= 7,
                input@ == seed_bytes@ + seq![round as u8] + Seq::new(z as nat, |i: int| 0u8),
            decreases 7 - z,
        {
            input.push(0u8);
            proof {
                assert(input@ =~= seed_bytes@ + seq![round as u8] + Seq::new(
                    (z + 1) as nat,
                    |i: int| 0u8,
                ));
            }
            z += 1;
        }
        proof {
            assert(seed_bytes@.take(seed_bytes@.len() as int) =~= seed_bytes@);
            assert(input@ =~= seed_bytes@ + round_bytes(round as nat));
        }
        let hash = sha256(input.as_slice());
        let start = start_position(&hash, total);
        proof {
            assert(start == start_index(seed_bytes@, round as nat, total as nat));
            lemma_next_free(taken@, start as int);
        }
        let j = next_free_position(&taken, start);
        proof {
            lemma_count_taken_update(taken@, j as int);
        }
        taken.set(j, true);
        selected.push(pool[j].clone());
        round += 1;
    }
    proof {
        assert(texts(selected@) =~= drawn_words(words@, seed_bytes@));
    }
    selected
}

/// The word sequence of `username`, drawn from the usable words of `words`
/// for the seed of the name: the name in lower case, as bytes.
pub fn get_word_sequence_for_username(words: &Vec<String>, username: &str) -> (r: Vec<String>)
    requires
        usable(words@).len() >= SEQUENCE_SIZE,
    ensures
        texts(r@) == word_sequence(words@, username@),
{
    let seed = to_lowercase(username);
    draw_words(words, seed.as_str().as_bytes())
}

/// Where nothing is taken, the count is zero.
pub proof fn lemma_none_taken(taken: Seq<bool>)
    requires
        forall|i: int| 0 <= i < taken.len() ==> !taken[i],
    ensures
        count_taken(taken) == 0,
    decreases taken.len(),
{
    if taken.len() > 0 {
        lemma_none_taken(taken.drop_last());
    }
}

} // verus!
