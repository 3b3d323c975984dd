//! The fairness oracle: seed pairs and the outcomes derived from them.
//!
//! A round is decided by two seeds. The public seed is shown to the clients
//! when the round starts and the private seed when it has ended; from then on
//! anyone can hash the two and recompute the outcome. Nothing but the seeds
//! enters an outcome: what is random here is the seeds alone.

use rand::Rng;
use sha2::{Digest, Sha256};
use vstd::prelude::*;
use vstd::string::*;
use vstd::utf8::encode_utf8;

use crate::money::digit_char;

verus! {

/// Bytes in a freshly drawn seed.
pub const SEED_BYTES: usize = 32;

/// Characters in the hexadecimal text of a seed.
pub const SEED_TEXT_LEN: usize = 64;

/// One word in 33 ends a crash round at once, at the multiplier 1.00.
pub const INSTANT_CRASH_DIVISOR: u32 = 33;

/// The SHA-256 digest of `data`.
pub uninterp spec fn sha256_digest(data: Seq<u8>) -> Seq<u8>;

/// The lower-case hexadecimal digit of `n`.
pub open spec fn hex_digit(n: nat) -> char {
    if n < 10 {
        digit_char(n)
    } else if n == 10 {
        'a'
    } else if n == 11 {
        'b'
    } else if n == 12 {
        'c'
    } else if n == 13 {
        'd'
    } else if n == 14 {
        'e'
    } else {
        'f'
    }
}

/// Whether `c` is a lower-case hexadecimal digit.
pub open spec fn is_hex_char(c: char) -> bool {
    exists|n: nat| n < 16 && c == #[trigger] hex_digit(n)
}

/// The lower-case hexadecimal text of `data`: two digits for each byte, the
/// high half first.
pub open spec fn hex_lower(data: Seq<u8>) -> Seq<char> {
    Seq::new(
        2 * data.len(),
        |i: int|
            if i % 2 == 0 {
                hex_digit((data[i / 2] / 16) as nat)
            } else {
                hex_digit((data[i / 2] % 16) as nat)
            },
    )
}

/// Whether `text` has the shape of a seed sent to clients: 64 lower-case
/// hexadecimal digits.
pub open spec fn is_seed_text(text: Seq<char>) -> bool {
    &&& text.len() == SEED_TEXT_LEN
    &&& forall|i: int| 0 <= i < text.len() ==> is_hex_char(#[trigger] text[i])
}

/// The first four bytes of `digest` read as one big-endian number.
pub open spec fn leading_word(digest: Seq<u8>) -> nat
    recommends
        digest.len() >= 4,
{
    (digest[0] * 16777216 + digest[1] * 65536 + digest[2] * 256 + digest[3]) as nat
}

/// The word that a seed pair stands for: the leading word of the digest of
/// the public seed's text followed by the private seed's, both as UTF-8.
pub open spec fn seed_word(public_seed: Seq<char>, private_seed: Seq<char>) -> nat {
    leading_word(sha256_digest(encode_utf8(public_seed) + encode_utf8(private_seed)))
}

/// The crash point, in hundredths, that the word `word` stands for. A word
/// that 33 divides gives 1.00. Any other word `w` gives
/// 1.00 + floor(40 * (2^32 - 1 - w) / w) / 100, which falls from about
/// 1.7 * 10^9 at `w = 1` to 1.00 at the largest word.
pub open spec fn crash_point_of(word: nat) -> nat {
    if word % 33 == 0 {
        100
    } else {
        (100 + (40 * (4294967295 - word)) / (word as int)) as nat
    }
}

/// The crash point, in hundredths, of a round with these seeds.
pub open spec fn crash_outcome(public_seed: Seq<char>, private_seed: Seq<char>) -> nat {
    crash_point_of(seed_word(public_seed, private_seed))
}

/// The outcome of a seed pair in the range `0 .. range`.
pub open spec fn ranged_outcome(public_seed: Seq<char>, private_seed: Seq<char>, range: nat) -> nat
    recommends
        range > 0,
{
    seed_word(public_seed, private_seed) % range
}

/// `sha2::Sha256` fed with `data` once and finalized: the result is the
/// SHA-256 digest of `data`, which has 32 bytes.
#[verifier::external_body]
fn sha256(data: &[u8]) -> (digest: Vec<u8>)
    ensures
        digest@ == sha256_digest(data@),
        digest@.len() == 32,
{
    let mut hasher = Sha256::new();
    hasher.update(data);
    hasher.finalize().to_vec()
}

/// `hex::encode`: each byte of `data` becomes two lower-case hexadecimal
/// digits, the high half first.
#[verifier::external_body]
fn hex_encode(data: &[u8]) -> (text: String)
    ensures
        text@ == hex_lower(data@),
{
    hex::encode(data)
}

/// `rand::rngs::OsRng` asked for 32 bytes from the operating system's source
/// of randomness. Nothing is claimed of the bytes.
#[verifier::external_body]
fn os_random_seed() -> (seed: [u8; 32])
{
    rand::rngs::OsRng.gen()
}

/// `rand::thread_rng().gen_range(0..bound)`: some number below `bound`. That
/// the draw is uniform is the generator's promise and is not stated here.
#[verifier::external_body]
pub(crate) fn random_below(bound: u64) -> (drawn: u64)
    requires
        bound > 0,
    ensures
        drawn < bound,
{
    rand::thread_rng().gen_range(0..bound)
}

/// The two seeds of one round, each as 64 hexadecimal digits.
pub struct SeedPair {
    pub public_seed: String,
    pub private_seed: String,
}

/// What a client needs to check a finished round.
pub struct FairnessRecord {
    pub round_id: String,
    pub public_seed: String,
    pub private_seed: String,
    /// The crash point of the round, in hundredths.
    pub derived_outcome: u64,
}

/// Every lower-case hexadecimal text of 32 bytes has the shape of a seed.
pub proof fn lemma_hex_of_seed_is_seed_text(data: Seq<u8>)
    requires
        data.len() == SEED_BYTES,
    ensures
        is_seed_text(hex_lower(data)),
{
    let text = hex_lower(data);
    assert forall|i: int| 0 <= i < text.len() implies is_hex_char(#[trigger] text[i]) by {
        let half: nat = if i % 2 == 0 {
            (data[i / 2] / 16) as nat
        } else {
            (data[i / 2] % 16) as nat
        };
        assert(half < 16);
        assert(text[i] == hex_digit(half));
    }
}

/// Draws a fresh seed pair from the operating system's source of randomness.
pub fn new_seed_pair() -> (pair: SeedPair)
    ensures
        is_seed_text(pair.public_seed@),
        is_seed_text(pair.private_seed@),
{
    let public_bytes = os_random_seed();
    let private_bytes = os_random_seed();
    proof {
        lemma_hex_of_seed_is_seed_text(public_bytes@);
        lemma_hex_of_seed_is_seed_text(private_bytes@);
    }
    SeedPair {
        public_seed: hex_encode(public_bytes.as_slice()),
        private_seed: hex_encode(private_bytes.as_slice()),
    }
}

/// The word of a digest: its first four bytes as a big-endian number.
pub fn word_of_digest(digest: &[u8]) -> (word: u32)
    requires
        digest@.len() >= 4,
    ensures
        word == leading_word(digest@),
{
    let b0: u32 = digest[0] as u32;
    let b1: u32 = digest[1] as u32;
    let b2: u32 = digest[2] as u32;
    let b3: u32 = digest[3] as u32;
    b0 * 16777216 + b1 * 65536 + b2 * 256 + b3
}

/// The word that the seed pair stands for.
pub fn derive_word(public_seed: &str, private_seed: &str) -> (word: u32)
    ensures
        word == seed_word(public_seed@, private_seed@),
{
    let mut combined: Vec<u8> = Vec::new();
    combined.extend_from_slice(public_seed.as_bytes());
    combined.extend_from_slice(private_seed.as_bytes());
    assert(combined@ =~= encode_utf8(public_seed@) + encode_utf8(private_seed@));
    let digest = sha256(combined.as_slice());
    word_of_digest(digest.as_slice())
}

/// The crash point, in hundredths, that `word` stands for.
pub fn crash_point_from_word(word: u32) -> (point: u64)
    ensures
        point == crash_point_of(word as nat),
        point >= 100,
{
    if word % INSTANT_CRASH_DIVISOR == 0 {
        100
    } else {
        let span: u64 = 40 * ((u32::MAX - word) as u64);
        100 + span / (word as u64)
    }
}

/// The outcome of the seed pair in `0 .. range`, or `None` where the range is
/// empty.
pub fn derive_outcome(public_seed: &str, private_seed: &str, range: u64) -> (outcome: Option<u64>)
    ensures
        range == 0 ==> outcome is None,
        range > 0 ==> outcome == Some(
            ranged_outcome(public_seed@, private_seed@, range as nat) as u64,
        ),
{
    if range == 0 {
        None
    } else {
        let word = derive_word(public_seed, private_seed);
        Some((word as u64) % range)
    }
}

/// The crash point, in hundredths, of a round with these seeds.
pub fn derive_crash_point(public_seed: &str, private_seed: &str) -> (point: u64)
    ensures
        point == crash_outcome(public_seed@, private_seed@),
        point >= 100,
{
    crash_point_from_word(derive_word(public_seed, private_seed))
}

impl FairnessRecord {
    /// Whether the outcome on record is the one that its seeds give.
    pub open spec fn is_reproducible(&self) -> bool {
        self.derived_outcome == crash_outcome(self.public_seed@, self.private_seed@)
    }

    /// Recomputes the outcome from the two seeds and compares it with the one
    /// on record.
    pub fn verify(&self) -> (genuine: bool)
        ensures
            genuine == self.is_reproducible(),
    {
        derive_crash_point(self.public_seed.as_str(), self.private_seed.as_str())
            == self.derived_outcome
    }
}

/// The outcome is a function of the two seeds and nothing else: equal seed
/// pairs give equal crash points and equal outcomes in every range.
pub proof fn lemma_outcome_is_deterministic(
    public_a: Seq<char>,
    private_a: Seq<char>,
    public_b: Seq<char>,
    private_b: Seq<char>,
    range: nat,
)
    requires
        public_a == public_b,
        private_a == private_b,
    ensures
        crash_outcome(public_a, private_a) == crash_outcome(public_b, private_b),
        ranged_outcome(public_a, private_a, range) == ranged_outcome(public_b, private_b, range),
{
}

/// Every crash point is at least 1.00, and a word that 33 divides gives
/// exactly 1.00.
pub proof fn lemma_crash_point_bounds(word: nat)
    requires
        word <= u32::MAX,
    ensures
        100 <= crash_point_of(word) <= 100 + 40 * 4294967294,
        word % 33 == 0 ==> crash_point_of(word) == 100,
{
    if word % 33 != 0 {
        let span = 40 * (4294967295 - word);
        assert(0 <= span / word as int <= span) by (nonlinear_arith)
            requires
                span >= 0,
                word >= 1,
        ;
    }
}

} // verus!
