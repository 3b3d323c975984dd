use session_engine::fairness::{
    crash_point_from_word, derive_crash_point, derive_outcome, derive_word, new_seed_pair,
    word_of_digest, FairnessRecord,
};

#[test]
fn crash_point_of_instant_words_is_one() {
    assert_eq!(crash_point_from_word(0), 100);
    assert_eq!(crash_point_from_word(33), 100);
    assert_eq!(crash_point_from_word(66), 100);
    assert_eq!(crash_point_from_word(1652320263), 100);
}

#[test]
fn crash_point_of_known_words() {
    // 100 + floor(40 * (2^32 - 1 - 1) / 1)
    assert_eq!(crash_point_from_word(1), 100 + 40 * 4294967294);
    // 100 + floor(40 * 2147483647 / 2147483648) = 100 + 39
    assert_eq!(crash_point_from_word(2147483648), 139);
    assert_eq!(crash_point_from_word(u32::MAX), 100);
    assert_eq!(crash_point_from_word(779269412), 280);
    assert_eq!(crash_point_from_word(894094), 192208);
}

#[test]
fn word_of_digest_reads_four_bytes_big_endian() {
    assert_eq!(word_of_digest(&[0xba, 0x78, 0x16, 0xbf, 0x8f]), 0xba7816bf);
    assert_eq!(word_of_digest(&[0, 0, 1, 2]), 258);
    assert_eq!(word_of_digest(&[255, 255, 255, 255]), u32::MAX);
}

#[test]
fn derive_word_is_the_leading_word_of_sha256() {
    // SHA-256("abc") = ba7816bf 8f01cfea ...
    assert_eq!(derive_word("a", "bc"), 0xba7816bf);
    assert_eq!(derive_word("ab", "c"), 0xba7816bf);
    // SHA-256("") = e3b0c442 ...
    assert_eq!(derive_word("", ""), 0xe3b0c442);
}

#[test]
fn derive_crash_point_follows_the_word() {
    assert_eq!(derive_crash_point("a", "bc"), 114);
    assert_eq!(derive_crash_point("", ""), 104);
    assert_eq!(derive_crash_point("public-seed", "private-110"), 280);
    assert_eq!(derive_crash_point("public-seed", "private-19"), 100);
    assert_eq!(derive_crash_point("public-seed", "private-185"), 192208);
}

#[test]
fn derive_outcome_is_deterministic() {
    let first = derive_crash_point("public-seed", "private-720");
    let second = derive_crash_point("public-seed", "private-720");
    assert_eq!(first, 235);
    assert_eq!(first, second);
    assert_eq!(
        derive_outcome("public-seed", "private-720", 1000),
        derive_outcome("public-seed", "private-720", 1000)
    );
}

#[test]
fn derive_outcome_maps_the_word_into_the_range() {
    assert_eq!(derive_outcome("a", "bc", 0), None);
    assert_eq!(derive_outcome("a", "bc", 1), Some(0));
    assert_eq!(derive_outcome("a", "bc", 1000), Some(0xba7816bf_u64 % 1000));
    assert_eq!(derive_outcome("a", "bc", u64::MAX), Some(0xba7816bf));
}

#[test]
fn seed_pairs_are_hex_text_of_fixed_width() {
    let pair = new_seed_pair();
    assert_eq!(pair.public_seed.len(), 64);
    assert_eq!(pair.private_seed.len(), 64);
    assert!(pair.public_seed.chars().all(|c| matches!(c, '0'..='9' | 'a'..='f')));
    assert!(pair.private_seed.chars().all(|c| matches!(c, '0'..='9' | 'a'..='f')));
    assert_ne!(pair.public_seed, pair.private_seed);
}

#[test]
fn seed_pairs_differ_from_draw_to_draw() {
    let first = new_seed_pair();
    let second = new_seed_pair();
    assert_ne!(first.public_seed, second.public_seed);
    assert_ne!(first.private_seed, second.private_seed);
}

#[test]
fn fairness_record_is_checked_against_its_seeds() {
    let genuine = FairnessRecord {
        round_id: String::from("round"),
        public_seed: String::from("public-seed"),
        private_seed: String::from("private-110"),
        derived_outcome: 280,
    };
    assert!(genuine.verify());
    let forged = FairnessRecord {
        round_id: String::from("round"),
        public_seed: String::from("public-seed"),
        private_seed: String::from("private-110"),
        derived_outcome: 281,
    };
    assert!(!forged.verify());
}
