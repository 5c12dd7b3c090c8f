use zeroc::errors::Error;
use zeroc::errors::ErrorKind;
use zeroc::seed::phrase_to_seed;
use zeroc::seed::random_seed;
use zeroc::seed::seed_to_array;
use zeroc::seed::Wordlist;

const VALID_PHRASE: &str =
    "abandon abandon abandon abandon abandon abandon abandon abandon abandon abandon abandon about";

const BAD_CHECKSUM_PHRASE: &str =
    "abandon abandon abandon abandon abandon abandon abandon abandon abandon abandon abandon abandon";

#[test]
fn phrase_to_seed_is_deterministic() {
    let s1 = phrase_to_seed(VALID_PHRASE, None, Wordlist::English).unwrap();
    let s2 = phrase_to_seed(VALID_PHRASE, None, Wordlist::English).unwrap();
    assert_eq!(s1, s2);
}

#[test]
fn phrase_to_seed_empty_password_is_default() {
    let s1 = phrase_to_seed(VALID_PHRASE, None, Wordlist::English).unwrap();
    let s2 = phrase_to_seed(VALID_PHRASE, Some(""), Wordlist::English).unwrap();
    assert_eq!(s1, s2);
}

#[test]
fn phrase_to_seed_password_changes_seed() {
    let s1 = phrase_to_seed(VALID_PHRASE, None, Wordlist::English).unwrap();
    let s2 = phrase_to_seed(VALID_PHRASE, Some("pw"), Wordlist::English).unwrap();
    assert_ne!(s1, s2);
}

#[test]
fn phrase_to_seed_actually_stretches() {
    // The phrase above encodes all-zero entropy; the stretched seed must
    // not be the entropy handed back.
    let s = phrase_to_seed(VALID_PHRASE, None, Wordlist::English).unwrap();
    assert_ne!(s, [0u8; 32]);
}

#[test]
fn invalid_checksum_phrase_is_rejected() {
    let r = phrase_to_seed(BAD_CHECKSUM_PHRASE, None, Wordlist::English);
    assert_eq!(r.unwrap_err(), Error::InvalidMnemonic);
}

#[test]
fn unknown_word_phrase_is_rejected() {
    let r = phrase_to_seed("definitely not twelve valid words", None, Wordlist::English);
    assert_eq!(r.unwrap_err(), Error::InvalidMnemonic);
}

#[test]
fn invalid_mnemonic_is_a_user_input_error() {
    assert_eq!(Error::InvalidMnemonic.kind(), ErrorKind::UserInput);
}

#[test]
fn seed_to_array_decodes_32_bytes() {
    let zeros = "00".repeat(32);
    assert_eq!(seed_to_array(&zeros).unwrap(), [0u8; 32]);
    let ffs = "ff".repeat(32);
    assert_eq!(seed_to_array(&ffs).unwrap(), [0xffu8; 32]);
}

#[test]
fn seed_to_array_decodes_mixed_case() {
    let mut text = String::new();
    for _ in 0..16 {
        text.push_str("aB");
    }
    text.push_str(&"00".repeat(16));
    let seed = seed_to_array(&text).unwrap();
    assert_eq!(seed[0], 0xab);
    assert_eq!(seed[15], 0xab);
    assert_eq!(seed[16], 0x00);
}

#[test]
fn seed_to_array_rejects_wrong_length() {
    assert_eq!(seed_to_array(&"00".repeat(31)).unwrap_err(), Error::MalformedSeed);
    assert_eq!(seed_to_array(&"00".repeat(33)).unwrap_err(), Error::MalformedSeed);
    assert_eq!(seed_to_array("").unwrap_err(), Error::MalformedSeed);
}

#[test]
fn seed_to_array_rejects_bad_text() {
    let mut odd = "00".repeat(31);
    odd.push('0');
    assert_eq!(seed_to_array(&odd).unwrap_err(), Error::MalformedSeed);
    let mut nonhex = "00".repeat(31);
    nonhex.push_str("zz");
    assert_eq!(seed_to_array(&nonhex).unwrap_err(), Error::MalformedSeed);
    assert_eq!(Error::MalformedSeed.kind(), ErrorKind::UserInput);
}

#[test]
fn random_seeds_differ() {
    let a = random_seed();
    let b = random_seed();
    assert_ne!(a, b);
}
