use zeroc::balance::normalize_slot;
use zeroc::balance::BalanceQuery;
use zeroc::balance::DecryptOutcome;
use zeroc::errors::Error;
use zeroc::errors::ErrorKind;
use zeroc::scalar::decryption_key_from_bytes;

/// The scalar field modulus, little-endian: the smallest invalid key.
const FS_MODULUS_LE: [u8; 32] = [
    0xb7, 0x2c, 0xf7, 0xd6, 0x5e, 0x0e, 0x97, 0xd0, 0x82, 0x10, 0xc8, 0xcc, 0x93, 0x20, 0x68,
    0xa6, 0x00, 0x3b, 0x34, 0x01, 0x01, 0x3b, 0x67, 0x06, 0xa9, 0xaf, 0x33, 0x65, 0xea, 0xb4,
    0x7d, 0x0e,
];

fn valid_key() -> [u8; 32] {
    let mut k = [0u8; 32];
    k[0] = 1;
    k
}

fn payload_hex(byte: &str, len: usize) -> String {
    byte.repeat(len)
}

#[test]
fn sentinel_slots_yield_zero_total() {
    let q = BalanceQuery::get_balance_from_decryption_key(
        &valid_key(),
        "0x00",
        DecryptOutcome::BadCiphertext,
        "0x00",
        DecryptOutcome::BadCiphertext,
    )
    .unwrap();
    assert_eq!(q.decrypted_balance, 0);
    assert_eq!(q.encrypted_balance, vec![0u8]);
    assert_eq!(q.pending_transfer, vec![0u8]);
    assert_eq!(q.encrypted_balance_str, "0x00");
    assert_eq!(q.pending_transfer_str, "0x00");
}

#[test]
fn prefix_is_stripped_exactly() {
    let payload = payload_hex("ab", 64);
    let response = format!("0xAAAA{}", payload);
    let slot = normalize_slot(&response).unwrap();
    assert!(!slot.is_sentinel);
    assert_eq!(slot.raw, vec![0xabu8; 64]);
    assert_eq!(slot.display, format!("0x{}", payload));
}

#[test]
fn decrypted_values_are_summed() {
    let payload = payload_hex("cd", 64);
    let response = format!("0x1111{}", payload);
    let q = BalanceQuery::get_balance_from_decryption_key(
        &valid_key(),
        &response,
        DecryptOutcome::Value(5),
        &response,
        DecryptOutcome::Value(3),
    )
    .unwrap();
    assert_eq!(q.decrypted_balance, 8);
    assert_eq!(q.encrypted_balance, vec![0xcdu8; 64]);
    assert_eq!(q.pending_transfer, vec![0xcdu8; 64]);
    assert_eq!(q.encrypted_balance_str, format!("0x{}", payload));
}

#[test]
fn sentinel_and_value_mix() {
    let payload = payload_hex("cd", 64);
    let response = format!("0x2222{}", payload);
    let q = BalanceQuery::get_balance_from_decryption_key(
        &valid_key(),
        "0x00",
        DecryptOutcome::BadCiphertext,
        &response,
        DecryptOutcome::Value(7),
    )
    .unwrap();
    assert_eq!(q.decrypted_balance, 7);
    assert_eq!(q.encrypted_balance, vec![0u8]);
    assert_eq!(q.pending_transfer, vec![0xcdu8; 64]);
}

#[test]
fn truncated_ciphertext_is_malformed() {
    // 63 bytes: one short of the fixed serialized size.
    let payload = payload_hex("ab", 63);
    let response = format!("0xAAAA{}", payload);
    assert_eq!(normalize_slot(&response).unwrap_err(), Error::MalformedCiphertext);
    let r = BalanceQuery::get_balance_from_decryption_key(
        &valid_key(),
        &response,
        DecryptOutcome::Value(5),
        "0x00",
        DecryptOutcome::BadCiphertext,
    );
    assert_eq!(r.unwrap_err(), Error::MalformedCiphertext);
    assert_eq!(Error::MalformedCiphertext.kind(), ErrorKind::MalformedData);
}

#[test]
fn odd_length_payload_is_malformed() {
    let mut payload = payload_hex("ab", 64);
    payload.push('a');
    let response = format!("0xAAAA{}", payload);
    assert_eq!(normalize_slot(&response).unwrap_err(), Error::MalformedCiphertext);
}

#[test]
fn non_hex_payload_is_malformed() {
    let mut payload = payload_hex("ab", 63);
    payload.push_str("zz");
    let response = format!("0xAAAA{}", payload);
    assert_eq!(normalize_slot(&response).unwrap_err(), Error::MalformedCiphertext);
}

#[test]
fn missing_lead_is_malformed() {
    let response = format!("zzAAAA{}", payload_hex("ab", 64));
    assert_eq!(normalize_slot(&response).unwrap_err(), Error::MalformedCiphertext);
    assert_eq!(normalize_slot("0x12").unwrap_err(), Error::MalformedCiphertext);
    assert_eq!(normalize_slot("").unwrap_err(), Error::MalformedCiphertext);
}

#[test]
fn out_of_range_decrypt_is_surfaced() {
    let response = format!("0xAAAA{}", payload_hex("ab", 64));
    let r = BalanceQuery::get_balance_from_decryption_key(
        &valid_key(),
        &response,
        DecryptOutcome::OutOfRange,
        "0x00",
        DecryptOutcome::BadCiphertext,
    );
    assert_eq!(r.unwrap_err(), Error::DecryptionRangeExceeded);
    assert_eq!(Error::DecryptionRangeExceeded.kind(), ErrorKind::RangeExceeded);
}

#[test]
fn rejected_ciphertext_bytes_are_surfaced() {
    let response = format!("0xAAAA{}", payload_hex("ab", 64));
    let r = BalanceQuery::get_balance_from_decryption_key(
        &valid_key(),
        &response,
        DecryptOutcome::BadCiphertext,
        "0x00",
        DecryptOutcome::BadCiphertext,
    );
    assert_eq!(r.unwrap_err(), Error::MalformedCiphertext);
}

#[test]
fn balance_sum_overflow_is_surfaced() {
    let response = format!("0xAAAA{}", payload_hex("ab", 64));
    let r = BalanceQuery::get_balance_from_decryption_key(
        &valid_key(),
        &response,
        DecryptOutcome::Value(u32::MAX),
        &response,
        DecryptOutcome::Value(1),
    );
    assert_eq!(r.unwrap_err(), Error::BalanceOverflow);
    assert_eq!(Error::BalanceOverflow.kind(), ErrorKind::InternalInvariant);
}

#[test]
fn saturated_sum_still_fits() {
    let response = format!("0xAAAA{}", payload_hex("ab", 64));
    let q = BalanceQuery::get_balance_from_decryption_key(
        &valid_key(),
        &response,
        DecryptOutcome::Value(u32::MAX - 1),
        &response,
        DecryptOutcome::Value(1),
    )
    .unwrap();
    assert_eq!(q.decrypted_balance, u32::MAX);
}

#[test]
fn key_out_of_field_is_malformed() {
    let r = BalanceQuery::get_balance_from_decryption_key(
        &[0xffu8; 32],
        "0x00",
        DecryptOutcome::BadCiphertext,
        "0x00",
        DecryptOutcome::BadCiphertext,
    );
    assert_eq!(r.unwrap_err(), Error::MalformedKey);
    assert_eq!(Error::MalformedKey.kind(), ErrorKind::MalformedData);
}

#[test]
fn key_of_wrong_length_is_malformed() {
    let r = BalanceQuery::get_balance_from_decryption_key(
        &[0u8; 31],
        "0x00",
        DecryptOutcome::BadCiphertext,
        "0x00",
        DecryptOutcome::BadCiphertext,
    );
    assert_eq!(r.unwrap_err(), Error::MalformedKey);
}

#[test]
fn scalar_bound_is_exact() {
    // The modulus itself is the smallest invalid serialization.
    assert_eq!(decryption_key_from_bytes(FS_MODULUS_LE).unwrap_err(), Error::MalformedKey);
    // One below the modulus is valid.
    let mut below = FS_MODULUS_LE;
    below[0] -= 1;
    let k = decryption_key_from_bytes(below).unwrap();
    assert_eq!(k.bytes, below);
    // Zero is a valid scalar.
    assert!(decryption_key_from_bytes([0u8; 32]).is_ok());
    // Anything with a higher top byte is invalid.
    let mut high = [0u8; 32];
    high[31] = 0x0f;
    assert_eq!(decryption_key_from_bytes(high).unwrap_err(), Error::MalformedKey);
}

#[test]
fn structural_prefix_content_is_ignored() {
    // The strip is positional, not a search: the four structural
    // characters need not be hex themselves.
    let payload = payload_hex("01", 64);
    let response = format!("0xZZZZ{}", payload);
    let slot = normalize_slot(&response).unwrap();
    assert_eq!(slot.raw, vec![0x01u8; 64]);
    assert_eq!(slot.display, format!("0x{}", payload));
}

#[test]
fn sentinel_must_match_exactly() {
    // Same length as the sentinel but different text: too short for a
    // payload slot, so malformed.
    assert_eq!(normalize_slot("0X00").unwrap_err(), Error::MalformedCiphertext);
    assert_eq!(normalize_slot("0x01").unwrap_err(), Error::MalformedCiphertext);
    assert_eq!(normalize_slot("0x123").unwrap_err(), Error::MalformedCiphertext);
}

#[test]
fn empty_payload_is_malformed() {
    assert_eq!(normalize_slot("0xAAAA").unwrap_err(), Error::MalformedCiphertext);
}

#[test]
fn oversized_payload_is_kept_whole() {
    // More bytes than the fixed size pass normalization; the engine's
    // deserializer decides what to do with the surplus.
    let payload = payload_hex("ef", 65);
    let response = format!("0xAAAA{}", payload);
    let slot = normalize_slot(&response).unwrap();
    assert_eq!(slot.raw.len(), 65);
}
