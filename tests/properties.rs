use rowid::{
    base::{
        decode, encode, encode_system_time, generate, get_randomness, verify, verify_at,
        RowIDError,
    },
    radix::timestamp_from_keys,
    time::{millis_to_timestamp, system_time_to_timestamp, timestamp_to_system_time},
    with_config::{RowIDWithConfig, RowIDWithConfigResult},
};

const DEFAULT_ALPHABET: &str = "0123456789ABCDEFGHJKMNPQRSTVWXYZ";

fn in_alphabet(s: &str, alphabet: &str) -> bool {
    s.chars().all(|c| alphabet.contains(c))
}

#[test]
fn encode_exact_values() {
    assert_eq!(encode(1).unwrap(), "0000000001");
    assert_eq!(encode(31).unwrap(), "000000000Z");
    assert_eq!(encode(32).unwrap(), "0000000010");
    assert_eq!(encode(1_700_000_000_000).unwrap(), "01HF7YAT00");
    assert_eq!(encode((1usize << 50) - 1).unwrap(), "ZZZZZZZZZZ");
}

#[test]
fn encode_drops_digits_above_the_width() {
    assert_eq!(encode(1usize << 50).unwrap(), "0000000000");
    assert_eq!(decode(&encode((1usize << 50) + 5).unwrap()).unwrap(), 5);
}

#[test]
fn decode_exact_values() {
    assert_eq!(decode("0000000010").unwrap(), 32);
    assert_eq!(decode("01HF7YAT00").unwrap(), 1_700_000_000_000);
    assert_eq!(decode("ZZZZZZZZZZ").unwrap(), (1usize << 50) - 1);
}

#[test]
fn decode_is_case_insensitive() {
    assert_eq!(decode("01hf7yat00").unwrap(), 1_700_000_000_000);
    assert_eq!(decode("000000000z").unwrap(), 31);
}

#[test]
fn decode_ignores_characters_after_the_timestamp() {
    assert_eq!(decode("0000000001XYZ").unwrap(), 1);
    assert_eq!(decode("0000000001^!@").unwrap(), 1);
}

#[test]
fn decode_length_boundary() {
    assert_eq!(decode("").unwrap_err(), RowIDError::EncodedLength);
    assert_eq!(decode("000000000").unwrap_err(), RowIDError::EncodedLength);
    assert_eq!(decode("0000000000").unwrap(), 0);
}

#[test]
fn decode_rejects_characters_outside_the_alphabet() {
    // I, L, O and U are not in the default alphabet.
    assert_eq!(decode("000000000I").unwrap_err(), RowIDError::InvalidEncoded);
    assert_eq!(decode("U000000000").unwrap_err(), RowIDError::InvalidEncoded);
    assert_eq!(decode("0000o00000").unwrap_err(), RowIDError::InvalidEncoded);
}

#[test]
fn round_trip_default_alphabet() {
    for t in [0usize, 1, 31, 32, 1_000_000_000, 1_700_000_000_000, (1usize << 50) - 1] {
        assert_eq!(decode(&encode(t).unwrap()).unwrap(), t);
    }
}

#[test]
fn round_trip_custom_alphabet() {
    let rwc: RowIDWithConfigResult = RowIDWithConfig::new()
        .char_list("abcdefghijklmnopqrstuvwxyz0123")
        .done()
        .unwrap();
    assert_eq!(rwc.encode(0).unwrap(), "aaaaaaaaaa");
    assert_eq!(rwc.encode(123_456_789).unwrap(), "aaaafcmogj");
    for t in [0usize, 1, 29, 30, 123_456_789, 1_700_000_000_000] {
        assert_eq!(rwc.decode(&rwc.encode(t).unwrap()).unwrap(), t);
    }
}

#[test]
fn custom_alphabet_non_ascii_case() {
    let rwc: RowIDWithConfigResult = RowIDWithConfig::new()
        .char_list("ÉÀ0123456789ABCDEFGHJKMNPQRSTV")
        .done()
        .unwrap();
    assert_eq!(rwc.decode("ààààààààà\u{e9}").unwrap(), 20_361_724_137_930);
    assert_eq!(rwc.decode("ÀÀÀÀÀÀÀÀÀÉ").unwrap(), 20_361_724_137_930);
}

#[test]
fn decode_wraps_past_the_word_size() {
    let alphabet: String = (0..100u32).map(|i| char::from_u32(0x4E00 + i).unwrap()).collect();
    let rwc: RowIDWithConfigResult = RowIDWithConfig::new().char_list(&alphabet).done().unwrap();
    let last: String = std::iter::repeat(char::from_u32(0x4E00 + 99).unwrap()).take(10).collect();
    let expected: u128 = (100u128.pow(10) - 1) % ((usize::MAX as u128) + 1);
    assert_eq!(rwc.decode(&last).unwrap() as u128, expected);
}

#[test]
fn timestamp_from_keys_exact() {
    let keys: Vec<String> = vec!["A".to_string(), "B".to_string()];
    let digits: Vec<String> = vec!["B".to_string(), "A".to_string(), "B".to_string()];
    assert_eq!(timestamp_from_keys(&keys, &digits), Ok(5));
    let unknown: Vec<String> = vec!["A".to_string(), "C".to_string()];
    assert_eq!(timestamp_from_keys(&keys, &unknown), Err(RowIDError::InvalidEncoded));
    // A repeated key stands for its last position.
    let repeated: Vec<String> = vec!["A".to_string(), "B".to_string(), "A".to_string()];
    assert_eq!(timestamp_from_keys(&repeated, &vec!["A".to_string()]), Ok(2));
}

#[test]
fn get_randomness_draws_from_the_alphabet() {
    let rds = get_randomness(200);
    assert_eq!(rds.chars().count(), 200);
    assert!(in_alphabet(&rds, DEFAULT_ALPHABET));
    let rwc = RowIDWithConfig::new().char_list("abcdefghijklmnopqrstuvwxyz01").done().unwrap();
    let custom = rwc.get_randomness(50);
    assert_eq!(custom.chars().count(), 50);
    assert!(in_alphabet(&custom, "abcdefghijklmnopqrstuvwxyz01"));
}

#[test]
fn generate_exact_prefix_and_lengths() {
    let g = generate(1_700_000_000_000, Some(0));
    assert!(g.success);
    assert!(g.error.is_none());
    assert_eq!(g.result.unwrap(), "01HF7YAT00");
    let g = generate(1_700_000_000_000, None);
    let id = g.result.unwrap();
    assert_eq!(id.len(), 32);
    assert!(id.starts_with("01HF7YAT00"));
    assert!(in_alphabet(&id, DEFAULT_ALPHABET));
    assert_eq!(decode(&id).unwrap(), 1_700_000_000_000);
}

#[test]
fn rowid_with_config_lengths() {
    let rwc = RowIDWithConfig::new().randomness_length(0).done().unwrap();
    assert_eq!(rwc.rowid().len(), 10);
    let id = rwc.generate(42, Some(3)).result.unwrap();
    assert_eq!(id.len(), 13);
    assert_eq!(rwc.decode(&id).unwrap(), 42);
}

#[test]
fn verify_at_natural_boundary() {
    let id = generate(1000, Some(4)).result.unwrap();
    let at = verify_at(&id, 1000);
    assert!(at.success);
    assert_eq!(at.result, Some(1000));
    assert_eq!(at.natural, Some(true));
    assert!(at.error.is_none());
    let before = verify_at(&id, 999);
    assert_eq!(before.natural, Some(false));
    let bad = verify_at("ABC", 5);
    assert!(!bad.success);
    assert_eq!(bad.result, None);
    assert_eq!(bad.natural, None);
    assert_eq!(bad.error, Some(RowIDError::EncodedLength));
}

#[test]
fn verify_future_identifier_is_not_natural() {
    let id = encode((1usize << 50) - 1).unwrap();
    let verified = verify(&id);
    assert!(verified.success);
    assert_eq!(verified.natural, Some(false));
}

#[test]
fn config_alphabet_length_boundary() {
    let a27 = "0123456789ABCDEFGHJKMNPQRST";
    let a28 = "0123456789ABCDEFGHJKMNPQRSTV";
    assert_eq!(a27.chars().count(), 27);
    assert_eq!(RowIDWithConfig::new().char_list(a27).done().unwrap_err(), RowIDError::CharListLength);
    let rwc = RowIDWithConfig::new().char_list(a28).done().unwrap();
    assert_eq!(rwc.state.char_list, a28);
    assert_eq!(rwc.state.randomness_length, 22);
    assert_eq!(RowIDWithConfig::new().char_list("").done().unwrap_err(), RowIDError::CharListLength);
}

#[test]
fn config_defaults() {
    let rwc = RowIDWithConfig::default().done().unwrap();
    assert_eq!(rwc.state.char_list, DEFAULT_ALPHABET);
    assert_eq!(rwc.state.randomness_length, 22);
    assert_eq!(rwc.rowid().len(), 32);
}

#[test]
fn error_messages() {
    assert_eq!(
        RowIDError::SystemTimeBeforeEpoch.as_str(),
        "System time must not before the Unix epoch"
    );
    assert_eq!(RowIDError::CharListLength.as_str(), "The length of char_list must be longer or equal to 28");
}

#[test]
fn time_before_epoch_clamps_to_zero() {
    let before = std::time::UNIX_EPOCH - std::time::Duration::from_millis(5);
    assert_eq!(system_time_to_timestamp(before), 0);
    let later = std::time::UNIX_EPOCH + std::time::Duration::from_micros(1_234_567);
    assert_eq!(system_time_to_timestamp(later), 1234);
    assert_eq!(system_time_to_timestamp(timestamp_to_system_time(1_700_000_000_123)), 1_700_000_000_123);
}

#[test]
fn encode_system_time_refuses_instants_before_the_epoch() {
    let before = std::time::UNIX_EPOCH - std::time::Duration::from_millis(1);
    assert_eq!(encode_system_time(before), Err(RowIDError::SystemTimeBeforeEpoch));
    let later = std::time::UNIX_EPOCH + std::time::Duration::from_millis(32);
    assert_eq!(encode_system_time(later).unwrap(), "0000000010");
    assert_eq!(encode_system_time(std::time::UNIX_EPOCH).unwrap(), "0000000000");
}

#[test]
fn millis_to_timestamp_cuts_to_the_word() {
    assert_eq!(millis_to_timestamp(0), 0);
    assert_eq!(millis_to_timestamp(1_700_000_000_123), 1_700_000_000_123);
    assert_eq!(millis_to_timestamp(usize::MAX as u128), usize::MAX);
    assert_eq!(millis_to_timestamp(usize::MAX as u128 + 8), 7);
}
