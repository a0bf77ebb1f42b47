use axiomvault_cli::hardware_key::{
    decode_hardware_secret, decode_hex_nibble, decode_hex_secret, hardware_secret_from_variables,
    LoadSecretError, SecretError, SecretVariable,
};

#[test]
fn decodes_plaintext_secret() {
    let decoded = decode_hardware_secret("simulated-yubikey-response").unwrap();
    assert_eq!(decoded, b"simulated-yubikey-response");
}

#[test]
fn decodes_hex_secret() {
    let decoded = decode_hardware_secret("hex:73696d756c617465642d796b").unwrap();
    assert_eq!(decoded, b"simulated-yk");
}

#[test]
fn rejects_odd_length_hex_secret() {
    let err = decode_hardware_secret("hex:abc").unwrap_err();
    assert!(err.message().contains("even number of digits"));
}

#[test]
fn loads_primary_env_var() {
    let decoded =
        hardware_secret_from_variables(Some("hex:616263".to_string()), Some("ignored".to_string()))
            .unwrap();
    assert_eq!(decoded, b"abc");
}

#[test]
fn falls_back_to_second_variable_when_first_is_blank() {
    let decoded =
        hardware_secret_from_variables(Some("  \t".to_string()), Some("fallback".to_string()))
            .unwrap();
    assert_eq!(decoded, b"fallback");
    let decoded = hardware_secret_from_variables(None, Some("hex:ff00".to_string())).unwrap();
    assert_eq!(decoded, vec![0xff, 0x00]);
}

#[test]
fn reports_missing_and_undecodable_variables() {
    let err = hardware_secret_from_variables(None, Some(" ".to_string())).unwrap_err();
    assert_eq!(err, LoadSecretError::NotProvided);
    assert!(err.message().starts_with("Set AXIOM_YUBIKEY_RESPONSE"));
    let err = hardware_secret_from_variables(Some("hex:zz".to_string()), None).unwrap_err();
    assert_eq!(
        err,
        LoadSecretError::Undecodable(SecretVariable::YubikeyResponse, SecretError::InvalidHexDigit('z'))
    );
    assert_eq!(err.message(), "Failed to decode AXIOM_YUBIKEY_RESPONSE");
    let err = hardware_secret_from_variables(None, Some("hex:".to_string())).unwrap_err();
    assert_eq!(
        err,
        LoadSecretError::Undecodable(SecretVariable::HardwareKeyResponse, SecretError::HexEmpty)
    );
}

#[test]
fn plaintext_secret_is_trimmed_utf8() {
    let decoded = decode_hardware_secret("\u{3000} grüße \n").unwrap();
    assert_eq!(decoded, "grüße".as_bytes());
    assert_eq!(decode_hardware_secret(" \u{a0}\t").unwrap_err(), SecretError::Empty);
}

#[test]
fn hex_secret_ignores_separators_and_accepts_both_cases() {
    assert_eq!(decode_hex_secret("DE ad_BE\tef").unwrap(), vec![0xde, 0xad, 0xbe, 0xef]);
    assert_eq!(decode_hex_secret(" _ ").unwrap_err(), SecretError::HexEmpty);
    assert_eq!(decode_hardware_secret("hex:0g").unwrap_err(), SecretError::InvalidHexDigit('g'));
    assert_eq!(
        decode_hardware_secret("hex:0g").unwrap_err().message(),
        "invalid hex digit 'g'"
    );
}

#[test]
fn hex_secret_with_non_ascii_reports_its_first_byte() {
    // 'é' is two UTF-8 bytes; the first is read as the character U+00C3.
    assert_eq!(decode_hex_secret("é").unwrap_err(), SecretError::InvalidHexDigit('\u{c3}'));
    assert_eq!(decode_hex_secret("aé").unwrap_err(), SecretError::HexOddLength);
}

#[test]
fn hex_nibble_values() {
    assert_eq!(decode_hex_nibble('0').unwrap(), 0);
    assert_eq!(decode_hex_nibble('9').unwrap(), 9);
    assert_eq!(decode_hex_nibble('a').unwrap(), 10);
    assert_eq!(decode_hex_nibble('F').unwrap(), 15);
    assert_eq!(decode_hex_nibble('x').unwrap_err(), SecretError::InvalidHexDigit('x'));
}

#[test]
fn hex_round_trip_of_all_byte_values() {
    let bytes: Vec<u8> = (0..=255u8).collect();
    let text: String = bytes.iter().map(|b| format!("{b:02x}")).collect();
    assert_eq!(decode_hardware_secret(&format!("hex:{text}")).unwrap(), bytes);
    assert_eq!(decode_hardware_secret(&format!("hex:{}", text.to_uppercase())).unwrap(), bytes);
}

#[test]
fn hex_secret_round_trip_in_both_cases() {
    let bytes: Vec<u8> = vec![0x00, 0x7f, 0xab, 0xcd, 0xef, 0xff, 0x10];
    let lower: String = bytes.iter().map(|b| format!("{b:02x}")).collect();
    let upper: String = bytes.iter().map(|b| format!("{b:02X}")).collect();
    assert_eq!(decode_hex_secret(&lower).unwrap(), bytes);
    assert_eq!(decode_hex_secret(&upper).unwrap(), bytes);
    assert_eq!(decode_hex_secret(&lower.to_uppercase()).unwrap(), bytes);
}

#[test]
fn surrounding_whitespace_does_not_change_the_secret() {
    for s in ["hex:00ff", "plain", "  hex:0a ", "\u{2003}x\u{2003}"] {
        assert_eq!(decode_hardware_secret(s), decode_hardware_secret(s.trim()));
    }
}
