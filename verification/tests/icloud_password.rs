use axiomvault_cli::icloud::{build_icloud_config, normalize_subfolder};
use axiomvault_cli::password::{
    check_new_password, password_from_environment, recovery_word_lines_of,
    validate_password_strength, PasswordError,
};

#[test]
fn build_icloud_config_trims_empty_subfolder() {
    let config = build_icloud_config(Some("/tmp/icloud".to_string()), Some(" "));
    assert_eq!(config.root_path.as_deref(), Some("/tmp/icloud"));
    assert_eq!(config.subfolder, None);
}

#[test]
fn normalize_subfolder_trims() {
    assert_eq!(normalize_subfolder(Some("  AxiomVault \t")), Some("AxiomVault".to_string()));
    assert_eq!(normalize_subfolder(None), None);
    assert_eq!(normalize_subfolder(Some("")), None);
}

#[test]
fn password_rules() {
    assert_eq!(validate_password_strength(b"1234567").unwrap_err(), PasswordError::TooShort);
    assert!(validate_password_strength(b"12345678").is_ok());
    assert_eq!(check_new_password(b"abcdefgh", b"abcdefgi").unwrap_err(), PasswordError::Mismatch);
    assert_eq!(check_new_password(b"short", b"short").unwrap_err(), PasswordError::TooShort);
    assert!(check_new_password(b"long enough", b"long enough").is_ok());
    assert_eq!(
        PasswordError::TooShort.message(),
        "Password must be at least 8 characters"
    );
}

#[test]
fn password_from_environment_ignores_empty() {
    assert_eq!(password_from_environment(None), None);
    assert_eq!(password_from_environment(Some(String::new())), None);
    assert_eq!(password_from_environment(Some("pw".to_string())), Some(b"pw".to_vec()));
}

#[test]
fn recovery_words_are_numbered() {
    let words: Vec<String> = (1..=24).map(|i| format!("w{i}")).collect();
    let lines = recovery_word_lines_of(&words.join("  "));
    assert_eq!(lines.len(), 24);
    for (i, word) in words.iter().enumerate() {
        assert_eq!(lines[i], format!("  {:>2}. {}", i + 1, word));
    }
}

#[test]
fn normalizing_twice_changes_nothing() {
    for s in [" a ", "", "  ", "x y", "\u{a0}z"] {
        let once = normalize_subfolder(Some(s));
        assert_eq!(normalize_subfolder(once.as_deref()), once);
    }
}
