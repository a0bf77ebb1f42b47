use axiomvault_cli::text::{decimal_string, split_whitespace_str, trim_str, white_space};

#[test]
fn white_space_agrees_with_std() {
    for c in (0u32..=0x10ffff).filter_map(char::from_u32) {
        assert_eq!(white_space(c), c.is_whitespace(), "{:?}", c);
    }
}

#[test]
fn trim_agrees_with_std() {
    for s in ["", "  ", " a ", "\u{2028}x y\u{3000}", "a", "\t\nab\r\n"] {
        assert_eq!(trim_str(s), s.trim());
    }
}

#[test]
fn split_whitespace_agrees_with_std() {
    for s in ["", "  ", "one two  three", " \u{a0}lead and trail\t", "x"] {
        let expected: Vec<String> = s.split_whitespace().map(str::to_string).collect();
        assert_eq!(split_whitespace_str(s), expected);
    }
}

#[test]
fn decimal_agrees_with_display() {
    for n in [0u128, 7, 10, 99, 100, 4096, u64::MAX as u128, u128::MAX] {
        assert_eq!(decimal_string(n), n.to_string());
    }
}
