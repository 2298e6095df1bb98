use freqtrade_rs::error::AppError;
use freqtrade_rs::text::{i64_text, is_whitespace, same_text, trim, u64_text};

#[test]
fn integers_as_digits() {
    assert_eq!(u64_text(0), "0");
    assert_eq!(u64_text(7), "7");
    assert_eq!(u64_text(1440), "1440");
    assert_eq!(u64_text(u64::MAX), "18446744073709551615");
    assert_eq!(i64_text(-60), "-60");
    assert_eq!(i64_text(i64::MIN), "-9223372036854775808");
    assert_eq!(i64_text(i64::MAX), "9223372036854775807");
}

#[test]
fn trim_removes_white_space_at_both_ends() {
    assert_eq!(trim("  BTC/USDT \t\n"), "BTC/USDT");
    assert_eq!(trim("BTC/USDT"), "BTC/USDT");
    assert_eq!(trim("   "), "");
    assert_eq!(trim(""), "");
    assert_eq!(trim(" a b "), "a b");
    assert_eq!(trim("\u{3000}x\u{a0}"), "x");
}

#[test]
fn white_space_is_that_of_unicode() {
    for c in ['\t', '\n', '\r', ' ', '\u{85}', '\u{a0}', '\u{1680}', '\u{2003}', '\u{2028}', '\u{3000}'] {
        assert!(is_whitespace(c));
        assert!(c.is_whitespace());
    }
    for c in ['a', '/', '0', '\u{200b}', '_'] {
        assert!(!is_whitespace(c));
        assert!(!c.is_whitespace());
    }
}

#[test]
fn same_text_compares_characters() {
    assert!(same_text("1m", "1m"));
    assert!(!same_text("1m", "1M"));
    assert!(!same_text("1m", "15m"));
}

#[test]
fn every_error_kind_has_its_words() {
    let cases = [
        (AppError::Config("x".to_string()), "Configuration error: x"),
        (AppError::Database("x".to_string()), "Database error: x"),
        (AppError::Exchange("x".to_string()), "Exchange error: x"),
        (AppError::Strategy("x".to_string()), "Strategy error: x"),
        (AppError::Backtest("x".to_string()), "Backtest error: x"),
        (AppError::Bot("x".to_string()), "Trading bot error: x"),
        (AppError::Network("x".to_string()), "Network error: x"),
        (AppError::Io("x".to_string()), "IO error: x"),
        (AppError::Parse("x".to_string()), "Parse error: x"),
        (AppError::NotFound("x".to_string()), "Not found: x"),
        (AppError::InvalidInput("x".to_string()), "Invalid input: x"),
        (AppError::WebSocket("x".to_string()), "WebSocket error: x"),
        (AppError::Serialization("x".to_string()), "Serialization error: x"),
        (AppError::Decimal("x".to_string()), "Decimal error: x"),
        (AppError::Custom("x".to_string()), "Custom error: x"),
        (AppError::NotImplemented("x".to_string()), "Not implemented: x"),
    ];
    for (error, text) in cases {
        assert_eq!(error.describe(), text);
        assert_eq!(error.message(), "x");
    }
}
