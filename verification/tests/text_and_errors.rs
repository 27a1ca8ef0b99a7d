use trading_engine::error::AppError;
use trading_engine::text::{decimal_text, decimal_text_u64, join2, join3, same_text};

#[test]
fn decimal_spelling() {
    assert_eq!(decimal_text(0), "0");
    assert_eq!(decimal_text(7), "7");
    assert_eq!(decimal_text(10), "10");
    assert_eq!(decimal_text(907), "907");
    assert_eq!(decimal_text(usize::MAX), usize::MAX.to_string());
    assert_eq!(decimal_text_u64(u64::MAX), "18446744073709551615");
}

#[test]
fn text_comparison_and_joining() {
    assert!(same_text("abc", "abc"));
    assert!(!same_text("abc", "abd"));
    assert!(!same_text("abc", "ab"));
    assert!(same_text("", ""));
    assert!(same_text("héllo", "héllo"));
    assert_eq!(join2("a", "bc"), "abc");
    assert_eq!(join3("<", "x", ">"), "<x>");
}

#[test]
fn error_descriptions() {
    assert_eq!(AppError::ConfigError("bad".to_string()).describe(), "Configuration error: bad");
    assert_eq!(AppError::AuthError("no".to_string()).describe(), "Authentication error: no");
    assert_eq!(AppError::DatabaseError("down".to_string()).describe(), "Database error: down");
    assert_eq!(AppError::EncryptionError("k".to_string()).describe(), "Encryption error: k");
    assert_eq!(AppError::MarketDataError("m".to_string()).describe(), "Market data error: m");
    assert_eq!(AppError::IbkrError("i".to_string()).describe(), "IBKR error: i");
    assert_eq!(AppError::AlertError("a".to_string()).describe(), "Alert error: a");
    assert_eq!(AppError::BacktestError("b".to_string()).describe(), "Backtest error: b");
    assert_eq!(AppError::Other("o".to_string()).describe(), "Other error: o");
    let io = std::io::Error::new(std::io::ErrorKind::Other, "disk full");
    assert_eq!(AppError::IoError(io).describe(), "IO error: disk full");
}
