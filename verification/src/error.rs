use vstd::prelude::*;
use crate::text::join2;

verus! {

/// `std::io::Error`, carried opaquely by [`AppError::IoError`].
#[verifier::external_type_specification]
#[verifier::external_body]
pub struct ExIoError(std::io::Error);

/// Everything that can go wrong in the application.
#[derive(Debug)]
pub enum AppError {
    /// Configuration file or settings error.
    ConfigError(String),
    /// Login or authentication error.
    AuthError(String),
    /// Database connection or query error.
    DatabaseError(String),
    /// File or other I/O error.
    IoError(std::io::Error),
    /// Encryption or decryption error.
    EncryptionError(String),
    /// Market data feed error.
    MarketDataError(String),
    /// Interactive Brokers API error.
    IbkrError(String),
    /// Alert system error.
    AlertError(String),
    /// Backtesting engine error.
    BacktestError(String),
    /// Any other error.
    Other(String),
}

/// The fixed text that introduces the message of each kind of error.
pub open spec fn error_heading(e: AppError) -> Seq<char> {
    match e {
        AppError::ConfigError(_) => "Configuration error: "@,
        AppError::AuthError(_) => "Authentication error: "@,
        AppError::DatabaseError(_) => "Database error: "@,
        AppError::IoError(_) => "IO error: "@,
        AppError::EncryptionError(_) => "Encryption error: "@,
        AppError::MarketDataError(_) => "Market data error: "@,
        AppError::IbkrError(_) => "IBKR error: "@,
        AppError::AlertError(_) => "Alert error: "@,
        AppError::BacktestError(_) => "Backtest error: "@,
        AppError::Other(_) => "Other error: "@,
    }
}

/// The detail text that a kind of error carries as a string, if it carries one.
pub open spec fn error_detail(e: AppError) -> Option<Seq<char>> {
    match e {
        AppError::ConfigError(s) => Some(s@),
        AppError::AuthError(s) => Some(s@),
        AppError::DatabaseError(s) => Some(s@),
        AppError::IoError(_) => None,
        AppError::EncryptionError(s) => Some(s@),
        AppError::MarketDataError(s) => Some(s@),
        AppError::IbkrError(s) => Some(s@),
        AppError::AlertError(s) => Some(s@),
        AppError::BacktestError(s) => Some(s@),
        AppError::Other(s) => Some(s@),
    }
}

/// The display text of an I/O error (`format!("{}", e)`); nothing is
/// claimed of its contents.
#[verifier::external_body]
fn io_error_text(e: &std::io::Error) -> String {
    format!("{}", e)
}

impl AppError {
    /// The message that describes the error: its heading followed by its detail.
    pub fn describe(&self) -> (r: String)
        ensures
            r@.len() >= error_heading(*self).len(),
            r@.subrange(0, error_heading(*self).len() as int) == error_heading(*self),
            error_detail(*self) matches Some(d) ==> r@ == error_heading(*self) + d,
    {
        let r = match self {
            AppError::ConfigError(s) => join2("Configuration error: ", s.as_str()),
            AppError::AuthError(s) => join2("Authentication error: ", s.as_str()),
            AppError::DatabaseError(s) => join2("Database error: ", s.as_str()),
            AppError::IoError(e) => {
                let detail = io_error_text(e);
                join2("IO error: ", detail.as_str())
            },
            AppError::EncryptionError(s) => join2("Encryption error: ", s.as_str()),
            AppError::MarketDataError(s) => join2("Market data error: ", s.as_str()),
            AppError::IbkrError(s) => join2("IBKR error: ", s.as_str()),
            AppError::AlertError(s) => join2("Alert error: ", s.as_str()),
            AppError::BacktestError(s) => join2("Backtest error: ", s.as_str()),
            AppError::Other(s) => join2("Other error: ", s.as_str()),
        };
        proof {
            assert(r@.subrange(0, error_heading(*self).len() as int) =~= error_heading(*self));
        }
        r
    }
}

} // verus!
