//! Verified core of a trading workstation: role-based permissions,
//! password hashing, encrypted secrets, trading-account bookkeeping,
//! the algorithm editor's run/debug controls and the login flow.

pub mod roles;
pub mod text;
pub mod error;
pub mod password;
pub mod crypto;
pub mod accounts;
pub mod ide;
pub mod login;
pub mod views;
pub mod backtest;
