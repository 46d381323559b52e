//! A client library for a usage-based billing service: credential
//! resolution and persistence, authenticated-request construction and
//! response classification, and the interactive dashboard's state machine.

pub mod client;
pub mod credentials;
pub mod dashboard;
pub mod jsonval;
pub mod models;
pub mod output;
pub mod payload;
pub mod store;
pub mod strutil;

pub use credentials::Credentials;
