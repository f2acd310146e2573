//! Client core for a public earthquake early-warning data feed.
//!
//! The feed publishes reports keyed by compact wall-clock identifiers with a
//! roughly constant publication lag.  This crate holds the verified core of a
//! client for it: estimating that lag from the feed's reference endpoint,
//! predicting report identifiers from the lag, and decoding the feed's
//! loosely typed JSON payloads into strongly typed records.

pub mod client;
pub mod decimal;
pub mod json;
pub mod record;
pub mod text;
pub mod timestamp;

pub use client::KMoniClient;
pub use client::LatestDataTimeResponse;
pub use record::DecodeError;
pub use record::EEW;
pub use record::EEWOnlyResult;
pub use record::ResultRawResponse;
