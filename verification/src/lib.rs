//! Verified decision logic of the ZeroClaw trading system: signal
//! classification, safety gates, key and URL construction, order
//! parameter signing, campaign bookkeeping and reconnection policy.

pub mod signal;
pub mod text;
pub mod query;
pub mod orders;
pub mod campaign;
pub mod stream;
pub mod safety;
pub mod strategy;
pub mod keys;
pub mod tools;
pub mod config;
pub mod formatter;
pub mod prompt;
pub mod window;
pub mod monitor;
pub mod position;
pub mod bands;
