//! Client library for a financial market data web API.
//!
//! The library builds query-parameter URLs for the provider's endpoints,
//! hands them to a pluggable transport, and decodes the JSON bodies that
//! come back, normalizing the provider's error conventions into typed
//! errors.

pub mod api;
pub mod client;
pub mod crypto;
pub mod custom;
pub mod decimal;
pub mod decode;
pub mod earning;
pub mod economic_indicator;
pub mod error;
pub mod exchange;
pub mod forex;
pub mod json;
pub mod quote;
pub mod search;
pub mod stock_time;
pub mod technical_indicator;
pub mod text;
pub mod user;

pub use error::{detect_common_helper_error, Error};
