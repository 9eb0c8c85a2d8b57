//! The pluggable transport abstraction. The library never performs I/O
//! itself: every endpoint call goes through an implementation of
//! [`HttpClient`] supplied by the caller, which performs one GET request
//! and hands back the raw body text.

use vstd::prelude::*;

use crate::error::Error;

verus! {

/// Trait to be implemented for an HTTP client so that the library can
/// fetch through it. Nothing is promised of the text a transport hands
/// back: every decision the library takes on it is made — and verified —
/// downstream, whatever the transport returned.
pub trait HttpClient {
    /// Perform a GET request against the given URL (the direct provider:
    /// the API key is already part of the query string) and return the
    /// response body text, or the transport error.
    fn get_alpha_vantage_provider_output(&self, path: &str) -> Result<String, Error>;

    /// Perform a GET request against the given URL for the proxied
    /// provider: the API key must be sent as the `x-rapidapi-key` header,
    /// alongside an `x-rapidapi-host` header naming the provider's host.
    /// Returns the response body text, or the transport error.
    fn get_rapid_api_provider_output(&self, path: &str, api_key: &str) -> Result<String, Error>;
}

} // verus!
