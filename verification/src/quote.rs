//! Builder for the global quote endpoint.

use vstd::prelude::*;
use vstd::string::StringExecFns;

use crate::api::ApiClient;
use crate::client::HttpClient;

verus! {

/// Collects the parameters of a global quote call.
pub struct QuoteBuilder<'a, C: HttpClient> {
    api_client: &'a ApiClient<C>,
    symbol: &'a str,
}

impl<'a, C: HttpClient> QuoteBuilder<'a, C> {
    /// The symbol the quote is asked for.
    pub closed spec fn spec_symbol(&self) -> Seq<char> {
        self.symbol@
    }

    /// Create a builder over the given client for the given symbol.
    pub fn new(api_client: &'a ApiClient<C>, symbol: &'a str) -> (r: Self)
        ensures
            r.spec_symbol() == symbol@,
    {
        Self { api_client, symbol }
    }

    /// Format the endpoint path and query string.
    pub fn create_url(&self) -> (r: String)
        ensures
            r@ == "query?function=GLOBAL_QUOTE&symbol="@ + self.spec_symbol(),
    {
        let mut url = String::from_str("query?function=GLOBAL_QUOTE&symbol=");
        url.append(self.symbol);
        url
    }
}

} // verus!
