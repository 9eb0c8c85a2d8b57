//! Builder for the earnings endpoint.

use vstd::prelude::*;
use vstd::string::StringExecFns;

use crate::api::ApiClient;
use crate::client::HttpClient;

verus! {

/// Collects the parameters of an earnings call.
pub struct EarningBuilder<'a, C: HttpClient> {
    api_client: &'a ApiClient<C>,
    symbol: &'a str,
}

impl<'a, C: HttpClient> EarningBuilder<'a, C> {
    /// The symbol the earnings are asked for.
    pub closed spec fn spec_symbol(&self) -> Seq<char> {
        self.symbol@
    }

    /// Create a builder over the given client for the given symbol.
    pub fn new(api_client: &'a ApiClient<C>, symbol: &'a str) -> (r: Self)
        ensures
            r.spec_symbol() == symbol@,
    {
        Self { api_client, symbol }
    }

    /// Format the endpoint path and query string.
    pub fn create_url(&self) -> (r: String)
        ensures
            r@ == "query?function=EARNINGS&symbol="@ + self.spec_symbol(),
    {
        let mut url = String::from_str("query?function=EARNINGS&symbol=");
        url.append(self.symbol);
        url
    }
}

} // verus!
