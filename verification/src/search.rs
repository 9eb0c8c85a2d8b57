//! Builder for the symbol search endpoint.

use vstd::prelude::*;
use vstd::string::StringExecFns;

use crate::api::ApiClient;
use crate::client::HttpClient;

verus! {

/// Collects the parameters of a symbol search call.
pub struct SearchBuilder<'a, C: HttpClient> {
    api_client: &'a ApiClient<C>,
    keywords: &'a str,
}

impl<'a, C: HttpClient> SearchBuilder<'a, C> {
    /// The keywords searched for.
    pub closed spec fn spec_keywords(&self) -> Seq<char> {
        self.keywords@
    }

    /// Create a builder over the given client for the given keywords.
    pub fn new(api_client: &'a ApiClient<C>, keywords: &'a str) -> (r: Self)
        ensures
            r.spec_keywords() == keywords@,
    {
        Self { api_client, keywords }
    }

    /// Format the endpoint path and query string.
    pub fn create_url(&self) -> (r: String)
        ensures
            r@ == "query?function=SYMBOL_SEARCH&keywords="@ + self.spec_keywords(),
    {
        let mut url = String::from_str("query?function=SYMBOL_SEARCH&keywords=");
        url.append(self.keywords);
        url
    }
}

} // verus!
