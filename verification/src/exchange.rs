//! Builder for the currency exchange rate endpoint.

use vstd::prelude::*;
use vstd::string::StringExecFns;

use crate::api::ApiClient;
use crate::client::HttpClient;

verus! {

/// Collects the parameters of a currency exchange rate call.
pub struct ExchangeBuilder<'a, C: HttpClient> {
    api_client: &'a ApiClient<C>,
    from_currency: &'a str,
    to_currency: &'a str,
}

impl<'a, C: HttpClient> ExchangeBuilder<'a, C> {
    /// The currency exchanged from.
    pub closed spec fn spec_from_currency(&self) -> Seq<char> {
        self.from_currency@
    }

    /// The currency exchanged to.
    pub closed spec fn spec_to_currency(&self) -> Seq<char> {
        self.to_currency@
    }

    /// Create a builder over the given client for the given currency pair.
    pub fn new(api_client: &'a ApiClient<C>, from_currency: &'a str, to_currency: &'a str) -> (r:
        Self)
        ensures
            r.spec_from_currency() == from_currency@,
            r.spec_to_currency() == to_currency@,
    {
        Self { api_client, from_currency, to_currency }
    }

    /// Format the endpoint path and query string.
    pub fn create_url(&self) -> (r: String)
        ensures
            r@ == "query?function=CURRENCY_EXCHANGE_RATE&from_currency="@
                + self.spec_from_currency() + "&to_currency="@ + self.spec_to_currency(),
    {
        let mut url = String::from_str("query?function=CURRENCY_EXCHANGE_RATE&from_currency=");
        url.append(self.from_currency);
        url.append("&to_currency=");
        url.append(self.to_currency);
        url
    }
}

} // verus!
