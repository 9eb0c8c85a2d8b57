//! Builder for the economic indicator endpoints.

use vstd::prelude::*;
use vstd::string::StringExecFns;

use crate::api::ApiClient;
use crate::client::HttpClient;

verus! {

/// Collects the parameters of an economic indicator call.
pub struct EconomicIndicatorBuilder<'a, C: HttpClient> {
    api_client: &'a ApiClient<C>,
    function: &'a str,
    interval: Option<&'a str>,
    maturity: Option<&'a str>,
}

impl<'a, C: HttpClient> EconomicIndicatorBuilder<'a, C> {
    /// The function selector of the indicator.
    pub closed spec fn spec_function(&self) -> Seq<char> {
        self.function@
    }

    /// The optional interval parameter.
    pub closed spec fn spec_interval(&self) -> Option<Seq<char>> {
        match self.interval {
            Some(i) => Some(i@),
            None => None,
        }
    }

    /// The optional maturity parameter.
    pub closed spec fn spec_maturity(&self) -> Option<Seq<char>> {
        match self.maturity {
            Some(m) => Some(m@),
            None => None,
        }
    }

    /// Create a builder over the given client for the given indicator,
    /// with no optional parameters set.
    pub fn new(api_client: &'a ApiClient<C>, function: &'a str) -> (r: Self)
        ensures
            r.spec_function() == function@,
            r.spec_interval() is None,
            r.spec_maturity() is None,
    {
        Self { api_client, function, interval: None, maturity: None }
    }

    /// Set the interval the indicator is asked for.
    pub fn interval(self, interval: &'a str) -> (r: Self)
        ensures
            r.spec_function() == self.spec_function(),
            r.spec_interval() == Some(interval@),
            r.spec_maturity() == self.spec_maturity(),
    {
        Self { interval: Some(interval), ..self }
    }

    /// Set the maturity the indicator is asked for.
    pub fn maturity(self, maturity: &'a str) -> (r: Self)
        ensures
            r.spec_function() == self.spec_function(),
            r.spec_interval() == self.spec_interval(),
            r.spec_maturity() == Some(maturity@),
    {
        Self { maturity: Some(maturity), ..self }
    }

    /// The query string this builder formats: an unset optional parameter
    /// contributes nothing at all.
    pub open spec fn spec_url(&self) -> Seq<char> {
        let base = "query?function="@ + self.spec_function();
        let with_interval = match self.spec_interval() {
            Some(i) => base + "&interval="@ + i,
            None => base,
        };
        match self.spec_maturity() {
            Some(m) => with_interval + "&maturity="@ + m,
            None => with_interval,
        }
    }

    /// Format the endpoint path and query string.
    pub fn create_url(&self) -> (r: String)
        ensures
            r@ == self.spec_url(),
    {
        let mut url = String::from_str("query?function=");
        url.append(self.function);
        if let Some(interval) = self.interval {
            url.append("&interval=");
            url.append(interval);
        }
        if let Some(maturity) = self.maturity {
            url.append("&maturity=");
            url.append(maturity);
        }
        url
    }
}

} // verus!
