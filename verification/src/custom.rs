//! Builder for endpoints the library has no dedicated builder for: the
//! caller names the function selector and supplies every parameter as a
//! key-value pair.

use vstd::prelude::*;
use vstd::string::StringExecFns;

use crate::api::{append_params, spec_param_views, spec_params_query, ApiClient};
use crate::client::HttpClient;

verus! {

/// Collects the function selector and free-form parameters of a custom
/// call.
pub struct CustomBuilder<'a, C: HttpClient> {
    api_client: &'a ApiClient<C>,
    function: &'a str,
    extra_params: Vec<(String, String)>,
}

impl<'a, C: HttpClient> CustomBuilder<'a, C> {
    /// The function selector of the call.
    pub closed spec fn spec_function(&self) -> Seq<char> {
        self.function@
    }

    /// The extra parameters collected so far, in the order they were set.
    pub closed spec fn spec_params(&self) -> Seq<(Seq<char>, Seq<char>)> {
        spec_param_views(self.extra_params@)
    }

    /// Create a builder over the given client for the given function
    /// selector, with no parameters yet.
    pub fn new(api_client: &'a ApiClient<C>, function: &'a str) -> (r: Self)
        ensures
            r.spec_function() == function@,
            r.spec_params() == Seq::<(Seq<char>, Seq<char>)>::empty(),
    {
        let r = Self { api_client, function, extra_params: Vec::new() };
        proof {
            assert(r.spec_params() =~= Seq::<(Seq<char>, Seq<char>)>::empty());
        }
        r
    }

    /// Add one key-value parameter to the call.
    pub fn extra_param(self, key: &str, value: &str) -> (r: Self)
        ensures
            r.spec_function() == self.spec_function(),
            r.spec_params() == self.spec_params().push((key@, value@)),
    {
        let mut extra_params = self.extra_params;
        extra_params.push((String::from_str(key), String::from_str(value)));
        let r = Self { api_client: self.api_client, function: self.function, extra_params };
        proof {
            assert(r.spec_params() =~= self.spec_params().push((key@, value@)));
        }
        r
    }

    /// Format the endpoint path and query string: the function selector,
    /// then one `&key=value` pair per parameter that was set.
    pub fn create_url(&self) -> (r: String)
        ensures
            r@ == "query?function="@ + self.spec_function() + spec_params_query(
                self.spec_params(),
            ),
    {
        let mut url = String::from_str("query?function=");
        url.append(self.function);
        append_params(&mut url, &self.extra_params);
        url
    }
}

} // verus!
