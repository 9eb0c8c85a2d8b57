//! Builder for the forex time series endpoints.

use vstd::prelude::*;
use vstd::string::StringExecFns;

use crate::api::{
    interval_token, output_size_token, spec_interval_token, spec_output_size_token, ApiClient,
    OutputSize, TimeSeriesInterval,
};
use crate::client::HttpClient;

verus! {

/// The forex time series to ask for.
#[derive(Clone, Copy, PartialEq, Eq, Structural)]
pub enum ForexFunction {
    /// Intraday series; an interval must accompany it.
    IntraDay,
    /// Daily series.
    Daily,
    /// Weekly series.
    Weekly,
    /// Monthly series.
    Monthly,
}

/// The function-selector token of a forex series.
pub open spec fn spec_forex_token(f: ForexFunction) -> Seq<char> {
    match f {
        ForexFunction::IntraDay => "FX_INTRADAY"@,
        ForexFunction::Daily => "FX_DAILY"@,
        ForexFunction::Weekly => "FX_WEEKLY"@,
        ForexFunction::Monthly => "FX_MONTHLY"@,
    }
}

/// Format a forex series as its function-selector token.
pub fn forex_token(f: &ForexFunction) -> (r: &'static str)
    ensures
        r@ == spec_forex_token(*f),
{
    match f {
        ForexFunction::IntraDay => "FX_INTRADAY",
        ForexFunction::Daily => "FX_DAILY",
        ForexFunction::Weekly => "FX_WEEKLY",
        ForexFunction::Monthly => "FX_MONTHLY",
    }
}

/// Collects the parameters of a forex time series call.
pub struct ForexBuilder<'a, C: HttpClient> {
    api_client: &'a ApiClient<C>,
    function: ForexFunction,
    from_symbol: &'a str,
    to_symbol: &'a str,
    interval: Option<TimeSeriesInterval>,
    output_size: Option<OutputSize>,
}

impl<'a, C: HttpClient> ForexBuilder<'a, C> {
    /// The series asked for.
    pub closed spec fn spec_function(&self) -> ForexFunction {
        self.function
    }

    /// The currency exchanged from.
    pub closed spec fn spec_from_symbol(&self) -> Seq<char> {
        self.from_symbol@
    }

    /// The currency exchanged to.
    pub closed spec fn spec_to_symbol(&self) -> Seq<char> {
        self.to_symbol@
    }

    /// The optional intraday interval.
    pub closed spec fn spec_interval(&self) -> Option<TimeSeriesInterval> {
        self.interval
    }

    /// The optional output size.
    pub closed spec fn spec_output_size(&self) -> Option<OutputSize> {
        self.output_size
    }

    /// Create a builder over the given client for the given series and
    /// currency pair, with no optional parameters set.
    pub fn new(
        api_client: &'a ApiClient<C>,
        function: ForexFunction,
        from_symbol: &'a str,
        to_symbol: &'a str,
    ) -> (r: Self)
        ensures
            r.spec_function() == function,
            r.spec_from_symbol() == from_symbol@,
            r.spec_to_symbol() == to_symbol@,
            r.spec_interval() is None,
            r.spec_output_size() is None,
    {
        Self { api_client, function, from_symbol, to_symbol, interval: None, output_size: None }
    }

    /// Set the interval between two intraday points.
    pub fn interval(self, interval: TimeSeriesInterval) -> (r: Self)
        ensures
            r.spec_function() == self.spec_function(),
            r.spec_from_symbol() == self.spec_from_symbol(),
            r.spec_to_symbol() == self.spec_to_symbol(),
            r.spec_interval() == Some(interval),
            r.spec_output_size() == self.spec_output_size(),
    {
        Self { interval: Some(interval), ..self }
    }

    /// Set the output size of the series.
    pub fn output_size(self, output_size: OutputSize) -> (r: Self)
        ensures
            r.spec_function() == self.spec_function(),
            r.spec_from_symbol() == self.spec_from_symbol(),
            r.spec_to_symbol() == self.spec_to_symbol(),
            r.spec_interval() == self.spec_interval(),
            r.spec_output_size() == Some(output_size),
    {
        Self { output_size: Some(output_size), ..self }
    }

    /// The query string this builder formats: an unset optional parameter
    /// contributes nothing at all.
    pub open spec fn spec_url(&self) -> Seq<char> {
        let base = "query?function="@ + spec_forex_token(self.spec_function()) + "&from_symbol="@
            + self.spec_from_symbol() + "&to_symbol="@ + self.spec_to_symbol();
        let with_interval = match self.spec_interval() {
            Some(i) => base + "&interval="@ + spec_interval_token(i),
            None => base,
        };
        match self.spec_output_size() {
            Some(o) => with_interval + "&outputsize="@ + spec_output_size_token(o),
            None => with_interval,
        }
    }

    /// Format the endpoint path and query string.
    pub fn create_url(&self) -> (r: String)
        ensures
            r@ == self.spec_url(),
    {
        let mut url = String::from_str("query?function=");
        url.append(forex_token(&self.function));
        url.append("&from_symbol=");
        url.append(self.from_symbol);
        url.append("&to_symbol=");
        url.append(self.to_symbol);
        if let Some(interval) = &self.interval {
            url.append("&interval=");
            url.append(interval_token(interval));
        }
        if let Some(output_size) = &self.output_size {
            url.append("&outputsize=");
            url.append(output_size_token(output_size));
        }
        url
    }
}

} // verus!
