//! Builder for the technical indicator endpoints.

use vstd::prelude::*;
use vstd::string::StringExecFns;

use crate::api::{append_params, spec_param_views, spec_params_query, ApiClient};
use crate::client::HttpClient;
use crate::text::{push_u64, spec_u64_string};

verus! {

/// Interval between two points of a technical indicator series.
#[derive(Clone, Copy, PartialEq, Eq, Structural)]
pub enum TechnicalIndicatorInterval {
    /// One-minute interval.
    OneMin,
    /// Five-minute interval.
    FiveMin,
    /// Fifteen-minute interval.
    FifteenMin,
    /// Thirty-minute interval.
    ThirtyMin,
    /// Sixty-minute interval.
    SixtyMin,
    /// Daily interval.
    Daily,
    /// Weekly interval.
    Weekly,
    /// Monthly interval.
    Monthly,
}

/// The query-string token of a technical indicator interval.
pub open spec fn spec_ti_interval_token(i: TechnicalIndicatorInterval) -> Seq<char> {
    match i {
        TechnicalIndicatorInterval::OneMin => "1min"@,
        TechnicalIndicatorInterval::FiveMin => "5min"@,
        TechnicalIndicatorInterval::FifteenMin => "15min"@,
        TechnicalIndicatorInterval::ThirtyMin => "30min"@,
        TechnicalIndicatorInterval::SixtyMin => "60min"@,
        TechnicalIndicatorInterval::Daily => "daily"@,
        TechnicalIndicatorInterval::Weekly => "weekly"@,
        TechnicalIndicatorInterval::Monthly => "monthly"@,
    }
}

/// Format a technical indicator interval as its query-string token.
pub fn ti_interval_token(i: &TechnicalIndicatorInterval) -> (r: &'static str)
    ensures
        r@ == spec_ti_interval_token(*i),
{
    match i {
        TechnicalIndicatorInterval::OneMin => "1min",
        TechnicalIndicatorInterval::FiveMin => "5min",
        TechnicalIndicatorInterval::FifteenMin => "15min",
        TechnicalIndicatorInterval::ThirtyMin => "30min",
        TechnicalIndicatorInterval::SixtyMin => "60min",
        TechnicalIndicatorInterval::Daily => "daily",
        TechnicalIndicatorInterval::Weekly => "weekly",
        TechnicalIndicatorInterval::Monthly => "monthly",
    }
}

/// Collects the parameters of a technical indicator call.
pub struct TechnicalIndicatorBuilder<'a, C: HttpClient> {
    api_client: &'a ApiClient<C>,
    function: &'a str,
    symbol: &'a str,
    interval: TechnicalIndicatorInterval,
    time_period: Option<u64>,
    series_type: Option<&'a str>,
    extra_params: Vec<(String, String)>,
}

impl<'a, C: HttpClient> TechnicalIndicatorBuilder<'a, C> {
    /// The indicator's function selector.
    pub closed spec fn spec_function(&self) -> Seq<char> {
        self.function@
    }

    /// The symbol the indicator is computed for.
    pub closed spec fn spec_symbol(&self) -> Seq<char> {
        self.symbol@
    }

    /// The interval between two points.
    pub closed spec fn spec_interval(&self) -> TechnicalIndicatorInterval {
        self.interval
    }

    /// The optional number of points each value is computed from.
    pub closed spec fn spec_time_period(&self) -> Option<u64> {
        self.time_period
    }

    /// The optional price series the indicator is computed on.
    pub closed spec fn spec_series_type(&self) -> Option<Seq<char>> {
        match self.series_type {
            Some(s) => Some(s@),
            None => None,
        }
    }

    /// The extra indicator-specific parameters, in the order they were
    /// set.
    pub closed spec fn spec_extra_params(&self) -> Seq<(Seq<char>, Seq<char>)> {
        spec_param_views(self.extra_params@)
    }

    /// Create a builder over the given client for the given indicator,
    /// symbol and interval, with no optional parameters set.
    pub fn new(
        api_client: &'a ApiClient<C>,
        function: &'a str,
        symbol: &'a str,
        interval: TechnicalIndicatorInterval,
    ) -> (r: Self)
        ensures
            r.spec_function() == function@,
            r.spec_symbol() == symbol@,
            r.spec_interval() == interval,
            r.spec_time_period() is None,
            r.spec_series_type() is None,
            r.spec_extra_params() == Seq::<(Seq<char>, Seq<char>)>::empty(),
    {
        let r = Self {
            api_client,
            function,
            symbol,
            interval,
            time_period: None,
            series_type: None,
            extra_params: Vec::new(),
        };
        proof {
            assert(r.spec_extra_params() =~= Seq::<(Seq<char>, Seq<char>)>::empty());
        }
        r
    }

    /// Set the number of points each indicator value is computed from.
    pub fn time_period(self, time_period: u64) -> (r: Self)
        ensures
            r.spec_function() == self.spec_function(),
            r.spec_symbol() == self.spec_symbol(),
            r.spec_interval() == self.spec_interval(),
            r.spec_time_period() == Some(time_period),
            r.spec_series_type() == self.spec_series_type(),
            r.spec_extra_params() == self.spec_extra_params(),
    {
        Self { time_period: Some(time_period), ..self }
    }

    /// Set the price series the indicator is computed on.
    pub fn series_type(self, series_type: &'a str) -> (r: Self)
        ensures
            r.spec_function() == self.spec_function(),
            r.spec_symbol() == self.spec_symbol(),
            r.spec_interval() == self.spec_interval(),
            r.spec_time_period() == self.spec_time_period(),
            r.spec_series_type() == Some(series_type@),
            r.spec_extra_params() == self.spec_extra_params(),
    {
        Self { series_type: Some(series_type), ..self }
    }

    /// Add one indicator-specific key-value parameter.
    pub fn extra_param(self, key: &str, value: &str) -> (r: Self)
        ensures
            r.spec_function() == self.spec_function(),
            r.spec_symbol() == self.spec_symbol(),
            r.spec_interval() == self.spec_interval(),
            r.spec_time_period() == self.spec_time_period(),
            r.spec_series_type() == self.spec_series_type(),
            r.spec_extra_params() == self.spec_extra_params().push((key@, value@)),
    {
        let mut extra_params = self.extra_params;
        extra_params.push((String::from_str(key), String::from_str(value)));
        let r = Self {
            api_client: self.api_client,
            function: self.function,
            symbol: self.symbol,
            interval: self.interval,
            time_period: self.time_period,
            series_type: self.series_type,
            extra_params,
        };
        proof {
            assert(r.spec_extra_params() =~= self.spec_extra_params().push((key@, value@)));
        }
        r
    }

    /// The query string this builder formats: an unset optional parameter
    /// contributes nothing at all.
    pub open spec fn spec_url(&self) -> Seq<char> {
        let base = "query?function="@ + self.spec_function() + "&symbol="@ + self.spec_symbol()
            + "&interval="@ + spec_ti_interval_token(self.spec_interval());
        let with_period = match self.spec_time_period() {
            Some(n) => base + "&time_period="@ + spec_u64_string(n),
            None => base,
        };
        let with_series = match self.spec_series_type() {
            Some(s) => with_period + "&series_type="@ + s,
            None => with_period,
        };
        with_series + spec_params_query(self.spec_extra_params())
    }

    /// Format the endpoint path and query string.
    pub fn create_url(&self) -> (r: String)
        ensures
            r@ == self.spec_url(),
    {
        let mut url = String::from_str("query?function=");
        url.append(self.function);
        url.append("&symbol=");
        url.append(self.symbol);
        url.append("&interval=");
        url.append(ti_interval_token(&self.interval));
        if let Some(time_period) = &self.time_period {
            url.append("&time_period=");
            push_u64(&mut url, *time_period);
        }
        if let Some(series_type) = &self.series_type {
            url.append("&series_type=");
            url.append(series_type);
        }
        append_params(&mut url, &self.extra_params);
        url
    }
}

} // verus!
