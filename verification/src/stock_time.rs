//! Builder for the stock time series endpoints.

use vstd::prelude::*;
use vstd::string::StringExecFns;

use crate::api::{
    interval_token, output_size_token, spec_interval_token, spec_output_size_token, ApiClient,
    OutputSize, TimeSeriesInterval,
};
use crate::client::HttpClient;

verus! {

/// The stock time series to ask for.
#[derive(Clone, Copy, PartialEq, Eq, Structural)]
pub enum StockFunction {
    /// Intraday series; an interval must accompany it.
    IntraDay,
    /// Daily series.
    Daily,
    /// Daily series adjusted for splits and dividends.
    DailyAdjusted,
    /// Weekly series.
    Weekly,
    /// Weekly series adjusted for splits and dividends.
    WeeklyAdjusted,
    /// Monthly series.
    Monthly,
    /// Monthly series adjusted for splits and dividends.
    MonthlyAdjusted,
}

/// The function-selector token of a stock series.
pub open spec fn spec_stock_token(f: StockFunction) -> Seq<char> {
    match f {
        StockFunction::IntraDay => "TIME_SERIES_INTRADAY"@,
        StockFunction::Daily => "TIME_SERIES_DAILY"@,
        StockFunction::DailyAdjusted => "TIME_SERIES_DAILY_ADJUSTED"@,
        StockFunction::Weekly => "TIME_SERIES_WEEKLY"@,
        StockFunction::WeeklyAdjusted => "TIME_SERIES_WEEKLY_ADJUSTED"@,
        StockFunction::Monthly => "TIME_SERIES_MONTHLY"@,
        StockFunction::MonthlyAdjusted => "TIME_SERIES_MONTHLY_ADJUSTED"@,
    }
}

/// Format a stock series as its function-selector token.
pub fn stock_token(f: &StockFunction) -> (r: &'static str)
    ensures
        r@ == spec_stock_token(*f),
{
    match f {
        StockFunction::IntraDay => "TIME_SERIES_INTRADAY",
        StockFunction::Daily => "TIME_SERIES_DAILY",
        StockFunction::DailyAdjusted => "TIME_SERIES_DAILY_ADJUSTED",
        StockFunction::Weekly => "TIME_SERIES_WEEKLY",
        StockFunction::WeeklyAdjusted => "TIME_SERIES_WEEKLY_ADJUSTED",
        StockFunction::Monthly => "TIME_SERIES_MONTHLY",
        StockFunction::MonthlyAdjusted => "TIME_SERIES_MONTHLY_ADJUSTED",
    }
}

/// Collects the parameters of a stock time series call.
pub struct TimeSeriesBuilder<'a, C: HttpClient> {
    api_client: &'a ApiClient<C>,
    function: StockFunction,
    symbol: &'a str,
    interval: Option<TimeSeriesInterval>,
    output_size: Option<OutputSize>,
}

impl<'a, C: HttpClient> TimeSeriesBuilder<'a, C> {
    /// The series asked for.
    pub closed spec fn spec_function(&self) -> StockFunction {
        self.function
    }

    /// The stock symbol.
    pub closed spec fn spec_symbol(&self) -> Seq<char> {
        self.symbol@
    }

    /// The optional intraday interval.
    pub closed spec fn spec_interval(&self) -> Option<TimeSeriesInterval> {
        self.interval
    }

    /// The optional output size.
    pub closed spec fn spec_output_size(&self) -> Option<OutputSize> {
        self.output_size
    }

    /// Create a builder over the given client for the given series and
    /// symbol, with no optional parameters set.
    pub fn new(api_client: &'a ApiClient<C>, function: StockFunction, symbol: &'a str) -> (r: Self)
        ensures
            r.spec_function() == function,
            r.spec_symbol() == symbol@,
            r.spec_interval() is None,
            r.spec_output_size() is None,
    {
        Self { api_client, function, symbol, interval: None, output_size: None }
    }

    /// Set the interval between two intraday points.
    pub fn interval(self, interval: TimeSeriesInterval) -> (r: Self)
        ensures
            r.spec_function() == self.spec_function(),
            r.spec_symbol() == self.spec_symbol(),
            r.spec_interval() == Some(interval),
            r.spec_output_size() == self.spec_output_size(),
    {
        Self { interval: Some(interval), ..self }
    }

    /// Set the output size of the series.
    pub fn output_size(self, output_size: OutputSize) -> (r: Self)
        ensures
            r.spec_function() == self.spec_function(),
            r.spec_symbol() == self.spec_symbol(),
            r.spec_interval() == self.spec_interval(),
            r.spec_output_size() == Some(output_size),
    {
        Self { output_size: Some(output_size), ..self }
    }

    /// The query string this builder formats: an unset optional parameter
    /// contributes nothing at all.
    pub open spec fn spec_url(&self) -> Seq<char> {
        let base = "query?function="@ + spec_stock_token(self.spec_function()) + "&symbol="@
            + self.spec_symbol();
        let with_interval = match self.spec_interval() {
            Some(i) => base + "&interval="@ + spec_interval_token(i),
            None => base,
        };
        match self.spec_output_size() {
            Some(o) => with_interval + "&outputsize="@ + spec_output_size_token(o),
            None => with_interval,
        }
    }

    /// Format the endpoint path and query string.
    pub fn create_url(&self) -> (r: String)
        ensures
            r@ == self.spec_url(),
    {
        let mut url = String::from_str("query?function=");
        url.append(stock_token(&self.function));
        url.append("&symbol=");
        url.append(self.symbol);
        if let Some(interval) = &self.interval {
            url.append("&interval=");
            url.append(interval_token(interval));
        }
        if let Some(output_size) = &self.output_size {
            url.append("&outputsize=");
            url.append(output_size_token(output_size));
        }
        url
    }
}

/// With no optional parameters set, the formatted query string is exactly
/// the required part: the keys of the unset parameters do not appear in
/// it, with an empty value or otherwise.
pub proof fn lemma_unset_optionals_omitted<'a, C: HttpClient>(b: TimeSeriesBuilder<'a, C>)
    requires
        b.spec_interval() is None,
        b.spec_output_size() is None,
    ensures
        b.spec_url() == "query?function="@ + spec_stock_token(b.spec_function()) + "&symbol="@
            + b.spec_symbol(),
{
}

} // verus!
