//! The top-level client: holds the caller's credentials, the transport,
//! and the provider selection, and hands out one builder per endpoint.

use vstd::prelude::*;
use vstd::string::StringExecFns;

use crate::client::HttpClient;
use crate::crypto::{CryptoBuilder, CryptoFunction};
use crate::custom::CustomBuilder;
use crate::earning::EarningBuilder;
use crate::economic_indicator::EconomicIndicatorBuilder;
use crate::error::Error;
use crate::exchange::ExchangeBuilder;
use crate::forex::{ForexBuilder, ForexFunction};
use crate::quote::QuoteBuilder;
use crate::search::SearchBuilder;
use crate::stock_time::{StockFunction, TimeSeriesBuilder};
use crate::technical_indicator::{TechnicalIndicatorBuilder, TechnicalIndicatorInterval};

verus! {

/// Provider of the market data API.
pub enum Provider {
    /// Call the provider's own host, with the API key as a query
    /// parameter.
    AlphaVantage,
    /// Call the provider through the proxy host, with the API key as a
    /// header.
    RapidAPI,
}

/// The client: credentials, transport and provider, immutable once
/// constructed, shared by every builder created from it.
pub struct ApiClient<C: HttpClient> {
    api: String,
    client: C,
    provider: Provider,
}

impl<C: HttpClient> ApiClient<C> {
    /// The API key held by the client.
    pub closed spec fn spec_api_key(&self) -> Seq<char> {
        self.api@
    }

    /// Whether the client calls through the proxied provider.
    pub closed spec fn spec_is_rapid(&self) -> bool {
        self.provider is RapidAPI
    }

    /// Initialize a client that calls the provider's own host with the
    /// given API key, fetching through the given transport.
    pub fn set_api(api: &str, client: C) -> (r: Self)
        ensures
            r.spec_api_key() == api@,
            !r.spec_is_rapid(),
    {
        Self { api: String::from_str(api), client, provider: Provider::AlphaVantage }
    }

    /// Initialize a client that calls through the proxy host with the
    /// given API key, fetching through the given transport.
    pub fn set_rapid_api(api: &str, client: C) -> (r: Self)
        ensures
            r.spec_api_key() == api@,
            r.spec_is_rapid(),
    {
        Self { api: String::from_str(api), client, provider: Provider::RapidAPI }
    }

    /// Return the API key the client was initialized with.
    pub fn get_api_key(&self) -> (r: &str)
        ensures
            r@ == self.spec_api_key(),
    {
        self.api.as_str()
    }

    /// The full URL a fetch of the given endpoint path hands to the
    /// transport: the direct provider's URL with the key appended, or the
    /// proxy host's URL (the key then travels as the header argument).
    pub open spec fn spec_request_url(&self, path: Seq<char>) -> Seq<char> {
        if self.spec_is_rapid() {
            spec_proxy_provider_url(path)
        } else {
            spec_direct_provider_url(path, self.spec_api_key())
        }
    }

    /// Assemble the full URL that a fetch of the given endpoint path will
    /// hand to the transport.
    pub fn request_url(&self, path: &str) -> (r: String)
        ensures
            r@ == self.spec_request_url(path@),
    {
        match &self.provider {
            Provider::AlphaVantage => direct_provider_url(path, self.api.as_str()),
            Provider::RapidAPI => proxy_provider_url(path),
        }
    }

    /// Fetch the raw body text for the given endpoint path and query
    /// string: the URL of [`Self::request_url`] is handed to the
    /// transport method of the client's provider — against the provider's
    /// own host the API key rides in the URL, against the proxy host it
    /// travels as the header argument. What comes back is whatever the
    /// transport produced: nothing further can be promised of the result.
    pub(crate) fn get_output(&self, path: &str) -> Result<String, Error> {
        let url = self.request_url(path);
        match &self.provider {
            Provider::AlphaVantage => self.client.get_alpha_vantage_provider_output(url.as_str()),
            Provider::RapidAPI => self.client.get_rapid_api_provider_output(
                url.as_str(),
                self.api.as_str(),
            ),
        }
    }

    /// Builder for the crypto-currency time series endpoint.
    pub fn crypto<'a>(
        &'a self,
        function: CryptoFunction,
        symbol: &'a str,
        market: &'a str,
    ) -> (r: CryptoBuilder<'a, C>)
        ensures
            r.spec_function() == function,
            r.spec_symbol() == symbol@,
            r.spec_market() == market@,
    {
        CryptoBuilder::new(self, function, symbol, market)
    }

    /// Builder for an endpoint the library has no dedicated builder for:
    /// the caller names the function selector and every parameter.
    pub fn custom<'a>(&'a self, function: &'a str) -> (r: CustomBuilder<'a, C>)
        ensures
            r.spec_function() == function@,
            r.spec_params() == Seq::<(Seq<char>, Seq<char>)>::empty(),
    {
        CustomBuilder::new(self, function)
    }

    /// Builder for the earnings endpoint.
    pub fn earning<'a>(&'a self, symbol: &'a str) -> (r: EarningBuilder<'a, C>)
        ensures
            r.spec_symbol() == symbol@,
    {
        EarningBuilder::new(self, symbol)
    }

    /// Builder for an economic indicator endpoint.
    pub fn economic_indicator<'a>(&'a self, function: &'a str) -> (r: EconomicIndicatorBuilder<
        'a,
        C,
    >)
        ensures
            r.spec_function() == function@,
            r.spec_interval() is None,
            r.spec_maturity() is None,
    {
        EconomicIndicatorBuilder::new(self, function)
    }

    /// Builder for the currency exchange rate endpoint.
    pub fn exchange<'a>(&'a self, from_currency: &'a str, to_currency: &'a str) -> (r:
        ExchangeBuilder<'a, C>)
        ensures
            r.spec_from_currency() == from_currency@,
            r.spec_to_currency() == to_currency@,
    {
        ExchangeBuilder::new(self, from_currency, to_currency)
    }

    /// Builder for a forex time series endpoint.
    pub fn forex<'a>(
        &'a self,
        function: ForexFunction,
        from_symbol: &'a str,
        to_symbol: &'a str,
    ) -> (r: ForexBuilder<'a, C>)
        ensures
            r.spec_function() == function,
            r.spec_from_symbol() == from_symbol@,
            r.spec_to_symbol() == to_symbol@,
            r.spec_interval() is None,
            r.spec_output_size() is None,
    {
        ForexBuilder::new(self, function, from_symbol, to_symbol)
    }

    /// Builder for the global quote endpoint.
    pub fn quote<'a>(&'a self, symbol: &'a str) -> (r: QuoteBuilder<'a, C>)
        ensures
            r.spec_symbol() == symbol@,
    {
        QuoteBuilder::new(self, symbol)
    }

    /// Builder for the symbol search endpoint.
    pub fn search<'a>(&'a self, keywords: &'a str) -> (r: SearchBuilder<'a, C>)
        ensures
            r.spec_keywords() == keywords@,
    {
        SearchBuilder::new(self, keywords)
    }

    /// Builder for a stock time series endpoint.
    pub fn stock_time<'a>(&'a self, function: StockFunction, symbol: &'a str) -> (r:
        TimeSeriesBuilder<'a, C>)
        ensures
            r.spec_function() == function,
            r.spec_symbol() == symbol@,
            r.spec_interval() is None,
            r.spec_output_size() is None,
    {
        TimeSeriesBuilder::new(self, function, symbol)
    }

    /// Builder for a technical indicator endpoint.
    pub fn technical_indicator<'a>(
        &'a self,
        function: &'a str,
        symbol: &'a str,
        interval: TechnicalIndicatorInterval,
    ) -> (r: TechnicalIndicatorBuilder<'a, C>)
        ensures
            r.spec_function() == function@,
            r.spec_symbol() == symbol@,
            r.spec_interval() == interval,
            r.spec_time_period() is None,
            r.spec_series_type() is None,
            r.spec_extra_params() == Seq::<(Seq<char>, Seq<char>)>::empty(),
    {
        TechnicalIndicatorBuilder::new(self, function, symbol, interval)
    }
}

/// Output size of a time series call.
#[derive(Clone)]
pub enum OutputSize {
    /// The latest hundred data points: smaller responses where no full
    /// history is needed.
    Compact,
    /// The full-length series.
    Full,
}

/// The query-string token of an output size.
pub open spec fn spec_output_size_token(o: OutputSize) -> Seq<char> {
    match o {
        OutputSize::Compact => "compact"@,
        OutputSize::Full => "full"@,
    }
}

/// Format an output size as its query-string token.
pub fn output_size_token(o: &OutputSize) -> (r: &'static str)
    ensures
        r@ == spec_output_size_token(*o),
{
    match o {
        OutputSize::Compact => "compact",
        OutputSize::Full => "full",
    }
}

/// Interval between two points of an intraday time series.
#[derive(Clone)]
pub enum TimeSeriesInterval {
    /// One-minute interval.
    OneMin,
    /// Five-minute interval.
    FiveMin,
    /// Fifteen-minute interval.
    FifteenMin,
    /// Thirty-minute interval.
    ThirtyMin,
    /// Sixty-minute interval.
    SixtyMin,
}

/// The query-string token of a time series interval.
pub open spec fn spec_interval_token(i: TimeSeriesInterval) -> Seq<char> {
    match i {
        TimeSeriesInterval::OneMin => "1min"@,
        TimeSeriesInterval::FiveMin => "5min"@,
        TimeSeriesInterval::FifteenMin => "15min"@,
        TimeSeriesInterval::ThirtyMin => "30min"@,
        TimeSeriesInterval::SixtyMin => "60min"@,
    }
}

/// Format a time series interval as its query-string token.
pub fn interval_token(i: &TimeSeriesInterval) -> (r: &'static str)
    ensures
        r@ == spec_interval_token(*i),
{
    match i {
        TimeSeriesInterval::OneMin => "1min",
        TimeSeriesInterval::FiveMin => "5min",
        TimeSeriesInterval::FifteenMin => "15min",
        TimeSeriesInterval::ThirtyMin => "30min",
        TimeSeriesInterval::SixtyMin => "60min",
    }
}

/// The URL of a direct-provider fetch: the provider's own host, the
/// endpoint path and query string, and the API key appended as one more
/// query parameter.
pub open spec fn spec_direct_provider_url(path: Seq<char>, api_key: Seq<char>) -> Seq<char> {
    "https://www.alphavantage.co/"@ + path + "&apikey="@ + api_key
}

/// Assemble the URL of a direct-provider fetch.
pub fn direct_provider_url(path: &str, api_key: &str) -> (r: String)
    ensures
        r@ == spec_direct_provider_url(path@, api_key@),
{
    let mut url = String::from_str("https://www.alphavantage.co/");
    url.append(path);
    url.append("&apikey=");
    url.append(api_key);
    url
}

/// The URL of a proxied fetch: the proxy host and the endpoint path; the
/// API key is no part of it, travelling as a header instead.
pub open spec fn spec_proxy_provider_url(path: Seq<char>) -> Seq<char> {
    "https://alpha-vantage.p.rapidapi.com/"@ + path
}

/// Assemble the URL of a proxied fetch.
pub fn proxy_provider_url(path: &str) -> (r: String)
    ensures
        r@ == spec_proxy_provider_url(path@),
{
    let mut url = String::from_str("https://alpha-vantage.p.rapidapi.com/");
    url.append(path);
    url
}

/// The views of a list of key-value parameter strings.
pub open spec fn spec_param_views(ps: Seq<(String, String)>) -> Seq<(Seq<char>, Seq<char>)> {
    ps.map_values(|p: (String, String)| (p.0@, p.1@))
}

/// The query-string segment that a list of extra parameters contributes:
/// one `&key=value` pair per parameter, in order, and nothing at all for
/// an empty list.
pub open spec fn spec_params_query(ps: Seq<(Seq<char>, Seq<char>)>) -> Seq<char>
    decreases ps.len(),
{
    if ps.len() == 0 {
        Seq::empty()
    } else {
        spec_params_query(ps.drop_last()) + "&"@ + ps.last().0 + "="@ + ps.last().1
    }
}

/// Append `&key=value` to the URL for each extra parameter, in order.
pub(crate) fn append_params(url: &mut String, params: &Vec<(String, String)>)
    ensures
        final (url)@ == old(url)@ + spec_params_query(spec_param_views(params@)),
{
    let ghost views = spec_param_views(params@);
    let mut i: usize = 0;
    proof {
        assert(views.take(0) =~= Seq::<(Seq<char>, Seq<char>)>::empty());
        assert(url@ + spec_params_query(views.take(0)) =~= url@);
    }
    while i < params.len()
        invariant
            i <= params@.len(),
            views == spec_param_views(params@),
            url@ == old(url)@ + spec_params_query(views.take(i as int)),
        decreases params@.len() - i,
    {
        let pair = &params[i];
        url.append("&");
        url.append(pair.0.as_str());
        url.append("=");
        url.append(pair.1.as_str());
        proof {
            assert(views.take(i + 1).drop_last() =~= views.take(i as int));
            assert(views.take(i + 1).last() == views[i as int]);
            assert(views[i as int] == (params@[i as int].0@, params@[i as int].1@));
        }
        i += 1;
    }
    proof {
        assert(views.take(params@.len() as int) =~= views);
    }
}

} // verus!
