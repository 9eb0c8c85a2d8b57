//! Query-string formatting of the per-endpoint builders.

use alpha_vantage::api::{ApiClient, OutputSize, TimeSeriesInterval};
use alpha_vantage::client::HttpClient;
use alpha_vantage::crypto::CryptoFunction;
use alpha_vantage::error::Error;
use alpha_vantage::forex::ForexFunction;
use alpha_vantage::stock_time::StockFunction;
use alpha_vantage::technical_indicator::TechnicalIndicatorInterval;

struct NoTransport;

impl HttpClient for NoTransport {
    fn get_alpha_vantage_provider_output(&self, _path: &str) -> Result<String, Error> {
        Err(Error::GetRequestFailed)
    }
    fn get_rapid_api_provider_output(&self, _path: &str, _api_key: &str) -> Result<String, Error> {
        Err(Error::GetRequestFailed)
    }
}

#[test]
fn api_key_is_kept() {
    let api = ApiClient::set_api("some_key", NoTransport);
    assert_eq!(api.get_api_key(), "some_key");
    let api = ApiClient::set_rapid_api("other_key", NoTransport);
    assert_eq!(api.get_api_key(), "other_key");
}

#[test]
fn crypto_url_has_function_symbol_and_market() {
    let api = ApiClient::set_api("demo", NoTransport);
    let b = api.crypto(CryptoFunction::Daily, "BTC", "EUR");
    assert_eq!(b.create_url(), "query?function=DIGITAL_CURRENCY_DAILY&symbol=BTC&market=EUR");
    let b = api.crypto(CryptoFunction::Monthly, "ETH", "CNY");
    assert_eq!(b.create_url(), "query?function=DIGITAL_CURRENCY_MONTHLY&symbol=ETH&market=CNY");
}

#[test]
fn unset_optional_parameters_are_omitted_entirely() {
    let api = ApiClient::set_api("demo", NoTransport);
    let url = api.stock_time(StockFunction::Weekly, "MSFT").create_url();
    assert_eq!(url, "query?function=TIME_SERIES_WEEKLY&symbol=MSFT");
    assert!(!url.contains("interval"));
    assert!(!url.contains("outputsize"));
    let url = api.forex(ForexFunction::Monthly, "EUR", "USD").create_url();
    assert_eq!(url, "query?function=FX_MONTHLY&from_symbol=EUR&to_symbol=USD");
    assert!(!url.contains("interval"));
    assert!(!url.contains("outputsize"));
}

#[test]
fn set_optional_parameters_are_appended() {
    let api = ApiClient::set_api("demo", NoTransport);
    let url = api
        .stock_time(StockFunction::IntraDay, "MSFT")
        .interval(TimeSeriesInterval::FiveMin)
        .output_size(OutputSize::Full)
        .create_url();
    assert_eq!(
        url,
        "query?function=TIME_SERIES_INTRADAY&symbol=MSFT&interval=5min&outputsize=full"
    );
    let url = api
        .forex(ForexFunction::IntraDay, "EUR", "USD")
        .interval(TimeSeriesInterval::ThirtyMin)
        .output_size(OutputSize::Compact)
        .create_url();
    assert_eq!(
        url,
        "query?function=FX_INTRADAY&from_symbol=EUR&to_symbol=USD&interval=30min&outputsize=compact"
    );
}

#[test]
fn simple_endpoint_urls() {
    let api = ApiClient::set_api("demo", NoTransport);
    assert_eq!(api.quote("MSFT").create_url(), "query?function=GLOBAL_QUOTE&symbol=MSFT");
    assert_eq!(
        api.exchange("BTC", "EUR").create_url(),
        "query?function=CURRENCY_EXCHANGE_RATE&from_currency=BTC&to_currency=EUR"
    );
    assert_eq!(api.search("BA").create_url(), "query?function=SYMBOL_SEARCH&keywords=BA");
    assert_eq!(api.earning("IBM").create_url(), "query?function=EARNINGS&symbol=IBM");
    assert_eq!(
        api.economic_indicator("REAL_GDP_PER_CAPITA").create_url(),
        "query?function=REAL_GDP_PER_CAPITA"
    );
    assert_eq!(
        api.economic_indicator("TREASURY_YIELD").interval("monthly").maturity("10year").create_url(),
        "query?function=TREASURY_YIELD&interval=monthly&maturity=10year"
    );
}

#[test]
fn custom_url_collects_extra_params() {
    let api = ApiClient::set_api("demo", NoTransport);
    assert_eq!(api.custom("MY_FUNCTION").create_url(), "query?function=MY_FUNCTION");
    let url = api.custom("MY_FUNCTION").extra_param("symbol", "IBM").extra_param(
        "outputsize",
        "full",
    );
    assert_eq!(url.create_url(), "query?function=MY_FUNCTION&symbol=IBM&outputsize=full");
}

#[test]
fn technical_indicator_url() {
    let api = ApiClient::set_api("demo", NoTransport);
    let url = api
        .technical_indicator("MAMA", "IBM", TechnicalIndicatorInterval::Daily)
        .series_type("close")
        .extra_param("fastlimit", "0.02")
        .create_url();
    assert_eq!(
        url,
        "query?function=MAMA&symbol=IBM&interval=daily&series_type=close&fastlimit=0.02"
    );
    let url = api
        .technical_indicator("SMA", "IBM", TechnicalIndicatorInterval::SixtyMin)
        .time_period(60)
        .series_type("open")
        .create_url();
    assert_eq!(
        url,
        "query?function=SMA&symbol=IBM&interval=60min&time_period=60&series_type=open"
    );
    let bare = api
        .technical_indicator("SMA", "IBM", TechnicalIndicatorInterval::Weekly)
        .create_url();
    assert!(!bare.contains("time_period"));
    assert!(!bare.contains("series_type"));
}
