//! The shared error-sentinel check and the helper-to-struct conversion.

use alpha_vantage::crypto::{CryptoFunction, CryptoHelper, EntryHelper, MetaData, VecEntry};
use alpha_vantage::decimal::Decimal;
use alpha_vantage::decode::parse_crypto;
use alpha_vantage::error::{detect_common_helper_error, Error};

fn sample_meta() -> MetaData {
    MetaData {
        information: "Daily Prices and Volumes for Digital Currency".to_string(),
        digital_code: "BTC".to_string(),
        digital_name: "Bitcoin".to_string(),
        market_code: "EUR".to_string(),
        market_name: "Euro".to_string(),
        last_refreshed: "2020-01-02 00:00:00".to_string(),
        time_zone: "UTC".to_string(),
    }
}

fn sample_record() -> EntryHelper {
    EntryHelper {
        open_usd: "7100.00000000".to_string(),
        high_usd: "7150.00000000".to_string(),
        low_usd: "7000.00000000".to_string(),
        close_usd: "7120.00000000".to_string(),
        volume: "1000.50000000".to_string(),
        market_cap: "7120000.00000000".to_string(),
        market_data: vec![
            ("1a. open (EUR)".to_string(), "6340.00000000".to_string()),
            ("2a. high (EUR)".to_string(), "6400.50000000".to_string()),
            ("3a. low (EUR)".to_string(), "6250.25000000".to_string()),
            ("4a. close (EUR)".to_string(), "6380.00000000".to_string()),
        ],
    }
}

#[test]
fn detect_order_is_error_message_note_information() {
    let r = detect_common_helper_error(
        Some("info".to_string()),
        Some("rejected".to_string()),
        Some("throttled".to_string()),
    );
    assert_eq!(r.unwrap_err(), Error::AlphaVantageErrorMessage("rejected".to_string()));
    let r = detect_common_helper_error(Some("info".to_string()), None, Some("slow".to_string()));
    assert_eq!(r.unwrap_err(), Error::AlphaVantageNote("slow".to_string()));
    let r = detect_common_helper_error(Some("info".to_string()), None, None);
    assert_eq!(r.unwrap_err(), Error::AlphaVantageInformation("info".to_string()));
    assert!(detect_common_helper_error(None, None, None).is_ok());
}

#[test]
fn error_message_wins_even_with_payload_present() {
    let helper = CryptoHelper {
        information: Some("no data".to_string()),
        error_message: Some("Invalid API call".to_string()),
        note: Some("throttled".to_string()),
        meta_data: Some(sample_meta()),
        entry: Some(vec![("2020-01-01".to_string(), sample_record())]),
    };
    let r = helper.convert();
    assert_eq!(r.unwrap_err(), Error::AlphaVantageErrorMessage("Invalid API call".to_string()));
}

#[test]
fn note_without_error_message_is_throttled() {
    let helper = CryptoHelper {
        information: Some("no data".to_string()),
        error_message: None,
        note: Some("please slow down".to_string()),
        meta_data: Some(sample_meta()),
        entry: Some(vec![("2020-01-01".to_string(), sample_record())]),
    };
    let r = helper.convert();
    assert_eq!(r.unwrap_err(), Error::AlphaVantageNote("please slow down".to_string()));
}

#[test]
fn missing_payload_without_sentinels_is_empty_response() {
    let helper = CryptoHelper {
        information: None,
        error_message: None,
        note: None,
        meta_data: Some(sample_meta()),
        entry: None,
    };
    assert_eq!(helper.convert().unwrap_err(), Error::EmptyResponse);
    let helper = CryptoHelper {
        information: None,
        error_message: None,
        note: None,
        meta_data: None,
        entry: Some(vec![("2020-01-01".to_string(), sample_record())]),
    };
    assert_eq!(helper.convert().unwrap_err(), Error::EmptyResponse);
}

#[test]
fn information_without_other_sentinels_is_no_data() {
    let helper = CryptoHelper {
        information: Some("unsupported symbol".to_string()),
        error_message: None,
        note: None,
        meta_data: None,
        entry: None,
    };
    let r = helper.convert();
    assert_eq!(r.unwrap_err(), Error::AlphaVantageInformation("unsupported symbol".to_string()));
}

#[test]
fn conversion_parses_fields_and_routes_ordinal_keys() {
    let helper = CryptoHelper {
        information: None,
        error_message: None,
        note: None,
        meta_data: Some(sample_meta()),
        entry: Some(vec![("2020-01-01".to_string(), sample_record())]),
    };
    let crypto = helper.convert().unwrap();
    assert_eq!(crypto.digital_code(), "BTC");
    assert_eq!(crypto.market_name(), "Euro");
    assert_eq!(crypto.time_zone(), "UTC");
    let entries = crypto.entry();
    assert_eq!(entries.len(), 1);
    let e = &entries[0];
    assert_eq!(e.time(), "2020-01-01");
    assert_eq!(e.usd_open(), Decimal { mantissa: 710000000000, scale: 8, neg: false });
    assert_eq!(e.usd_high(), Decimal { mantissa: 715000000000, scale: 8, neg: false });
    assert_eq!(e.usd_low(), Decimal { mantissa: 700000000000, scale: 8, neg: false });
    assert_eq!(e.usd_close(), Decimal { mantissa: 712000000000, scale: 8, neg: false });
    assert_eq!(e.volume(), Decimal { mantissa: 100050000000, scale: 8, neg: false });
    assert_eq!(e.market_cap(), Decimal { mantissa: 712000000000000, scale: 8, neg: false });
    assert_eq!(e.market_open(), Decimal { mantissa: 634000000000, scale: 8, neg: false });
    assert_eq!(e.market_high(), Decimal { mantissa: 640050000000, scale: 8, neg: false });
    assert_eq!(e.market_low(), Decimal { mantissa: 625025000000, scale: 8, neg: false });
    assert_eq!(e.market_close(), Decimal { mantissa: 638000000000, scale: 8, neg: false });
}

#[test]
fn malformed_numeric_string_fails_whole_conversion() {
    let mut record = sample_record();
    record.volume = "not a number".to_string();
    let helper = CryptoHelper {
        information: None,
        error_message: None,
        note: None,
        meta_data: Some(sample_meta()),
        entry: Some(vec![("2020-01-01".to_string(), record)]),
    };
    assert_eq!(helper.convert().unwrap_err(), Error::DecodeJsonToStruct);
}

#[test]
fn rejection_body_decodes_to_rejection_error() {
    let body = "{\"Error Message\": \"Invalid API call\"}";
    let helper = parse_crypto(body).unwrap();
    let r = helper.convert();
    assert_eq!(r.unwrap_err(), Error::AlphaVantageErrorMessage("Invalid API call".to_string()));
}

#[test]
fn invalid_json_is_a_decode_error() {
    assert_eq!(parse_crypto("not json at all").unwrap_err(), Error::DecodeJsonToStruct);
    assert_eq!(parse_crypto("[1, 2, 3]").unwrap_err(), Error::DecodeJsonToStruct);
}

#[test]
fn round_trip_two_records_and_latest() {
    let body = "{\
        \"Meta Data\": {\
            \"1. Information\": \"Daily Prices and Volumes for Digital Currency\",\
            \"2. Digital Currency Code\": \"BTC\",\
            \"3. Digital Currency Name\": \"Bitcoin\",\
            \"4. Market Code\": \"EUR\",\
            \"5. Market Name\": \"Euro\",\
            \"6. Last Refreshed\": \"2020-01-02 00:00:00\",\
            \"7. Time Zone\": \"UTC\"\
        },\
        \"Time Series (Digital Currency Daily)\": {\
            \"2020-01-01\": {\
                \"1a. open (EUR)\": \"6340.00000000\",\
                \"2a. high (EUR)\": \"6400.50000000\",\
                \"3a. low (EUR)\": \"6250.25000000\",\
                \"4a. close (EUR)\": \"6380.00000000\",\
                \"1b. open (USD)\": \"7100.00000000\",\
                \"2b. high (USD)\": \"7150.00000000\",\
                \"3b. low (USD)\": \"7000.00000000\",\
                \"4b. close (USD)\": \"7120.00000000\",\
                \"5. volume\": \"1000.50000000\",\
                \"6. market cap (USD)\": \"7120000.00000000\"\
            },\
            \"2020-01-02\": {\
                \"1a. open (EUR)\": \"6380.00000000\",\
                \"2a. high (EUR)\": \"6500.00000000\",\
                \"3a. low (EUR)\": \"6300.00000000\",\
                \"4a. close (EUR)\": \"6450.75000000\",\
                \"1b. open (USD)\": \"7120.00000000\",\
                \"2b. high (USD)\": \"7300.00000000\",\
                \"3b. low (USD)\": \"7050.00000000\",\
                \"4b. close (USD)\": \"7250.25000000\",\
                \"5. volume\": \"2000.00000000\",\
                \"6. market cap (USD)\": \"14500000.00000000\"\
            }\
        }\
    }";
    let crypto = parse_crypto(body).unwrap().convert().unwrap();
    let entries = crypto.entry();
    assert_eq!(entries.len(), 2);
    let first = entries.find("2020-01-01").unwrap();
    assert_eq!(first.usd_close(), Decimal { mantissa: 712000000000, scale: 8, neg: false });
    assert_eq!(first.market_open(), Decimal { mantissa: 634000000000, scale: 8, neg: false });
    let latest = entries.latest();
    assert_eq!(latest.time(), "2020-01-02");
    assert_eq!(latest.usd_close(), Decimal { mantissa: 725025000000, scale: 8, neg: false });
    assert_eq!(latest.volume(), Decimal { mantissa: 200000000000, scale: 8, neg: false });
    assert!(entries.find("2020-01-03").is_none());
}

#[test]
fn json_fetches_and_decodes_through_the_transport() {
    struct Canned(String);
    impl alpha_vantage::client::HttpClient for Canned {
        fn get_alpha_vantage_provider_output(&self, _path: &str) -> Result<String, Error> {
            Ok(self.0.clone())
        }
        fn get_rapid_api_provider_output(
            &self,
            _path: &str,
            _api_key: &str,
        ) -> Result<String, Error> {
            Ok(self.0.clone())
        }
    }
    let body = "{\"Error Message\": \"Invalid API call\"}".to_string();
    let api = alpha_vantage::api::ApiClient::set_api("demo", Canned(body));
    let r = api.crypto(CryptoFunction::Daily, "BTC", "EUR").json();
    assert_eq!(r.unwrap_err(), Error::AlphaVantageErrorMessage("Invalid API call".to_string()));

    struct Failing;
    impl alpha_vantage::client::HttpClient for Failing {
        fn get_alpha_vantage_provider_output(&self, _path: &str) -> Result<String, Error> {
            Err(Error::GetRequestFailed)
        }
        fn get_rapid_api_provider_output(
            &self,
            _path: &str,
            _api_key: &str,
        ) -> Result<String, Error> {
            Err(Error::GetRequestFailed)
        }
    }
    let api = alpha_vantage::api::ApiClient::set_rapid_api("demo", Failing);
    let r = api.crypto(CryptoFunction::Daily, "BTC", "EUR").json();
    assert_eq!(r.unwrap_err(), Error::GetRequestFailed);
}
