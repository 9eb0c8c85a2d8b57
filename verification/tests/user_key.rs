//! The plain API-key holder.

use alpha_vantage::error::Error;
use alpha_vantage::user::APIKey;

#[test]
// Testing get api and set api function
fn test_get_api() {
    assert_eq!(APIKey::set_api("demo").get_api(), "demo".to_string());
}

#[test]
fn error_messages_carry_the_provider_text() {
    assert_eq!(
        Error::AlphaVantageErrorMessage("Invalid API call".to_string()).message(),
        "Invalid API call".to_string()
    );
    assert_eq!(Error::AlphaVantageNote("slow down".to_string()).message(), "slow down".to_string());
    assert_eq!(
        Error::AlphaVantageInformation("nothing here".to_string()).message(),
        "nothing here".to_string()
    );
}
