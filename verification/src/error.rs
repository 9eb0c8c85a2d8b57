//! Typed errors for every way a call into the provider can fail, and the
//! shared detection of the error sentinels that the provider embeds in
//! otherwise success-shaped response bodies.

use vstd::prelude::*;

verus! {

/// Error produced while fetching or decoding one response.
///
/// Every endpoint call is terminal on the first error: no retries are
/// attempted and no partial results are returned.
#[derive(Debug, Clone, PartialEq, Eq)]
pub enum Error {
    /// The transport failed to produce a response body.
    GetRequestFailed,
    /// The response body was not valid JSON of the expected shape.
    DecodeJsonToStruct,
    /// The provider rejected the request and answered with an
    /// `Error Message` field carrying the given text.
    AlphaVantageErrorMessage(String),
    /// The provider throttled the request and answered with a `Note`
    /// field carrying the given text.
    AlphaVantageNote(String),
    /// The provider had no data for the request and answered with an
    /// `Information` field carrying the given text.
    AlphaVantageInformation(String),
    /// No error sentinel was present, but a required payload section was
    /// absent from the response body.
    EmptyResponse,
    /// More entries were requested than the collection holds; carries the
    /// number of entries actually present.
    DesiredNumberOfEntryNotPresent(usize),
}

impl Error {
    /// A plain-text description of the error, carrying the provider's own
    /// message where one was given.
    pub fn message(&self) -> (r: String)
        ensures
            match self {
                Error::GetRequestFailed => r@ == "get request failed"@,
                Error::DecodeJsonToStruct => r@ == "failed to decode JSON response"@,
                Error::AlphaVantageErrorMessage(m) => r@ == m@,
                Error::AlphaVantageNote(m) => r@ == m@,
                Error::AlphaVantageInformation(m) => r@ == m@,
                Error::EmptyResponse => r@ == "response contains no payload"@,
                Error::DesiredNumberOfEntryNotPresent(_) => r@
                    == "desired number of entries not present"@,
            },
    {
        match self {
            Error::GetRequestFailed => String::from_str("get request failed"),
            Error::DecodeJsonToStruct => String::from_str("failed to decode JSON response"),
            Error::AlphaVantageErrorMessage(m) => m.clone(),
            Error::AlphaVantageNote(m) => m.clone(),
            Error::AlphaVantageInformation(m) => m.clone(),
            Error::EmptyResponse => String::from_str("response contains no payload"),
            Error::DesiredNumberOfEntryNotPresent(_) => {
                String::from_str("desired number of entries not present")
            },
        }
    }
}

/// Holds exactly when the outcome `r` is the rejection error carrying the
/// message `m`.
pub open spec fn is_rejected_with<T>(r: Result<T, Error>, m: Seq<char>) -> bool {
    &&& r matches Err(e)
    &&& e matches Error::AlphaVantageErrorMessage(s)
    &&& s@ == m
}

/// Holds exactly when the outcome `r` is the rate-limit error carrying the
/// message `m`.
pub open spec fn is_throttled_with<T>(r: Result<T, Error>, m: Seq<char>) -> bool {
    &&& r matches Err(e)
    &&& e matches Error::AlphaVantageNote(s)
    &&& s@ == m
}

/// Holds exactly when the outcome `r` is the no-data error carrying the
/// message `m`.
pub open spec fn is_no_data_with<T>(r: Result<T, Error>, m: Seq<char>) -> bool {
    &&& r matches Err(e)
    &&& e matches Error::AlphaVantageInformation(s)
    &&& s@ == m
}

/// Check the three sentinel fields that the provider wraps around every
/// response body, in their fixed priority order: an `Error Message` field
/// means the request was rejected, else a `Note` field means the call was
/// throttled, else an `Information` field means the query returned no data.
/// Only when all three are absent may the payload itself be trusted.
pub fn detect_common_helper_error(
    information: Option<String>,
    error_message: Option<String>,
    note: Option<String>,
) -> (r: Result<(), Error>)
    ensures
        error_message matches Some(m) ==> is_rejected_with(r, m@),
        note matches Some(m) ==> (error_message is None ==> is_throttled_with(r, m@)),
        information matches Some(m) ==> (error_message is None && note is None ==> is_no_data_with(
            r,
            m@,
        )),
        r is Ok <==> error_message is None && note is None && information is None,
{
    if let Some(message) = error_message {
        return Err(Error::AlphaVantageErrorMessage(message));
    }
    if let Some(message) = note {
        return Err(Error::AlphaVantageNote(message));
    }
    if let Some(message) = information {
        return Err(Error::AlphaVantageInformation(message));
    }
    Ok(())
}

} // verus!
