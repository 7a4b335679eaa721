//! The ways in which a weather lookup ends without a report.
//!
//! Each of them is final: nothing is retried and no part of a report is
//! shown. The message is plain text for the person at the terminal.

use vstd::prelude::*;

verus! {

/// Why no report could be produced.
#[derive(Debug, Clone, PartialEq, Eq)]
pub enum WeatherError {
    /// The API key was not supplied.
    MissingCredential,
    /// The request did not bring back a response; the text is the transport's
    /// own account of the failure.
    Transport(String),
    /// The response did not have the expected shape; the text is the parser's
    /// own account of the failure.
    Deserialization(String),
    /// A timestamp of the response is not an instant of the calendar.
    InvalidTimestamp(i64),
}

/// The message shown for an error.
pub open spec fn message_of(error: WeatherError) -> Seq<char> {
    match error {
        WeatherError::MissingCredential => "Please set the WEATHER_API_KEY environment variable"@,
        WeatherError::Transport(detail) => "Failed to fetch weather data: "@ + detail@,
        WeatherError::Deserialization(detail) => "Failed to parse weather data: "@ + detail@,
        WeatherError::InvalidTimestamp(_) => "Invalid timestamp"@,
    }
}

impl WeatherError {
    /// The message shown for this error.
    pub fn message(&self) -> (text: String)
        ensures
            text@ == message_of(*self),
    {
        match self {
            WeatherError::MissingCredential => String::from_str(
                "Please set the WEATHER_API_KEY environment variable",
            ),
            WeatherError::Transport(detail) => String::from_str(
                "Failed to fetch weather data: ",
            ).concat(detail.as_str()),
            WeatherError::Deserialization(detail) => String::from_str(
                "Failed to parse weather data: ",
            ).concat(detail.as_str()),
            WeatherError::InvalidTimestamp(_) => String::from_str("Invalid timestamp"),
        }
    }
}

} // verus!
