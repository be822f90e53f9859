//! The closed set of ways a weather lookup can fail.
use vstd::prelude::*;

verus! {

/// Why a lookup produced no report.
#[derive(Clone, Copy, Debug, PartialEq, Eq, Structural)]
pub enum WeatherError {
    /// The API key is missing or empty.
    Config,
    /// The command-line arguments are missing or malformed.
    Argument,
    /// The composed request address is not a well-formed URL.
    UrlConstruction,
    /// The request got no response.
    Network,
    /// The response body is not a complete weather report.
    Decode,
    /// A timestamp has no calendar time.
    TimeConversion,
}

/// The description of each failure.
pub open spec fn description(e: WeatherError) -> Seq<char> {
    match e {
        WeatherError::Config => "could not load the API key"@,
        WeatherError::Argument => "missing or malformed arguments"@,
        WeatherError::UrlConstruction => "the request address is not a valid URL"@,
        WeatherError::Network => "the weather service could not be reached"@,
        WeatherError::Decode => "the response is not a weather report"@,
        WeatherError::TimeConversion => "a timestamp is out of the calendar's range"@,
    }
}

impl WeatherError {
    /// A short description of the failure, never empty.
    pub fn describe(&self) -> (r: &'static str)
        ensures
            r@ == description(*self),
            r@.len() > 0,
    {
        proof {
            reveal_strlit("could not load the API key");
            reveal_strlit("missing or malformed arguments");
            reveal_strlit("the request address is not a valid URL");
            reveal_strlit("the weather service could not be reached");
            reveal_strlit("the response is not a weather report");
            reveal_strlit("a timestamp is out of the calendar's range");
        }
        match self {
            WeatherError::Config => "could not load the API key",
            WeatherError::Argument => "missing or malformed arguments",
            WeatherError::UrlConstruction => "the request address is not a valid URL",
            WeatherError::Network => "the weather service could not be reached",
            WeatherError::Decode => "the response is not a weather report",
            WeatherError::TimeConversion => "a timestamp is out of the calendar's range",
        }
    }
}

} // verus!
