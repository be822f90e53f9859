//! The fields of a weather report that are shown, and the text block that
//! shows them.
use vstd::prelude::*;
use crate::clock::{clock_text, decimal, decimal_text, utc_to_time, MAX_CLOCK_SECS};
use crate::compass::{compass_text, degree_to_compass};
use crate::error::WeatherError;

verus! {

/// What is shown of a decoded report. Temperatures and the wind speed are
/// held as decimal text, in the shortest form that reads back as the
/// provider's number (`15`, `14.5`, `3.09`); no rounding is applied.
pub struct Report {
    pub location_name: String,
    pub country_code: String,
    /// Temperature in degrees Celsius.
    pub temperature: String,
    /// Felt temperature in degrees Celsius.
    pub feels_like: String,
    /// Relative humidity in percent.
    pub humidity: u32,
    /// Wind speed in metres per second.
    pub wind_speed: String,
    /// Wind direction in degrees.
    pub wind_degrees: u32,
    /// Sunrise, in seconds since the Unix epoch.
    pub sunrise: u64,
    /// Sunset, in seconds since the Unix epoch.
    pub sunset: u64,
}

/// One line of the block: a padded label, a value and a line break.
pub open spec fn line(label: Seq<char>, value: Seq<char>) -> Seq<char> {
    label + value + "\n"@
}

/// The text block for a report, given the clock texts of its sunrise and
/// sunset.
pub open spec fn report_text(r: Report, sunrise: Seq<char>, sunset: Seq<char>) -> Seq<char> {
    line("location:       "@, r.location_name@ + ", "@ + r.country_code@)
        + line("temperature:    "@, r.temperature@ + "ºC"@)
        + line("feels like:     "@, r.feels_like@ + "ºC"@)
        + line("humidity:       "@, decimal(r.humidity as nat) + "%"@)
        + line("wind:           "@, r.wind_speed@ + "m/s"@)
        + line("wind direction: "@, compass_text(r.wind_degrees as int))
        + line("sunrise:        "@, sunrise + " UTC"@)
        + line("sunset:         "@, sunset + " UTC"@)
}

/// The block for a report whose sunrise and sunset are within the calendar.
pub open spec fn rendered(r: Report) -> Seq<char> {
    report_text(r, clock_text(r.sunrise as int % 86400), clock_text(r.sunset as int % 86400))
}

/// Appends one line of the block.
fn push_line(out: &mut String, label: &str, value: &str)
    ensures
        final(out)@ == old(out)@ + line(label@, value@),
{
    out.append(label);
    out.append(value);
    out.append("\n");
    assert(final(out)@ =~= old(out)@ + line(label@, value@));
}

/// The text block for a report. A sunrise or sunset with no calendar time is
/// an error, and nothing is rendered.
pub fn render(report: &Report) -> (r: Result<String, WeatherError>)
    ensures
        r matches Ok(t) ==> t@ == rendered(*report),
        r matches Err(e) ==> e == WeatherError::TimeConversion,
        r is Ok <==> report.sunrise <= MAX_CLOCK_SECS && report.sunset <= MAX_CLOCK_SECS,
{
    let sunrise = match utc_to_time(report.sunrise) {
        Ok(t) => t,
        Err(e) => return Err(e),
    };
    let sunset = match utc_to_time(report.sunset) {
        Ok(t) => t,
        Err(e) => return Err(e),
    };
    let mut out = String::new();

    let location = report.location_name.clone().concat(", ").concat(report.country_code.as_str());
    push_line(&mut out, "location:       ", location.as_str());
    let temperature = report.temperature.clone().concat("ºC");
    push_line(&mut out, "temperature:    ", temperature.as_str());
    let feels_like = report.feels_like.clone().concat("ºC");
    push_line(&mut out, "feels like:     ", feels_like.as_str());
    let humidity = decimal_text(report.humidity as u64).concat("%");
    push_line(&mut out, "humidity:       ", humidity.as_str());
    let wind = report.wind_speed.clone().concat("m/s");
    push_line(&mut out, "wind:           ", wind.as_str());
    push_line(&mut out, "wind direction: ", degree_to_compass(report.wind_degrees));
    let rise = sunrise.concat(" UTC");
    push_line(&mut out, "sunrise:        ", rise.as_str());
    let set = sunset.concat(" UTC");
    push_line(&mut out, "sunset:         ", set.as_str());

    assert(out@ =~= rendered(*report));
    Ok(out)
}

} // verus!
