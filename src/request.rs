//! The single request to the weather provider: its credential and address.
use vstd::prelude::*;
use vstd::string::StringSliceAdditionalSpecFns;
use crate::error::WeatherError;

verus! {

/// Makes `reqwest::Url` (the url crate's `Url`) usable in signatures; it is
/// carried through opaque.
#[verifier::external_type_specification]
#[verifier::external_body]
pub struct ExUrl(reqwest::Url);

/// Whether the url crate's parser accepts a text as an absolute URL.
pub uninterp spec fn url_parses(s: Seq<char>) -> bool;

/// The request address for a city and a country code: both go into the query
/// verbatim, with metric units and the API key.
pub open spec fn request_text_of(city: Seq<char>, country_code: Seq<char>, api_key: Seq<char>) -> Seq<char> {
    "https://api.openweathermap.org/data/2.5/weather?q="@ + city + ","@ + country_code
        + "&units=metric&appid="@ + api_key
}

/// A byte that would change the request if it stood unescaped in a query
/// value: `#` starts a fragment, `&` starts another parameter, and the URL
/// parser drops tab, line feed and carriage return. In UTF-8 these bytes
/// stand only for those characters.
pub open spec fn breaks_query(b: u8) -> bool {
    b == 0x23 || b == 0x26 || b == 0x09 || b == 0x0a || b == 0x0d
}

/// Whether a text holds a byte that would change the request.
pub open spec fn unsafe_in_query(bytes: Seq<u8>) -> bool {
    exists|i: int| 0 <= i < bytes.len() && breaks_query(#[trigger] bytes[i])
}

/// Whether a query value holds a byte that would change the request.
pub fn has_query_breaker(s: &str) -> (r: bool)
    ensures
        r == unsafe_in_query(s.spec_bytes()),
{
    let b = s.as_bytes();
    let mut i: usize = 0;
    while i < b.len()
        invariant
            b@ == s.spec_bytes(),
            0 <= i <= b@.len(),
            forall|j: int| 0 <= j < i ==> !breaks_query(#[trigger] b@[j]),
        decreases b@.len() - i,
    {
        let x = b[i];
        if x == 0x23 || x == 0x26 || x == 0x09 || x == 0x0a || x == 0x0d {
            assert(breaks_query(b@[i as int]));
            return true;
        }
        i = i + 1;
    }
    false
}

/// Relies on `reqwest::Url::parse` (the url crate's `Url::parse`): `Ok` exactly
/// when the text is a URL it accepts; its error is dropped.
#[verifier::external_body]
fn parse_url(s: &str) -> (r: Option<reqwest::Url>)
    ensures
        r is Some == url_parses(s@),
{
    reqwest::Url::parse(s).ok()
}

/// The API key as found by the caller: a missing or empty key is a
/// configuration error.
pub fn resolve_api_key(found: Option<String>) -> (r: Result<String, WeatherError>)
    ensures
        match found {
            Some(k) if k@.len() > 0 => r == Ok::<String, WeatherError>(k),
            _ => r == Err::<String, WeatherError>(WeatherError::Config),
        },
{
    match found {
        Some(k) => {
            if k.as_str().is_empty() {
                Err(WeatherError::Config)
            } else {
                Ok(k)
            }
        },
        None => Err(WeatherError::Config),
    }
}

/// The text of the request address, composed without escaping.
pub fn request_text(city: &str, country_code: &str, api_key: &str) -> (r: String)
    ensures
        r@ == request_text_of(city@, country_code@, api_key@),
{
    let mut s = String::from_str("https://api.openweathermap.org/data/2.5/weather?q=");
    s.append(city);
    s.append(",");
    s.append(country_code);
    s.append("&units=metric&appid=");
    s.append(api_key);
    s
}

/// The parsed request address. An empty key fails before anything else with
/// a configuration error. A city, country code or key holding `#`, `&`, tab,
/// line feed or carriage return fails with a URL construction error, rather
/// than send a request whose query was cut short or changed; so does an
/// address the URL parser refuses.
pub fn request_url(city: &str, country_code: &str, api_key: &str) -> (r: Result<
    reqwest::Url,
    WeatherError,
>)
    ensures
        api_key@.len() == 0 ==> (r matches Err(e) && e == WeatherError::Config),
        api_key@.len() > 0 ==> (r is Ok <==> !unsafe_in_query(city.spec_bytes())
            && !unsafe_in_query(country_code.spec_bytes()) && !unsafe_in_query(api_key.spec_bytes())
            && url_parses(request_text_of(city@, country_code@, api_key@))),
        api_key@.len() > 0 && r is Err ==> (r matches Err(e) && e == WeatherError::UrlConstruction),
{
    if api_key.is_empty() {
        return Err(WeatherError::Config);
    }
    if has_query_breaker(city) || has_query_breaker(country_code) || has_query_breaker(api_key) {
        return Err(WeatherError::UrlConstruction);
    }
    let text = request_text(city, country_code, api_key);
    match parse_url(text.as_str()) {
        Some(u) => Ok(u),
        None => Err(WeatherError::UrlConstruction),
    }
}

} // verus!
