use weather::clock::{decimal_text, format_clock, utc_to_time};
use weather::compass::{compass_point, degree_to_compass, Compass};
use weather::error::WeatherError;
use weather::report::{render, Report};
use weather::request::{has_query_breaker, request_text, request_url, resolve_api_key};

fn london() -> Report {
    Report {
        location_name: "London".to_string(),
        country_code: "GB".to_string(),
        temperature: "15".to_string(),
        feels_like: "14".to_string(),
        humidity: 80,
        wind_speed: "3".to_string(),
        wind_degrees: 90,
        sunrise: 1600000000,
        sunset: 1600040000,
    }
}

#[test]
fn compass_buckets_and_boundaries() {
    let cases: [(u32, &str); 20] = [
        (0, "N"),
        (22, "N"),
        (23, "NE"),
        (67, "NE"),
        (68, "E"),
        (90, "E"),
        (112, "E"),
        (113, "SE"),
        (157, "SE"),
        (158, "S"),
        (202, "S"),
        (203, "SW"),
        (247, "SW"),
        (248, "W"),
        (292, "W"),
        (293, "NW"),
        (337, "NW"),
        (338, "N"),
        (359, "N"),
        (360, "N"),
    ];
    for (d, label) in cases {
        assert_eq!(degree_to_compass(d), label, "angle {}", d);
    }
}

#[test]
fn compass_every_angle_in_range_is_a_label() {
    let labels = ["N", "NE", "E", "SE", "S", "SW", "W", "NW"];
    for d in 0..=360u32 {
        assert!(labels.contains(&degree_to_compass(d)), "angle {}", d);
        assert!(compass_point(d).is_some());
    }
}

#[test]
fn compass_out_of_range_is_marker() {
    for d in [361u32, 1000, u32::MAX] {
        assert_eq!(degree_to_compass(d), "error getting direction");
        assert_eq!(compass_point(d), None);
    }
}

#[test]
fn compass_point_labels() {
    assert_eq!(compass_point(0), Some(Compass::N));
    assert_eq!(compass_point(200), Some(Compass::S));
    assert_eq!(Compass::SW.label(), "SW");
    assert_eq!(Compass::NW.label(), "NW");
}

#[test]
fn utc_time_at_epoch_and_one_hour_later() {
    assert_eq!(utc_to_time(0), Ok("00:00:00".to_string()));
    assert_eq!(utc_to_time(3661), Ok("01:01:01".to_string()));
}

#[test]
fn utc_time_of_given_epochs() {
    assert_eq!(utc_to_time(1600000000), Ok("12:26:40".to_string()));
    assert_eq!(utc_to_time(1600040000), Ok("23:33:20".to_string()));
    assert_eq!(utc_to_time(86399), Ok("23:59:59".to_string()));
    assert_eq!(utc_to_time(86400), Ok("00:00:00".to_string()));
}

#[test]
fn utc_time_at_end_of_calendar() {
    assert_eq!(utc_to_time(253402300799), Ok("23:59:59".to_string()));
    assert_eq!(utc_to_time(253402300800), Ok("00:00:00".to_string()));
    assert_eq!(utc_to_time(8210266876799), Ok("23:59:59".to_string()));
    assert_eq!(utc_to_time(8210266876800), Err(WeatherError::TimeConversion));
}

#[test]
fn utc_time_ignores_the_date() {
    for t in [0u64, 3661, 1600000000, 8210266790399] {
        assert_eq!(utc_to_time(t), utc_to_time(t + 86400));
    }
}

#[test]
fn utc_time_out_of_calendar() {
    assert_eq!(utc_to_time(u64::MAX), Err(WeatherError::TimeConversion));
    assert_eq!(utc_to_time(i64::MAX as u64), Err(WeatherError::TimeConversion));
}

#[test]
fn clock_and_decimal_text() {
    assert_eq!(format_clock(0), "00:00:00");
    assert_eq!(format_clock(45296), "12:34:56");
    assert_eq!(decimal_text(0), "0");
    assert_eq!(decimal_text(80), "80");
    assert_eq!(decimal_text(1234567890), "1234567890");
}

#[test]
fn api_key_missing_or_empty_is_config_error() {
    assert_eq!(resolve_api_key(None), Err(WeatherError::Config));
    assert_eq!(resolve_api_key(Some(String::new())), Err(WeatherError::Config));
    assert_eq!(resolve_api_key(Some("k1".to_string())), Ok("k1".to_string()));
}

#[test]
fn request_text_is_verbatim() {
    assert_eq!(
        request_text("London", "GB", "abc"),
        "https://api.openweathermap.org/data/2.5/weather?q=London,GB&units=metric&appid=abc"
    );
    assert_eq!(
        request_text(" new york", "us", "k"),
        "https://api.openweathermap.org/data/2.5/weather?q= new york,us&units=metric&appid=k"
    );
}

#[test]
fn request_url_parses() {
    let url = request_url("London", "GB", "abc").unwrap();
    assert_eq!(url.host_str(), Some("api.openweathermap.org"));
    assert_eq!(url.path(), "/data/2.5/weather");
    assert_eq!(url.query(), Some("q=London,GB&units=metric&appid=abc"));
}

#[test]
fn request_url_needs_a_key() {
    assert_eq!(request_url("London", "GB", "").unwrap_err(), WeatherError::Config);
}

#[test]
fn request_url_refuses_query_breakers() {
    assert_eq!(request_url("A#B", "GB", "abc").unwrap_err(), WeatherError::UrlConstruction);
    assert_eq!(request_url("A", "G&B", "abc").unwrap_err(), WeatherError::UrlConstruction);
    assert_eq!(request_url("A", "GB", "ab\nc").unwrap_err(), WeatherError::UrlConstruction);
    assert_eq!(request_url("A#B", "GB", "").unwrap_err(), WeatherError::Config);
    let url = request_url("São Paulo", "BR", "abc").unwrap();
    assert_eq!(url.host_str(), Some("api.openweathermap.org"));
}

#[test]
fn query_breaker_bytes() {
    assert!(has_query_breaker("#"));
    assert!(has_query_breaker("a&b"));
    assert!(has_query_breaker("a\tb"));
    assert!(has_query_breaker("a\rb"));
    assert!(!has_query_breaker(""));
    assert!(!has_query_breaker("New York, São Paulo"));
}

#[test]
fn render_london_scenario() {
    let text = render(&london()).unwrap();
    assert!(text.contains("London, GB"));
    assert!(text.contains("wind direction: E\n"));
    assert!(text.contains("sunrise:        12:26:40 UTC"));
    assert!(text.contains("sunset:         23:33:20 UTC"));
    assert!(text.contains("humidity:       80%"));
    assert_eq!(
        text,
        "location:       London, GB\n\
         temperature:    15ºC\n\
         feels like:     14ºC\n\
         humidity:       80%\n\
         wind:           3m/s\n\
         wind direction: E\n\
         sunrise:        12:26:40 UTC\n\
         sunset:         23:33:20 UTC\n"
    );
}

#[test]
fn render_rejects_sunset_out_of_calendar() {
    let mut r = london();
    r.sunset = u64::MAX;
    assert_eq!(render(&r), Err(WeatherError::TimeConversion));
    let mut r = london();
    r.sunrise = 8210266876800;
    assert_eq!(render(&r), Err(WeatherError::TimeConversion));
    r.sunrise = 8210266876799;
    assert!(render(&r).unwrap().contains("sunrise:        23:59:59 UTC"));
}

#[test]
fn error_descriptions_are_not_empty() {
    for e in [
        WeatherError::Config,
        WeatherError::Argument,
        WeatherError::UrlConstruction,
        WeatherError::Network,
        WeatherError::Decode,
        WeatherError::TimeConversion,
    ] {
        assert!(!e.describe().is_empty());
    }
}
