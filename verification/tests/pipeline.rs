//! Tests of the lookup pipeline: coordinate splitting, URL derivation,
//! and field mapping from a decoded timings response.

use prayer_times_applet::request::{build_timings_url, derive_request, FetchError};
use prayer_times_applet::coords::split_coords;
use prayer_times_applet::PrayerTimes;

#[test]
fn splits_well_formed_pair() {
    let (lat, long) = split_coords("40.7,-74.0").unwrap();
    assert_eq!(lat, "40.7");
    assert_eq!(long, "-74.0");
}

#[test]
fn splits_on_first_comma_only() {
    let (lat, long) = split_coords("1.5,2.5,3.5").unwrap();
    assert_eq!(lat, "1.5");
    assert_eq!(long, "2.5,3.5");
}

#[test]
fn splits_bare_comma_into_empty_halves() {
    let (lat, long) = split_coords(",").unwrap();
    assert_eq!(lat, "");
    assert_eq!(long, "");
}

#[test]
fn rejects_missing_comma() {
    assert_eq!(split_coords("40.7 -74.0"), None);
    assert_eq!(split_coords(""), None);
}

#[test]
fn builds_url_exactly() {
    let url = build_timings_url("DD-MM-YYYY", "40.7", "-74.0");
    assert_eq!(
        url,
        "http://api.aladhan.com/v1/timings/DD-MM-YYYY?latitude=40.7&longitude=-74.0"
    );
}

#[test]
fn derives_request_with_coordinates_verbatim() {
    let url = derive_request("40.7,-74.0").unwrap();
    assert_eq!(
        url,
        "http://api.aladhan.com/v1/timings/DD-MM-YYYY?latitude=40.7&longitude=-74.0"
    );
}

#[test]
fn derive_request_fails_deterministically_without_comma() {
    assert_eq!(
        derive_request("40.7 -74.0"),
        Err(FetchError::MalformedCoordinates)
    );
    assert_eq!(
        derive_request("40.7 -74.0"),
        Err(FetchError::MalformedCoordinates)
    );
}

#[test]
fn maps_fields_from_json_fixture_verbatim() {
    let body = "{\"code\":200,\"status\":\"OK\",\"data\":{\"timings\":{\
                 \"Fajr\":\"05:12\",\"Sunrise\":\"06:40\",\"Dhuhr\":\"12:05\",\
                 \"Asr\":\"15:20\",\"Maghrib\":\"17:30\",\"Isha\":\"18:55\"}}}";
    let v: serde_json::Value = serde_json::from_str(body).unwrap();
    let timings = &v["data"]["timings"];
    let field = |name: &str| timings[name].as_str().unwrap().to_string();
    let t = PrayerTimes::from_fields(
        field("Fajr"),
        field("Sunrise"),
        field("Dhuhr"),
        field("Asr"),
        field("Maghrib"),
        field("Isha"),
    );
    assert_eq!(t.fajr, "05:12");
    assert_eq!(t.sunrise, "06:40");
    assert_eq!(t.dhuhr, "12:05");
    assert_eq!(t.asr, "15:20");
    assert_eq!(t.maghrib, "17:30");
    assert_eq!(t.isha, "18:55");
}

#[test]
fn identical_responses_give_identical_times() {
    let make = || {
        PrayerTimes::from_fields(
            "05:12".to_string(),
            "06:40".to_string(),
            "12:05".to_string(),
            "15:20".to_string(),
            "17:30".to_string(),
            "18:55".to_string(),
        )
    };
    let t1 = make();
    let t2 = make();
    assert_eq!(t1.fajr, t2.fajr);
    assert_eq!(t1.sunrise, t2.sunrise);
    assert_eq!(t1.dhuhr, t2.dhuhr);
    assert_eq!(t1.asr, t2.asr);
    assert_eq!(t1.maghrib, t2.maghrib);
    assert_eq!(t1.isha, t2.isha);
    let u1 = derive_request("40.7,-74.0").unwrap();
    let u2 = derive_request("40.7,-74.0").unwrap();
    assert_eq!(u1, u2);
}

#[test]
fn error_messages_name_each_failure() {
    assert_eq!(
        FetchError::MalformedCoordinates.message(),
        "coordinate pair holds no comma"
    );
    assert_eq!(FetchError::Transport.message(), "network transport failure");
    assert_eq!(
        FetchError::HttpStatus(500).message(),
        "non-success HTTP status"
    );
    assert_eq!(FetchError::Decode.message(), "response failed to decode");
}
