//! Request derivation: turns the geolocation response's coordinate
//! string into the prayer-times endpoint URL, with the date token and
//! both coordinates embedded unmodified.

use vstd::prelude::*;
use crate::coords::{has_comma, lat_of, long_of, split_coords};

verus! {

/// One variant per failure class of the fetch pipeline: a coordinate
/// pair without a comma, a network transport failure, a non-success
/// HTTP status, and a response body that failed to decode.
#[derive(Debug, Clone, PartialEq, Eq, Structural)]
pub enum FetchError {
    MalformedCoordinates,
    Transport,
    HttpStatus(u16),
    Decode,
}

impl FetchError {
    /// A short human-readable description of the failure.
    pub fn message(&self) -> (m: &'static str)
        ensures
            m@ == match self {
                FetchError::MalformedCoordinates => "coordinate pair holds no comma"@,
                FetchError::Transport => "network transport failure"@,
                FetchError::HttpStatus(_) => "non-success HTTP status"@,
                FetchError::Decode => "response failed to decode"@,
            },
    {
        match self {
            FetchError::MalformedCoordinates => "coordinate pair holds no comma",
            FetchError::Transport => "network transport failure",
            FetchError::HttpStatus(_) => "non-success HTTP status",
            FetchError::Decode => "response failed to decode",
        }
    }
}

/// The timings endpoint URL for a date token and a coordinate pair.
pub open spec fn timings_url_spec(date: Seq<char>, lat: Seq<char>, long: Seq<char>) -> Seq<char> {
    "http://api.aladhan.com/v1/timings/"@ + date + "?latitude="@ + lat + "&longitude="@ + long
}

/// Builds the prayer-times request URL, embedding the date token and
/// the two coordinates unmodified.
pub fn build_timings_url(date: &str, lat: &str, long: &str) -> (r: String)
    ensures
        r@ == timings_url_spec(date@, lat@, long@),
{
    let mut url = String::from_str("http://api.aladhan.com/v1/timings/");
    url.append(date);
    url.append("?latitude=");
    url.append(lat);
    url.append("&longitude=");
    url.append(long);
    proof {
        assert(url@ =~= timings_url_spec(date@, lat@, long@));
    }
    url
}

/// Relies on chrono's `DateTime::format` with strftime parsing: a
/// pattern holding no `%` is read as literal items and emitted
/// verbatim, so the token is the pattern itself, whatever instant
/// `chrono::Local::now` returns. The pattern is not a recognised
/// substitution directive, so the upstream request carries this literal
/// text where a date belongs; that observed behaviour is kept
/// deliberately rather than corrected, since the endpoint's tolerance
/// for a real date here is unknown.
#[verifier::external_body]
fn format_date_token() -> (r: String)
    ensures
        r@ == "DD-MM-YYYY"@,
{
    chrono::Local::now().format("DD-MM-YYYY").to_string()
}

/// The request URL derived from a coordinate string: the timings
/// endpoint with the literal date token and the coordinate halves.
pub open spec fn request_url_spec(loc: Seq<char>) -> Seq<char> {
    timings_url_spec("DD-MM-YYYY"@, lat_of(loc), long_of(loc))
}

/// Derives the prayer-times request URL from the geolocation response's
/// coordinate string. Fails, with `MalformedCoordinates`, exactly when
/// the string holds no comma.
pub fn derive_request(loc: &str) -> (r: Result<String, FetchError>)
    ensures
        r is Ok <==> has_comma(loc@),
        r matches Ok(url) ==> url@ == request_url_spec(loc@),
        r matches Err(e) ==> e == FetchError::MalformedCoordinates,
{
    match split_coords(loc) {
        None => Err(FetchError::MalformedCoordinates),
        Some((lat, long)) => {
            let date = format_date_token();
            Ok(build_timings_url(date.as_str(), lat.as_str(), long.as_str()))
        },
    }
}

} // verus!
