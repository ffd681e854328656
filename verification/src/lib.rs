//! Prayer-time lookup pipeline: resolves a coordinate pair from a
//! geolocation response, builds the prayer-times request, and manages
//! the displayed timings for a panel applet front-end.

pub mod coords;
pub mod request;
pub mod state;

use vstd::prelude::*;

verus! {

/// The six canonical daily prayer time-of-day values, each a
/// human-readable string taken verbatim from the timings response.
#[derive(Debug, Clone)]
pub struct PrayerTimes {
    pub fajr: String,
    pub sunrise: String,
    pub dhuhr: String,
    pub asr: String,
    pub maghrib: String,
    pub isha: String,
}

/// The observable content of a `PrayerTimes` value: the six field
/// strings as character sequences.
pub ghost struct PrayerTimesView {
    pub fajr: Seq<char>,
    pub sunrise: Seq<char>,
    pub dhuhr: Seq<char>,
    pub asr: Seq<char>,
    pub maghrib: Seq<char>,
    pub isha: Seq<char>,
}

impl View for PrayerTimes {
    type V = PrayerTimesView;

    open spec fn view(&self) -> PrayerTimesView {
        PrayerTimesView {
            fajr: self.fajr@,
            sunrise: self.sunrise@,
            dhuhr: self.dhuhr@,
            asr: self.asr@,
            maghrib: self.maghrib@,
            isha: self.isha@,
        }
    }
}

/// The view assembled from six timing strings taken verbatim.
pub open spec fn times_view(
    fajr: Seq<char>,
    sunrise: Seq<char>,
    dhuhr: Seq<char>,
    asr: Seq<char>,
    maghrib: Seq<char>,
    isha: Seq<char>,
) -> PrayerTimesView {
    PrayerTimesView { fajr, sunrise, dhuhr, asr, maghrib, isha }
}

impl PrayerTimes {
    /// Assembles the record from the six decoded timing strings, each
    /// kept verbatim: no transformation, no timezone conversion.
    pub fn from_fields(
        fajr: String,
        sunrise: String,
        dhuhr: String,
        asr: String,
        maghrib: String,
        isha: String,
    ) -> (t: PrayerTimes)
        ensures
            t@ == times_view(fajr@, sunrise@, dhuhr@, asr@, maghrib@, isha@),
    {
        PrayerTimes { fajr, sunrise, dhuhr, asr, maghrib, isha }
    }
}

/// Fetching twice over identical upstream responses is idempotent: two
/// records assembled from the same six timing strings display the same
/// six values.
pub proof fn lemma_fetch_idempotent(
    t1: PrayerTimes,
    t2: PrayerTimes,
    fajr: Seq<char>,
    sunrise: Seq<char>,
    dhuhr: Seq<char>,
    asr: Seq<char>,
    maghrib: Seq<char>,
    isha: Seq<char>,
)
    requires
        t1@ == times_view(fajr, sunrise, dhuhr, asr, maghrib, isha),
        t2@ == times_view(fajr, sunrise, dhuhr, asr, maghrib, isha),
    ensures
        t1@ == t2@,
{
}

} // verus!
