//! Banners: the recruitments that the game runs for a time.

use vstd::prelude::*;
use chrono::NaiveDateTime;

verus! {

/// A date and a time of day without a time zone, of the crate `chrono`. The library
/// hands such values on and does not look inside them.
#[verifier::external_type_specification]
#[verifier::external_body]
pub struct ExNaiveDateTime(NaiveDateTime);

/// The date and time, in UTC, that lies `millis` milliseconds after the start of
/// 1970, as `NaiveDateTime::from_timestamp_millis` of the crate `chrono` gives it;
/// none where that moment is further from our time than `chrono` can hold.
pub uninterp spec fn utc_datetime(millis: i64) -> Option<NaiveDateTime>;

/// Trusted: wraps `NaiveDateTime::from_timestamp_millis`, which computes its result
/// from the number alone and returns `None`, without failing, for a moment out of
/// its range. The result is named [`utc_datetime`]; nothing more is claimed of it.
#[verifier::external_body]
#[allow(deprecated)]
fn datetime_from_millis(millis: i64) -> (moment: Option<NaiveDateTime>)
    ensures
        moment == utc_datetime(millis),
{
    NaiveDateTime::from_timestamp_millis(millis)
}

/// The kind of recruitment that a banner runs.
#[derive(Debug, Clone, Copy, PartialEq, Eq, Structural)]
pub enum Gacha {
    /// A recruitment with raised chances for some students.
    Pickup,
    /// A recruitment of students who can be had for a time only.
    Limited,
    /// A festival recruitment.
    Fes,
}

impl Gacha {
    /// How the kind of recruitment is written.
    pub open spec fn label(&self) -> Seq<char> {
        match self {
            Gacha::Pickup => "Pickup"@,
            Gacha::Limited => "Limited"@,
            Gacha::Fes => "Fes"@,
        }
    }

    /// The kind of recruitment as text.
    pub fn to_string(&self) -> (text: String)
        ensures
            text@ == self.label(),
    {
        match self {
            Gacha::Pickup => "Pickup".to_owned(),
            Gacha::Limited => "Limited".to_owned(),
            Gacha::Fes => "Fes".to_owned(),
        }
    }
}

/// A banner: a recruitment that runs from one moment to another.
#[derive(Debug)]
pub struct Banner {
    /// The kind of recruitment.
    pub gacha_type: Gacha,
    /// When the banner starts, in milliseconds since the start of 1970.
    pub start_at: i64,
    /// When the banner ends, in milliseconds since the start of 1970.
    pub end_at: i64,
    /// The names of the students whose chances are raised.
    pub rateup_student_names: Vec<String>,
}

impl Banner {
    /// When the banner starts (or started), in UTC.
    pub fn starts(&self) -> (moment: Option<NaiveDateTime>)
        ensures
            moment == utc_datetime(self.start_at),
    {
        datetime_from_millis(self.start_at)
    }

    /// When the banner ends (or ended), in UTC.
    pub fn ends(&self) -> (moment: Option<NaiveDateTime>)
        ensures
            moment == utc_datetime(self.end_at),
    {
        datetime_from_millis(self.end_at)
    }
}

/// The banners of the game: those that run, those to come and those that are over.
#[derive(Debug)]
pub struct Banners {
    pub current: Vec<Banner>,
    pub upcoming: Vec<Banner>,
    pub ended: Vec<Banner>,
}

} // verus!
