//! Points in time, rendered through chrono.
//!
//! A timestamp is a count of non-leap microseconds since the UNIX epoch. The
//! two renderings the run record needs — RFC 3339 with microseconds, and the
//! default date display — are chrono's work, named here and computed behind
//! trusted wrappers.

use vstd::prelude::*;

verus! {

/// The RFC 3339 rendering, with microsecond precision and a trailing `Z`, of
/// the UTC point in time `micros` non-leap microseconds from the UNIX epoch.
pub uninterp spec fn rfc3339_utc_micros(micros: i64) -> Seq<char>;

/// The default display rendering (date, time and the `UTC` suffix) of the UTC
/// point in time `micros` non-leap microseconds from the UNIX epoch.
pub uninterp spec fn utc_date_display(micros: i64) -> Seq<char>;

/// A point in time: non-leap microseconds since the UNIX epoch, within the
/// years 1 to 9999.
#[derive(Clone, Copy, PartialEq, Eq, Structural, Debug)]
pub struct Timestamp {
    pub epoch_micros: i64,
}

/// Microsecond counts of the first instant of year 1 and the last of year
/// 9999: a range chrono's documentation guarantees to be representable.
pub open spec fn in_date_range(micros: i64) -> bool {
    -62_135_596_800_000_000 <= micros <= 253_402_300_799_999_999
}

impl Timestamp {
    pub open spec fn wf(&self) -> bool {
        in_date_range(self.epoch_micros)
    }

    /// A timestamp from a microsecond count within the years 1 to 9999.
    pub fn new(epoch_micros: i64) -> (t: Timestamp)
        requires
            in_date_range(epoch_micros),
        ensures
            t.epoch_micros == epoch_micros,
            t.wf(),
    {
        Timestamp { epoch_micros }
    }

    /// The RFC 3339 rendering of the timestamp, with microsecond precision
    /// and a trailing `Z`.
    pub fn to_rfc3339_micros(&self) -> (r: String)
        requires
            self.wf(),
        ensures
            r@ == rfc3339_utc_micros(self.epoch_micros),
    {
        match format_rfc3339_micros(self.epoch_micros) {
            Some(s) => s,
            None => vstd::pervasive::unreached(),
        }
    }

    /// The default display rendering of the timestamp: date, time and the
    /// `UTC` suffix.
    pub fn to_date_string(&self) -> (r: String)
        requires
            self.wf(),
        ensures
            r@ == utc_date_display(self.epoch_micros),
    {
        match format_utc_date_display(self.epoch_micros) {
            Some(s) => s,
            None => vstd::pervasive::unreached(),
        }
    }
}

/// Relies on chrono's `DateTime::<Utc>::from_timestamp_micros`, which its
/// documentation says returns `None` only when the microsecond count is out
/// of range (more than about 262,000 years from the common era) — the years 1
/// to 9999 are far inside — and on `DateTime::to_rfc3339_opts` with
/// `SecondsFormat::Micros` and `use_z`, whose result depends on the
/// microsecond count alone.
#[verifier::external_body]
fn format_rfc3339_micros(micros: i64) -> (r: Option<String>)
    ensures
        r matches Some(s) ==> s@ == rfc3339_utc_micros(micros),
        in_date_range(micros) ==> r is Some,
{
    match chrono::DateTime::<chrono::Utc>::from_timestamp_micros(micros) {
        Some(d) => Some(d.to_rfc3339_opts(chrono::SecondsFormat::Micros, true)),
        None => None,
    }
}

/// Relies on chrono's `DateTime::<Utc>::from_timestamp_micros` (see
/// `format_rfc3339_micros`) and on the `Display` rendering of a
/// `DateTime<Utc>`, whose result depends on the microsecond count alone.
#[verifier::external_body]
fn format_utc_date_display(micros: i64) -> (r: Option<String>)
    ensures
        r matches Some(s) ==> s@ == utc_date_display(micros),
        in_date_range(micros) ==> r is Some,
{
    match chrono::DateTime::<chrono::Utc>::from_timestamp_micros(micros) {
        Some(d) => Some(d.to_string()),
        None => None,
    }
}

} // verus!
