//! The current time, in the local time zone or in a given one.
use vstd::prelude::*;

use crate::errors::{error_with, Error};
use crate::text::str_eq;

verus! {

/// The time zone in which the time is shown.
#[derive(Clone, Debug)]
pub enum TimeZone {
    Utc,
    Local,
    /// A zone of the tz database, such as `Europe/Amsterdam`.
    TimeZone(String),
}

impl Default for TimeZone {
    fn default() -> (res: TimeZone)
        ensures
            res is Local,
    {
        TimeZone::Local
    }
}

/// Whether the tz database of `chrono_tz` has a zone named `name`.
pub uninterp spec fn tz_name_known(name: Seq<char>) -> bool;

/// Looks the zone `name` up with `chrono_tz`'s `Tz::from_str`, which
/// succeeds exactly where the name is one of its zones; the claim is that
/// the answer depends on the name alone.
#[verifier::external_body]
fn tz_known(name: &str) -> (res: bool)
    ensures
        res == tz_name_known(name@),
{
    name.parse::<chrono_tz::Tz>().is_ok()
}

/// Whether `s` is one of the names of UTC.
pub open spec fn is_utc_name(s: Seq<char>) -> bool {
    s == "utc"@ || s == "UTC"@ || s == "Utc"@
}

/// Whether `s` is one of the names of the local zone.
pub open spec fn is_local_name(s: Seq<char>) -> bool {
    s == "local"@ || s == "Local"@
}

impl TimeZone {
    /// The zone `s` where `known` tells that the tz database has it, else
    /// `"Bad timezone format"`.
    pub fn from_lookup(s: &str, known: bool) -> (res: Result<TimeZone, Error>)
        ensures
            known ==> (res matches Ok(TimeZone::TimeZone(z)) && z@ == s@),
            !known ==> (res matches Err(e) && e@ == error_with("Bad timezone format"@)),
    {
        if known {
            Ok(TimeZone::TimeZone(s.to_owned()))
        } else {
            Err(Error::new("Bad timezone format"))
        }
    }

    /// Reads a time zone: `utc`, `UTC` or `Utc`; `local` or `Local`; or the
    /// name of a zone of the tz database.
    pub fn try_from(s: &str) -> (res: Result<TimeZone, Error>)
        ensures
            is_utc_name(s@) ==> res matches Ok(TimeZone::Utc),
            is_local_name(s@) ==> res matches Ok(TimeZone::Local),
            !is_utc_name(s@) && !is_local_name(s@) && tz_name_known(s@) ==> (res matches Ok(
                TimeZone::TimeZone(z),
            ) && z@ == s@),
            !is_utc_name(s@) && !is_local_name(s@) && !tz_name_known(s@) ==> (res matches Err(e) && e@
                == error_with("Bad timezone format"@)),
    {
        proof {
            reveal_strlit("utc");
            reveal_strlit("UTC");
            reveal_strlit("Utc");
            reveal_strlit("local");
            reveal_strlit("Local");
        }
        if str_eq(s, "utc") || str_eq(s, "UTC") || str_eq(s, "Utc") {
            assert(s@.len() == 3 && "local"@.len() == 5 && "Local"@.len() == 5);
            return Ok(TimeZone::Utc);
        }
        if str_eq(s, "local") || str_eq(s, "Local") {
            return Ok(TimeZone::Local);
        }
        let known = tz_known(s);
        TimeZone::from_lookup(s, known)
    }
}

/// The settings of the time module.
#[derive(Clone, Debug)]
pub struct Config {
    /// The `strftime` format of the time.
    pub format: String,
    pub timezone: TimeZone,
}

impl Default for Config {
    fn default() -> (res: Config)
        ensures
            res.format@ == "%Y-%m-%d %H:%M %Z"@,
            res.timezone is Local,
    {
        Config { format: String::from_str("%Y-%m-%d %H:%M %Z"), timezone: TimeZone::Local }
    }
}

} // verus!
