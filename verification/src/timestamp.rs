//! Points in time and named time zones, held as plain numbers and text.
//!
//! Reading a timestamp and printing one are left to `chrono` and `chrono-tz`.
//! Their results are named here by spec functions without a body, so that
//! contracts can say which text was parsed and which text was printed without
//! restating either crate's rules.

use chrono::DateTime;
use chrono::FixedOffset;
use chrono::TimeZone;
use chrono_tz::Tz;
use std::str::FromStr;
use vstd::prelude::*;

verus! {

/// Seconds since the Unix epoch of the first instant of the earliest day `chrono` can hold.
pub const MIN_SECS: i64 = -8_334_601_228_800;

/// Seconds since the Unix epoch of the last second of the latest day `chrono` can hold.
pub const MAX_SECS: i64 = 8_210_266_876_799;

/// A point in time together with the UTC offset it was written in.
///
/// `secs` counts non-leap seconds since the Unix epoch, `nanos` the nanoseconds
/// into that second, and `offset` the seconds by which local time is ahead of
/// UTC. A leap second is the 59th second of a minute with `nanos` of one
/// thousand million or more.
pub struct Moment {
    pub secs: int,
    pub nanos: int,
    pub offset: int,
}

impl Moment {
    /// The moments that a `chrono::DateTime<FixedOffset>` can hold.
    pub open spec fn representable(self) -> bool {
        &&& MIN_SECS <= self.secs <= MAX_SECS
        &&& 0 <= self.nanos < 2_000_000_000
        &&& (self.nanos >= 1_000_000_000 ==> self.secs % 60 == 59)
        &&& -86_400 < self.offset < 86_400
    }
}

/// The moment that `chrono::DateTime::parse_from_rfc3339` reads from `text`, as
/// seconds, nanoseconds and offset; `None` where it rejects the text.
pub uninterp spec fn rfc3339_moment(text: Seq<char>) -> Option<(int, int, int)>;

/// The text that `chrono` prints for a `DateTime<FixedOffset>` at the given
/// seconds and nanoseconds, in the given offset.
pub uninterp spec fn offset_text(secs: int, nanos: int, offset: int) -> Seq<char>;

/// Whether `chrono-tz` knows a time zone by exactly this name.
pub uninterp spec fn zone_known(name: Seq<char>) -> bool;

/// The text that `chrono` prints for the instant at the given seconds and
/// nanoseconds once it is moved into the time zone that `chrono-tz` knows by
/// `zone`.
pub uninterp spec fn zoned_text(secs: int, nanos: int, zone: Seq<char>) -> Seq<char>;

/// The moment written in `text`, where it is RFC 3339 and representable.
pub open spec fn parsed_moment(text: Seq<char>) -> Option<Moment> {
    match rfc3339_moment(text) {
        Some((secs, nanos, offset)) => {
            let moment = Moment { secs, nanos, offset };
            if moment.representable() {
                Some(moment)
            } else {
                None
            }
        },
        None => None,
    }
}

/// Calls `chrono::DateTime::parse_from_rfc3339` and takes the result apart with
/// `timestamp`, `timestamp_subsec_nanos` and the offset's `local_minus_utc`.
/// Trusted: the three numbers are those named by `rfc3339_moment`, and a
/// rejected text gives `None`.
#[verifier::external_body]
fn parse_rfc3339(text: &str) -> (parts: Option<(i64, u32, i32)>)
    ensures
        parts matches Some(p) ==> rfc3339_moment(text@) == Some((p.0 as int, p.1 as int, p.2 as int)),
        parts is None ==> rfc3339_moment(text@) is None,
{
    match DateTime::parse_from_rfc3339(text) {
        Ok(dt) => Some((dt.timestamp(), dt.timestamp_subsec_nanos(), dt.offset().local_minus_utc())),
        Err(_) => None,
    }
}

/// Rebuilds the `DateTime<FixedOffset>` with `FixedOffset::east_opt` and
/// `TimeZone::timestamp_opt`, and prints it with `to_string`. Trusted: the
/// text is the one named by `offset_text`. The `requires` keeps to the values
/// for which both constructors return a value.
#[verifier::external_body]
fn offset_string(secs: i64, nanos: u32, offset: i32) -> (out: String)
    requires
        (Moment { secs: secs as int, nanos: nanos as int, offset: offset as int }).representable(),
    ensures
        out@ == offset_text(secs as int, nanos as int, offset as int),
{
    FixedOffset::east_opt(offset).unwrap().timestamp_opt(secs, nanos).unwrap().to_string()
}

/// Looks `name` up with `chrono_tz::Tz::from_str`. Trusted: the answer is the
/// one named by `zone_known`.
#[verifier::external_body]
fn zone_exists(name: &str) -> (known: bool)
    ensures
        known == zone_known(name@),
{
    Tz::from_str(name).is_ok()
}

/// Rebuilds the `DateTime<FixedOffset>` as `offset_string` does, moves it into
/// the zone with `DateTime::with_timezone`, and prints it with `to_string`.
/// Trusted: the text is the one named by `zoned_text`; it does not depend on
/// `offset`, because `with_timezone` reads only the UTC date and time.
#[verifier::external_body]
fn zoned_string(secs: i64, nanos: u32, offset: i32, zone: &str) -> (out: String)
    requires
        (Moment { secs: secs as int, nanos: nanos as int, offset: offset as int }).representable(),
        zone_known(zone@),
    ensures
        out@ == zoned_text(secs as int, nanos as int, zone@),
{
    let tz = Tz::from_str(zone).unwrap();
    FixedOffset::east_opt(offset).unwrap().timestamp_opt(secs, nanos).unwrap().with_timezone(&tz).to_string()
}

/// A named time zone that `chrono-tz` knows.
#[derive(Debug)]
pub struct Zone {
    name: String,
}

impl Clone for Zone {
    fn clone(&self) -> (zone: Zone)
        ensures
            zone@ == self@,
    {
        proof {
            use_type_invariant(self);
        }
        Zone { name: self.name.clone() }
    }
}

impl View for Zone {
    type V = Seq<char>;

    closed spec fn view(&self) -> Seq<char> {
        self.name@
    }
}

impl Zone {
    #[verifier::type_invariant]
    spec fn known(self) -> bool {
        zone_known(self.name@)
    }

    /// The zone called `name`, where there is one.
    pub fn parse(name: &str) -> (zone: Option<Zone>)
        ensures
            zone is Some <==> zone_known(name@),
            zone matches Some(z) ==> z@ == name@,
    {
        if zone_exists(name) {
            Some(Zone { name: name.to_owned() })
        } else {
            None
        }
    }

    /// The name the zone was found by, which is a known one.
    pub fn name(&self) -> (name: &str)
        ensures
            name@ == self@,
            zone_known(name@),
    {
        proof {
            use_type_invariant(self);
        }
        self.name.as_str()
    }

}

/// A timestamp with a fixed UTC offset.
#[derive(Clone, Copy, Debug)]
pub struct Timestamp {
    secs: i64,
    nanos: u32,
    offset: i32,
}

impl View for Timestamp {
    type V = Moment;

    closed spec fn view(&self) -> Moment {
        Moment { secs: self.secs as int, nanos: self.nanos as int, offset: self.offset as int }
    }
}

impl Timestamp {
    #[verifier::type_invariant]
    spec fn valid(self) -> bool {
        self@.representable()
    }

    /// The timestamp with these parts, where `chrono` can hold it.
    pub fn new(secs: i64, nanos: u32, offset: i32) -> (ts: Option<Timestamp>)
        ensures
            ts is Some <==> (Moment {
                secs: secs as int,
                nanos: nanos as int,
                offset: offset as int,
            }).representable(),
            ts matches Some(t) ==> t@ == (Moment {
                secs: secs as int,
                nanos: nanos as int,
                offset: offset as int,
            }),
    {
        if secs < MIN_SECS || secs > MAX_SECS {
            return None;
        }
        if nanos >= 2_000_000_000 {
            return None;
        }
        if nanos >= 1_000_000_000 && secs.checked_rem_euclid(60) != Some(59) {
            return None;
        }
        if offset <= -86_400 || offset >= 86_400 {
            return None;
        }
        Some(Timestamp { secs, nanos, offset })
    }

    /// Reads an RFC 3339 date and time.
    pub fn parse(text: &str) -> (ts: Option<Timestamp>)
        ensures
            ts is Some <==> parsed_moment(text@) is Some,
            ts matches Some(t) ==> Some(t@) == parsed_moment(text@),
    {
        match parse_rfc3339(text) {
            Some((secs, nanos, offset)) => Timestamp::new(secs, nanos, offset),
            None => None,
        }
    }

    /// Seconds since the Unix epoch, within the representable range.
    pub fn secs(&self) -> (secs: i64)
        ensures
            secs == self@.secs,
            self@.representable(),
    {
        proof {
            use_type_invariant(self);
        }
        self.secs
    }

    /// Nanoseconds into the second.
    pub fn nanos(&self) -> (nanos: u32)
        ensures
            nanos == self@.nanos,
    {
        self.nanos
    }

    /// Seconds by which local time is ahead of UTC.
    pub fn offset(&self) -> (offset: i32)
        ensures
            offset == self@.offset,
    {
        self.offset
    }

    /// The date and time in the timestamp's own offset.
    pub fn to_text(&self) -> (out: String)
        ensures
            out@ == offset_text(self@.secs, self@.nanos, self@.offset),
    {
        proof {
            use_type_invariant(self);
        }
        offset_string(self.secs, self.nanos, self.offset)
    }

    /// The date and time as the clocks of `zone` show it.
    pub fn to_text_in(&self, zone: &Zone) -> (out: String)
        ensures
            out@ == zoned_text(self@.secs, self@.nanos, zone@),
    {
        proof {
            use_type_invariant(self);
        }
        zoned_string(self.secs, self.nanos, self.offset, zone.name())
    }
}

} // verus!
