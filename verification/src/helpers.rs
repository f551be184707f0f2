//! What the payload builders share: the language of a locale, the screen and
//! the campaign of an event, maps without blank values, time zone offsets and
//! timestamps.

use crate::dict::StringMap;
use crate::event::{Campaign, Client, Event};
use crate::gosquared::{opt_view, CampaignInfo, CampaignInfoView, ScreenInfo};
use crate::text::{after_prefix, before_first, blank, i32_of, is_blank, parse_i32, prefix_before};
use chrono::{DateTime, Offset, TimeZone};
use chrono_tz::Tz;
use std::time::{Duration, SystemTimeError, UNIX_EPOCH};
use vstd::prelude::*;
use vstd::string::*;

verus! {

/// Whether `name` is a zone of the time zone database, such as
/// `Europe/Paris`. This is what `chrono_tz::Tz::from_str` accepts.
pub uninterp spec fn is_zone_name(name: Seq<char>) -> bool;

/// The offset from UTC, in seconds, that the time zone database gives the
/// zone `name` at the instant `unix_seconds`. This is what
/// `chrono_tz::Tz::offset_from_utc_datetime` finds. Nothing where `name` is
/// no zone or the instant lies beyond the calendar of `chrono`.
pub uninterp spec fn zone_offset_at(name: Seq<char>, unix_seconds: int) -> Option<i32>;

/// The timestamp that `chrono` writes for `unix_seconds` in UTC, in the
/// format of RFC 3339, where it can represent that instant.
pub uninterp spec fn rfc3339_utc(unix_seconds: int) -> Option<Seq<char>>;

/// The last second of the year 9999.
pub const LAST_FOUR_DIGIT_SECOND: i64 = 253_402_300_799;

/// The error with which std tells that a time lies before another.
#[verifier::external_type_specification]
#[verifier::external_body]
pub struct ExSystemTimeError(SystemTimeError);

/// Reads the clock: the time since the start of 1970, or, where the clock
/// stands before 1970, the error that holds the time until it. This is
/// `std::time::SystemTime::elapsed` on `UNIX_EPOCH`. Nothing is claimed of
/// what comes back.
#[verifier::external_body]
fn since_unix_epoch() -> (r: Result<Duration, SystemTimeError>) {
    UNIX_EPOCH.elapsed()
}

/// The whole seconds of a duration. Nothing is claimed of them.
pub assume_specification[ Duration::as_secs ](duration: &Duration) -> (r: u64);

/// How far before the other time a time lies. Nothing is claimed of it.
pub assume_specification[ SystemTimeError::duration ](error: &SystemTimeError) -> (r: Duration);

/// The offset from UTC, in seconds, of the zone `tz_string` at the instant
/// `unix_seconds`.
///
/// Calls `chrono_tz::Tz::from_str`, makes the instant with
/// `chrono::DateTime::from_timestamp` and `DateTime::naive_utc`, calls
/// `Tz::offset_from_utc_datetime`, and reads the offset with `Offset::fix` and
/// `FixedOffset::local_minus_utc`. Claimed of them: the offset is a function
/// of the name and the instant alone, the database being part of the crate; a
/// value comes back only for a name that `from_str` accepts, and for each such
/// name at every instant from 1970 to the end of the year 9999; and it lies
/// within a day, which is the range of a `FixedOffset`.
#[verifier::external_body]
fn zone_offset_seconds_at(tz_string: &str, unix_seconds: i64) -> (r: Option<i32>)
    ensures
        r == zone_offset_at(tz_string@, unix_seconds as int),
        r is Some ==> is_zone_name(tz_string@),
        is_zone_name(tz_string@) && 0 <= unix_seconds <= LAST_FOUR_DIGIT_SECOND ==> r is Some,
        r matches Some(s) ==> -86_400 < s < 86_400,
{
    match (tz_string.parse::<Tz>(), DateTime::from_timestamp(unix_seconds, 0)) {
        (Ok(tz), Some(at)) => Some(
            tz.offset_from_utc_datetime(&at.naive_utc()).fix().local_minus_utc(),
        ),
        _ => None,
    }
}

/// The RFC 3339 timestamp of `unix_seconds` in UTC.
///
/// Calls `chrono::DateTime::from_timestamp` with no nanoseconds, then
/// `DateTime::to_rfc3339`. Claimed of them: the text is a function of the
/// seconds alone, and every instant from 1970 to the end of the year 9999 has
/// one, the calendar of `chrono` reaching far beyond that year.
#[verifier::external_body]
fn rfc3339_from_unix_seconds(unix_seconds: i64) -> (r: Option<String>)
    ensures
        opt_view(r) == rfc3339_utc(unix_seconds as int),
        0 <= unix_seconds <= LAST_FOUR_DIGIT_SECOND ==> r is Some,
{
    match DateTime::from_timestamp(unix_seconds, 0) {
        Some(at) => Some(at.to_rfc3339()),
        None => None,
    }
}

/// Whole minutes of an offset in seconds, rounded towards zero.
pub open spec fn minutes_of(seconds: i32) -> i32 {
    if seconds >= 0 {
        (seconds / 60) as i32
    } else {
        (-((-seconds) / 60)) as i32
    }
}

/// The offset in minutes that a text of the form `UTC+2` or `UTC-11` states:
/// the letters `UTC`, then a whole number of hours that may carry a sign.
/// Nothing where the text has another form or the minutes exceed an `i32`.
pub open spec fn utc_offset_minutes(s: Seq<char>) -> Option<i32> {
    if "UTC"@.is_prefix_of(s) {
        match i32_of(s.skip("UTC"@.len() as int)) {
            Some(hours) => if i32::MIN <= hours * 60 <= i32::MAX {
                Some((hours * 60) as i32)
            } else {
                None
            },
            None => None,
        }
    } else {
        None
    }
}

/// The offset in minutes of the text `text`, given the offset in seconds
/// that the time zone database has for it, if it has one: that offset in
/// whole minutes, else what the text states as `UTC` and hours.
pub open spec fn offset_minutes_of(zone_seconds: Option<i32>, text: Seq<char>) -> Option<i32> {
    match zone_seconds {
        Some(seconds) => Some(minutes_of(seconds)),
        None => utc_offset_minutes(text),
    }
}

/// The offset in minutes of the text `text` at the instant `now`.
pub open spec fn timezone_offset(text: Seq<char>, now: int) -> Option<i32> {
    offset_minutes_of(zone_offset_at(text, now), text)
}

/// The instant that a reading of the clock stands for, in seconds since the
/// start of 1970. The reading is the whole seconds since then as `Ok`, or,
/// where the clock stands before 1970, the whole seconds until then as `Err`.
/// The instant is negative in that case, and never further from 1970 than an
/// `i64` reaches.
pub open spec fn instant_of(reading: Result<u64, u64>) -> i64 {
    match reading {
        Ok(since) => if since <= i64::MAX {
            since as i64
        } else {
            i64::MAX
        },
        Err(before) => if before <= i64::MAX {
            (-(before as int)) as i64
        } else {
            (-(i64::MAX as int)) as i64
        },
    }
}

/// The instant that a reading of the clock stands for.
pub fn unix_seconds(reading: Result<u64, u64>) -> (r: i64)
    ensures
        r == instant_of(reading),
{
    match reading {
        Ok(since) => if since <= 0x7FFF_FFFF_FFFF_FFFF {
            since as i64
        } else {
            i64::MAX
        },
        Err(before) => if before <= 0x7FFF_FFFF_FFFF_FFFF {
            0 - (before as i64)
        } else {
            0 - i64::MAX
        },
    }
}

/// The offset of `tz_string` in minutes, given the offset in seconds that the
/// time zone database has for it, if it has one.
pub fn offset_minutes(zone_seconds: Option<i32>, tz_string: &str) -> (r: Option<i32>)
    ensures
        r == offset_minutes_of(zone_seconds, tz_string@),
{
    if let Some(seconds) = zone_seconds {
        return Some(seconds / 60);
    }
    match after_prefix(tz_string, "UTC") {
        Some(rest) => {
            assert(rest@ == tz_string@.skip("UTC"@.len() as int));
            match parse_i32(rest) {
                Some(hours) => hours.checked_mul(60),
                None => None,
            }
        },
        None => None,
    }
}

/// The offset of a time zone from UTC, in minutes, at the instant `now`,
/// given in seconds since the start of 1970: that which the zone has then
/// where `tz_string` names one, else that which a text such as `UTC+2`
/// states, else nothing.
pub fn timezone_offset_at(tz_string: &str, now: i64) -> (r: Option<i32>)
    ensures
        r == timezone_offset(tz_string@, now as int),
        !is_zone_name(tz_string@) ==> r == utc_offset_minutes(tz_string@),
        is_zone_name(tz_string@) && 0 <= now <= LAST_FOUR_DIGIT_SECOND ==> (r matches Some(m)
            && -1440 < m < 1440),
{
    let zone_seconds = zone_offset_seconds_at(tz_string, now);
    offset_minutes(zone_seconds, tz_string)
}

/// The offset of a time zone from UTC, in minutes, as it is now: the result
/// of `timezone_offset_at` at the instant that the clock shows.
pub fn timezone_offset_from_string(tz_string: &str) -> (r: Option<i32>)
    ensures
        exists|now: i64| r == #[trigger] timezone_offset(tz_string@, now as int),
        !is_zone_name(tz_string@) ==> r == utc_offset_minutes(tz_string@),
{
    let reading = match since_unix_epoch() {
        Ok(since) => Ok(since.as_secs()),
        Err(before) => Err(before.duration().as_secs()),
    };
    let now = unix_seconds(reading);
    let r = timezone_offset_at(tz_string, now);
    assert(r == timezone_offset(tz_string@, now as int));
    r
}

/// The time at which a user was last seen, as an RFC 3339 timestamp; nothing
/// where `last_seen` is not positive.
pub fn format_last_seen_as_iso(last_seen: i64) -> (r: Option<String>)
    ensures
        opt_view(r) == (if last_seen <= 0 {
            None
        } else {
            rfc3339_utc(last_seen as int)
        }),
        0 < last_seen <= LAST_FOUR_DIGIT_SECOND ==> r is Some,
{
    if last_seen <= 0 {
        return None;
    }
    rfc3339_from_unix_seconds(last_seen)
}

/// Gives `key` the value `value` unless the value is blank.
pub fn insert_if_nonempty(map: &mut StringMap, key: &str, value: &str)
    ensures
        final(map)@ == (if is_blank(value@) {
            old(map)@
        } else {
            old(map)@.insert(key@, value@)
        }),
{
    if !blank(value) {
        map.insert(String::from_str(key), String::from_str(value));
    }
}

/// The language of a locale: what stands before its first hyphen.
pub fn parse_language(locale: &str) -> (r: Option<String>)
    ensures
        opt_view(r) == Some(before_first(locale@, '-')),
{
    Some(prefix_before(locale, '-'))
}

/// The screen that a device reports: its height, width and density; the
/// colour depth is never known.
pub open spec fn screen_of(client: Client) -> ScreenInfo {
    ScreenInfo {
        height: client.screen_height,
        width: client.screen_width,
        pixel_ratio: Some(client.screen_density),
        depth: None,
    }
}

/// The campaign of an event, field by field.
pub open spec fn campaign_of(campaign: Campaign) -> CampaignInfoView {
    CampaignInfoView {
        name: campaign.name@,
        source: campaign.source@,
        medium: campaign.medium@,
        content: campaign.content@,
        term: campaign.term@,
    }
}

/// The screen of the device on which the event happened.
pub fn screen_from_event(event: &Event) -> (r: ScreenInfo)
    ensures
        r == screen_of(event.context.client),
{
    ScreenInfo {
        height: event.context.client.screen_height,
        width: event.context.client.screen_width,
        pixel_ratio: Some(event.context.client.screen_density),
        depth: None,
    }
}

/// The campaign of the event, blank fields included.
pub fn campaign_from_event(event: &Event) -> (r: CampaignInfo)
    ensures
        r@ == campaign_of(event.context.campaign),
{
    CampaignInfo {
        name: event.context.campaign.name.clone(),
        source: event.context.campaign.source.clone(),
        medium: event.context.campaign.medium.clone(),
        content: event.context.campaign.content.clone(),
        term: event.context.campaign.term.clone(),
    }
}

} // verus!
