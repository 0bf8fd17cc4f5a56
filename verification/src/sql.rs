use time::error::ComponentRange;
use time::{OffsetDateTime, UtcOffset};
use time_tz::{Offset, TimeZone};
use vstd::prelude::*;

verus! {

#[verifier::external_type_specification]
#[verifier::external_body]
pub struct ExUtcOffset(UtcOffset);

#[verifier::external_type_specification]
#[verifier::external_body]
pub struct ExComponentRange(ComponentRange);

/// A row of the `alarm` table: an alarm at `hour:minute` on week day `day`
/// (0 is Monday).
#[derive(Debug, Clone, Copy, PartialEq, Eq)]
pub struct ModelAlarm {
    pub alarm_id: i64,
    pub day: u8,
    pub hour: u8,
    pub minute: u8,
}

/// The single row of the `timezone` table: the zone's name and its offset from UTC.
#[derive(Debug, Clone)]
pub struct ModelTimezone {
    pub timezone_id: i64,
    pub zone_name: String,
    pub offset_hour: i8,
    pub offset_minute: i8,
    pub offset_second: i8,
}

/// The components that `time::UtcOffset::from_hms` accepts: hours within ±25,
/// minutes and seconds within ±59.
pub open spec fn offset_in_range(hour: i8, minute: i8, second: i8) -> bool {
    &&& -25 <= hour <= 25
    &&& -59 <= minute <= 59
    &&& -59 <= second <= 59
}

/// The offsets that `time::UtcOffset::from_hms` accepts reach 25 hours, 59 minutes
/// and 59 seconds either side of UTC, so every offset in use on Earth (from -12:00
/// to +14:00) is accepted; 26 hours, 60 minutes or 60 seconds either way are refused.
pub proof fn lemma_offset_range()
    ensures
        forall|h: i8| -25 <= h <= 25 ==> #[trigger] offset_in_range(h, 0i8, 0i8),
        forall|m: i8, s: i8|
            -59 <= m <= 59 && -59 <= s <= 59 ==> #[trigger] offset_in_range(0i8, m, s),
        offset_in_range(13i8, 0i8, 0i8),
        offset_in_range(14i8, 0i8, 0i8),
        offset_in_range(-12i8, 0i8, 0i8),
        offset_in_range(-25i8, -59i8, -59i8),
        offset_in_range(25i8, 59i8, 59i8),
        offset_in_range(5i8, 45i8, 0i8),
        offset_in_range(-9i8, -30i8, 0i8),
        forall|m: i8, s: i8| !#[trigger] offset_in_range(26i8, m, s) && !offset_in_range(-26i8, m, s),
        forall|h: i8, s: i8| !#[trigger] offset_in_range(h, 60i8, s) && !offset_in_range(h, -60i8, s),
        forall|h: i8, m: i8| !#[trigger] offset_in_range(h, m, 60i8) && !offset_in_range(h, m, -60i8),
{
}

/// The offset that `time::UtcOffset::from_hms` builds from in-range components.
pub uninterp spec fn utc_offset_of(hour: i8, minute: i8, second: i8) -> UtcOffset;

/// Calls `time::UtcOffset::from_hms`. Its source checks each component against
/// the ranges of `offset_in_range` and fails exactly when one lies outside them;
/// otherwise it builds the offset from the three components alone, which
/// `utc_offset_of` names. What that offset holds is not stated here (the crate keeps
/// the hours and flips the signs of minutes and seconds to match, as
/// `offset_whole_seconds` counts).
#[verifier::external_body]
fn utc_offset_from_hms(hour: i8, minute: i8, second: i8) -> (res: Result<UtcOffset, ComponentRange>)
    ensures
        res is Ok <==> offset_in_range(hour, minute, second),
        res matches Ok(offset) ==> offset == utc_offset_of(hour, minute, second),
{
    UtcOffset::from_hms(hour, minute, second)
}

/// Whether `name` ends with `.db`, the suffix of the database files that are
/// created where missing.
pub open spec fn is_db_file_name(name: Seq<char>) -> bool {
    name.len() >= 3 && name.subrange(name.len() - 3, name.len() as int) == seq!['.', 'd', 'b']
}

/// `dir` is the directory part of `name`: the prefix of `name` up to and including
/// its last `/`, or empty where `name` holds no `/`.
pub open spec fn is_directory_part(name: Seq<char>, dir: Seq<char>) -> bool {
    &&& dir.len() <= name.len()
    &&& dir == name.take(dir.len() as int)
    &&& (dir.len() == 0 || dir.last() == '/')
    &&& forall|i: int| dir.len() <= i < name.len() ==> name[i] != '/'
}

/// The directory to create before the database file `filename`: `None` where the
/// name does not end with `.db` (no file is created then), else the name's
/// directory part, the concatenation of its `/`-terminated pieces.
pub fn db_directory(filename: &str) -> (res: Option<String>)
    ensures
        res is None <==> !is_db_file_name(filename@),
        res matches Some(dir) ==> is_directory_part(filename@, dir@),
{
    let len = filename.unicode_len();
    if len < 3 || filename.get_char(len - 3) != '.' || filename.get_char(len - 2) != 'd'
        || filename.get_char(len - 1) != 'b' {
        proof {
            if len >= 3 && is_db_file_name(filename@) {
                let tail = filename@.subrange(len - 3, len as int);
                assert(tail[0] == filename@[len - 3]);
                assert(tail[1] == filename@[len - 2]);
                assert(tail[2] == filename@[len - 1]);
            }
        }
        return None;
    }
    assert(filename@.subrange(len - 3, len as int) == seq!['.', 'd', 'b']);
    let mut k: usize = len;
    while k > 0 && filename.get_char(k - 1) != '/'
        invariant
            len == filename@.len(),
            k <= len,
            forall|i: int| k <= i < len ==> filename@[i] != '/',
        decreases k,
    {
        k = k - 1;
    }
    let dir = filename.substring_char(0, k).to_owned();
    assert(dir@ == filename@.take(k as int));
    Some(dir)
}

/// The earliest Unix time, in seconds, that the `time` crate represents: the start
/// of the year -9999.
pub const UNIX_SECONDS_MIN: i64 = -377_705_116_800;

/// The latest Unix time, in seconds, that the `time` crate represents: the last
/// second of the year 9999.
pub const UNIX_SECONDS_MAX: i64 = 253_402_300_799;

/// The offset from UTC, as hours, minutes and seconds, that the zone named `zone` of
/// the `time_tz` database has at Unix time `unix_seconds`; `None` where the database
/// does not know the name (an IANA name such as "Europe/Berlin", or a Windows zone
/// name).
pub uninterp spec fn zone_offset_hms(zone: Seq<char>, unix_seconds: i64) -> Option<(i8, i8, i8)>;

/// Looks the zone up with `time_tz::timezones::get_by_name`, then asks it with
/// `time_tz::TimeZone::get_offset_utc` and `time_tz::Offset::to_utc` for its offset
/// at the moment `unix_seconds` (turned into a date-time by
/// `time::OffsetDateTime::from_unix_timestamp`), given as `time::UtcOffset::as_hms`
/// gives it. The tables are static, so the result depends on the name and the moment
/// alone, which `zone_offset_hms` names. The crate keeps the three components in
/// types ranged to ±25 hours and ±59 minutes and seconds. Within the moments the
/// `time` crate represents, the conversion succeeds, and the crate's search of the
/// zone's spans covers every moment; the hours, minutes and seconds themselves come
/// from the zone's tables and are not stated.
#[verifier::external_body]
fn zone_offset_at(zone: &str, unix_seconds: i64) -> (res: Option<(i8, i8, i8)>)
    requires
        UNIX_SECONDS_MIN <= unix_seconds <= UNIX_SECONDS_MAX,
    ensures
        res == zone_offset_hms(zone@, unix_seconds),
        res matches Some(hms) ==> offset_in_range(hms.0, hms.1, hms.2),
{
    let tz = time_tz::timezones::get_by_name(zone)?;
    let at = OffsetDateTime::from_unix_timestamp(unix_seconds).unwrap();
    Some(tz.get_offset_utc(&at).to_utc().as_hms())
}

/// The offset in seconds east of UTC that `time::UtcOffset::from_hms` builds from
/// in-range components: it keeps the hours, gives the minutes the sign of the hours
/// where they differ, then the seconds the sign of the larger components, and
/// `whole_seconds` adds them up.
pub open spec fn offset_whole_seconds(hour: i8, minute: i8, second: i8) -> int {
    let minute = if (hour > 0 && minute < 0) || (hour < 0 && minute > 0) {
        -minute
    } else {
        minute as int
    };
    let second = if (hour > 0 && second < 0) || (hour < 0 && second > 0) || (minute > 0
        && second < 0) || (minute < 0 && second > 0) {
        -second
    } else {
        second as int
    };
    hour * 3600 + minute * 60 + second
}

/// The id of the single row of the `timezone` table.
pub const TIMEZONE_ROW_ID: i64 = 1;

impl ModelTimezone {
    /// The row to store for the zone named `zone` at Unix time `unix_seconds`: its
    /// name with the offset it has at that moment; `None` where the zone is unknown.
    pub fn for_zone(zone: String, unix_seconds: i64) -> (res: Option<ModelTimezone>)
        requires
            UNIX_SECONDS_MIN <= unix_seconds <= UNIX_SECONDS_MAX,
        ensures
            res is Some <==> zone_offset_hms(zone@, unix_seconds) is Some,
            res matches Some(tz) ==> {
                &&& tz.zone_name@ == zone@
                &&& tz.timezone_id == TIMEZONE_ROW_ID
                &&& Some((tz.offset_hour, tz.offset_minute, tz.offset_second))
                    == zone_offset_hms(zone@, unix_seconds)
                &&& tz.offset_valid()
            },
    {
        let (offset_hour, offset_minute, offset_second) = match zone_offset_at(
            zone.as_str(),
            unix_seconds,
        ) {
            Some(hms) => hms,
            None => return None,
        };
        Some(
            ModelTimezone {
                timezone_id: TIMEZONE_ROW_ID,
                zone_name: zone,
                offset_hour,
                offset_minute,
                offset_second,
            },
        )
    }

    /// Whether the stored offset can be turned into a `UtcOffset`.
    pub open spec fn offset_valid(&self) -> bool {
        offset_in_range(self.offset_hour, self.offset_minute, self.offset_second)
    }

    /// Whether the stored offset can be turned into a `UtcOffset`.
    pub fn has_valid_offset(&self) -> (res: bool)
        ensures
            res == self.offset_valid(),
    {
        -25 <= self.offset_hour && self.offset_hour <= 25 && -59 <= self.offset_minute
            && self.offset_minute <= 59 && -59 <= self.offset_second && self.offset_second <= 59
    }

    /// The stored offset in seconds east of UTC, as `time::UtcOffset` counts it.
    pub fn offset_seconds(&self) -> (res: i32)
        requires
            self.offset_valid(),
        ensures
            res == offset_whole_seconds(self.offset_hour, self.offset_minute, self.offset_second),
    {
        let h = self.offset_hour as i32;
        let mut m = self.offset_minute as i32;
        let mut s = self.offset_second as i32;
        if (h > 0 && m < 0) || (h < 0 && m > 0) {
            m = -m;
        }
        if (h > 0 && s < 0) || (h < 0 && s > 0) || (m > 0 && s < 0) || (m < 0 && s > 0) {
            s = -s;
        }
        h * 3600 + m * 60 + s
    }

    /// The stored offset as a `time::UtcOffset`.
    pub fn utc_offset(&self) -> (res: UtcOffset)
        requires
            self.offset_valid(),
        ensures
            res == utc_offset_of(self.offset_hour, self.offset_minute, self.offset_second),
    {
        utc_offset_from_hms(self.offset_hour, self.offset_minute, self.offset_second).unwrap()
    }
}

} // verus!
