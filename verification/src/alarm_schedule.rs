use crate::sql::{offset_whole_seconds, utc_offset_of, ModelAlarm, ModelTimezone};
use time::UtcOffset;
use vstd::prelude::*;

verus! {

/// The alarms and the time zone that the alarm loop checks the clock against.
#[derive(Debug)]
pub struct AlarmSchedule {
    alarms: Vec<ModelAlarm>,
    zone: ZoneSetting,
}

/// A time zone together with its offset from UTC.
#[derive(Debug)]
struct ZoneSetting {
    time_zone: ModelTimezone,
    offset: UtcOffset,
}

impl ZoneSetting {
    /// The zone's stored components are in range, and the offset is always the one
    /// built from them.
    #[verifier::type_invariant]
    spec fn offset_matches(self) -> bool {
        &&& self.time_zone.offset_valid()
        &&& self.offset == utc_offset_of(
            self.time_zone.offset_hour,
            self.time_zone.offset_minute,
            self.time_zone.offset_second,
        )
    }

    fn new(time_zone: ModelTimezone) -> (res: Self)
        requires
            time_zone.offset_valid(),
        ensures
            res.time_zone == time_zone,
    {
        let offset = time_zone.utc_offset();
        ZoneSetting { time_zone, offset }
    }
}

/// The abstract state of an [`AlarmSchedule`].
pub struct AlarmScheduleView {
    pub alarms: Seq<ModelAlarm>,
    pub time_zone: ModelTimezone,
}

/// The local week day (0 is Monday), hour and minute that the alarm loop reads
/// from the clock.
#[derive(Debug, Clone, Copy, PartialEq, Eq)]
pub struct LocalMoment {
    pub weekday: u8,
    pub hour: u8,
    pub minute: u8,
}

/// Seconds in a day.
pub const SECONDS_PER_DAY: i128 = 86400;

/// A whole number of weeks, in seconds, by which Unix times are shifted so that
/// every local time of an `i64` moment is counted from a positive number.
pub const WEEKS_SHIFT: i128 = 10_639_754_119_662_796_800;

/// The local week day (0 is Monday), hour and minute at Unix time `unix_seconds`
/// where the offset from UTC is `offset_seconds`, as the `time` crate reads them off
/// a date-time moved to that offset: 1 January 1970 was a Thursday, each day has
/// 86400 seconds, each hour 3600, each minute 60.
pub open spec fn local_moment_at(unix_seconds: int, offset_seconds: int) -> LocalMoment {
    let local = unix_seconds + offset_seconds;
    LocalMoment {
        weekday: ((local / 86400 + 3) % 7) as u8,
        hour: ((local % 86400) / 3600) as u8,
        minute: ((local % 3600) / 60) as u8,
    }
}

proof fn lemma_shift_by_weeks(local: int, weeks: int)
    ensures
        (local + weeks * 604800) / 86400 == local / 86400 + weeks * 7,
        (local + weeks * 604800) % 86400 == local % 86400,
        (local + weeks * 604800) % 3600 == local % 3600,
{
}

impl LocalMoment {
    /// The local week day, hour and minute at Unix time `unix_seconds`, where the
    /// offset from UTC is `offset_seconds`.
    pub fn of(unix_seconds: i64, offset_seconds: i32) -> (res: LocalMoment)
        ensures
            res == local_moment_at(unix_seconds as int, offset_seconds as int),
            res.weekday < 7,
            res.hour < 24,
            res.minute < 60,
    {
        let local: i128 = unix_seconds as i128 + offset_seconds as i128;
        let shifted: i128 = local + WEEKS_SHIFT;
        let t: u128 = shifted as u128;
        proof {
            lemma_shift_by_weeks(local as int, 17592186044416);
        }
        let weekday: u128 = (t / 86400 + 3) % 7;
        let hour: u128 = (t % 86400) / 3600;
        let minute: u128 = (t % 3600) / 60;
        proof {
            assert((t / 86400 + 3) % 7 == (local / 86400 + 3) % 7) by {
                assert(t / 86400 == local / 86400 + 17592186044416 * 7);
            }
        }
        LocalMoment { weekday: weekday as u8, hour: hour as u8, minute: minute as u8 }
    }
}

/// Whether `alarm` is set for the week day, hour and minute of `now`.
pub open spec fn alarm_matches(alarm: ModelAlarm, now: LocalMoment) -> bool {
    alarm.day == now.weekday && alarm.hour == now.hour && alarm.minute == now.minute
}

/// An alarm fires only at the week day, hour and minute it is set for: it matches a
/// local moment exactly when its day equals the moment's week day and its hour and
/// minute equal the moment's; no alarm matches a moment on another week day, at
/// another hour or at another minute.
pub proof fn lemma_alarm_matches_only_its_time(alarm: ModelAlarm, now: LocalMoment)
    ensures
        alarm_matches(alarm, now) ==> alarm.day == now.weekday,
        alarm_matches(alarm, now) ==> alarm.hour == now.hour,
        alarm_matches(alarm, now) ==> alarm.minute == now.minute,
        alarm.day == now.weekday && alarm.hour == now.hour && alarm.minute == now.minute
            ==> alarm_matches(alarm, now),
        alarm.day != now.weekday ==> !alarm_matches(alarm, now),
{
}

/// Some alarm of a list is set for a moment exactly when one of them has the
/// moment's week day, hour and minute.
pub proof fn lemma_some_alarm_matches_by_fields(alarms: Seq<ModelAlarm>, now: LocalMoment)
    ensures
        some_alarm_matches(alarms, now) <==> exists|i: int|
            0 <= i < alarms.len() && (#[trigger] alarms[i]).day == now.weekday && alarms[i].hour
                == now.hour && alarms[i].minute == now.minute,
{
    if some_alarm_matches(alarms, now) {
        let i = choose|i: int| 0 <= i < alarms.len() && alarm_matches(#[trigger] alarms[i], now);
        assert(alarms[i].day == now.weekday);
    }
    if exists|i: int|
        0 <= i < alarms.len() && (#[trigger] alarms[i]).day == now.weekday && alarms[i].hour
            == now.hour && alarms[i].minute == now.minute {
        let i = choose|i: int|
            0 <= i < alarms.len() && (#[trigger] alarms[i]).day == now.weekday && alarms[i].hour
                == now.hour && alarms[i].minute == now.minute;
        assert(alarm_matches(alarms[i], now));
    }
}

/// Whether some alarm of `alarms` is set for `now`.
pub open spec fn some_alarm_matches(alarms: Seq<ModelAlarm>, now: LocalMoment) -> bool {
    exists|i: int| 0 <= i < alarms.len() && alarm_matches(#[trigger] alarms[i], now)
}

/// `after` is `before` with its first alarm whose id is `id` taken out, or `before`
/// itself where no alarm has that id.
pub open spec fn removed_first_with_id(before: Seq<ModelAlarm>, after: Seq<ModelAlarm>, id: i64) -> bool {
    if exists|i: int| 0 <= i < before.len() && (#[trigger] before[i]).alarm_id == id {
        exists|k: int|
            0 <= k < before.len() && (#[trigger] before[k]).alarm_id == id && (forall|j: int|
                0 <= j < k ==> (#[trigger] before[j]).alarm_id != id) && after == before.remove(k)
    } else {
        after == before
    }
}

/// No two alarms of `alarms` share an id, as the table's primary key ensures.
pub open spec fn ids_unique(alarms: Seq<ModelAlarm>) -> bool {
    forall|i: int, j: int|
        0 <= i < alarms.len() && 0 <= j < alarms.len() && i != j ==> (#[trigger] alarms[i]).alarm_id
            != (#[trigger] alarms[j]).alarm_id
}

/// Removing an alarm by id from alarms whose ids are unique leaves no alarm with that
/// id, keeps every other alarm, and keeps the ids unique.
pub proof fn lemma_remove_unique_id(before: Seq<ModelAlarm>, after: Seq<ModelAlarm>, id: i64)
    requires
        ids_unique(before),
        removed_first_with_id(before, after, id),
    ensures
        forall|i: int| 0 <= i < after.len() ==> (#[trigger] after[i]).alarm_id != id,
        forall|i: int|
            0 <= i < before.len() && (#[trigger] before[i]).alarm_id != id ==> after.contains(before[i]),
        forall|i: int| 0 <= i < after.len() ==> before.contains(#[trigger] after[i]),
        ids_unique(after),
{
    if exists|i: int| 0 <= i < before.len() && (#[trigger] before[i]).alarm_id == id {
        let k = choose|k: int|
            0 <= k < before.len() && (#[trigger] before[k]).alarm_id == id && (forall|j: int|
                0 <= j < k ==> (#[trigger] before[j]).alarm_id != id) && after == before.remove(k);
        assert forall|i: int| 0 <= i < after.len() implies (#[trigger] after[i]).alarm_id != id by {
            if i < k {
                assert(after[i] == before[i]);
            } else {
                assert(after[i] == before[i + 1]);
            }
        }
        assert forall|i: int|
            0 <= i < before.len() && (#[trigger] before[i]).alarm_id != id implies after.contains(
            before[i]) by {
            if i < k {
                assert(after[i] == before[i]);
            } else {
                assert(after[i - 1] == before[i]);
            }
        }
        assert forall|i: int| 0 <= i < after.len() implies before.contains(#[trigger] after[i]) by {
            if i < k {
                assert(after[i] == before[i]);
            } else {
                assert(after[i] == before[i + 1]);
            }
        }
        assert forall|i: int, j: int|
            0 <= i < after.len() && 0 <= j < after.len() && i != j implies (#[trigger] after[i]).alarm_id
            != (#[trigger] after[j]).alarm_id by {
            let bi = if i < k { i } else { i + 1 };
            let bj = if j < k { j } else { j + 1 };
            assert(after[i] == before[bi]);
            assert(after[j] == before[bj]);
        }
    } else {
        assert forall|i: int| 0 <= i < after.len() implies before.contains(#[trigger] after[i]) by {
            assert(after[i] == before[i]);
        }
        assert forall|i: int|
            0 <= i < before.len() && (#[trigger] before[i]).alarm_id != id implies after.contains(
            before[i]) by {
            assert(after[i] == before[i]);
        }
    }
}

/// The offset from UTC, in seconds, of the time zone `time_zone`.
pub open spec fn zone_offset_seconds(time_zone: ModelTimezone) -> int {
    offset_whole_seconds(time_zone.offset_hour, time_zone.offset_minute, time_zone.offset_second)
}

/// A Unix time in week `week` (counted from the week of 1 January 1970, which began
/// on Monday 29 December 1969) at which the local time, at an offset of
/// `offset_seconds` from UTC, is the week day, hour and minute of `alarm`.
pub open spec fn alarm_unix_time(alarm: ModelAlarm, week: int, offset_seconds: int) -> int {
    week * 604800 + ((alarm.day + 4) % 7) * 86400 + alarm.hour * 3600 + alarm.minute * 60
        - offset_seconds
}

/// Every alarm comes round once a week: in each week there is a moment whose local
/// week day, hour and minute are those the alarm is set for.
pub proof fn lemma_alarm_time_comes_weekly(alarm: ModelAlarm, week: int, offset_seconds: int)
    requires
        alarm.day < 7,
        alarm.hour < 24,
        alarm.minute < 60,
    ensures
        alarm_matches(alarm, local_moment_at(alarm_unix_time(alarm, week, offset_seconds), offset_seconds)),
{
    let d = (alarm.day + 4) % 7;
    let r = alarm.hour * 3600 + alarm.minute * 60;
    let local = week * 604800 + d * 86400 + r;
    assert(local == (week * 7 + d) * 86400 + r);
    assert(local / 86400 == week * 7 + d && local % 86400 == r) by {
        vstd::arithmetic::div_mod::lemma_fundamental_div_mod_converse(local, 86400, week * 7 + d, r);
    }
    assert((week * 7 + d + 3) % 7 == (d + 3) % 7) by {
        vstd::arithmetic::div_mod::lemma_mod_multiples_vanish(week, d + 3, 7);
    }
    assert(local % 3600 == alarm.minute * 60) by {
        vstd::arithmetic::div_mod::lemma_fundamental_div_mod_converse(
            local,
            3600,
            (week * 7 + d) * 24 + alarm.hour,
            alarm.minute * 60,
        );
    }
}

impl View for AlarmSchedule {
    type V = AlarmScheduleView;

    closed spec fn view(&self) -> AlarmScheduleView {
        AlarmScheduleView { alarms: self.alarms@, time_zone: self.zone.time_zone }
    }
}

impl AlarmSchedule {
    /// A schedule of the given alarms, checked against the given time zone.
    pub fn new(alarms: Vec<ModelAlarm>, time_zone: ModelTimezone) -> (res: Self)
        requires
            time_zone.offset_valid(),
        ensures
            res@.alarms == alarms@,
            res@.time_zone == time_zone,
    {
        AlarmSchedule { alarms, zone: ZoneSetting::new(time_zone) }
    }

    /// The offset from UTC of the schedule's time zone.
    pub fn offset(&self) -> (res: UtcOffset)
        ensures
            res == utc_offset_of(
                self@.time_zone.offset_hour,
                self@.time_zone.offset_minute,
                self@.time_zone.offset_second,
            ),
    {
        proof {
            use_type_invariant(&self.zone);
        }
        self.zone.offset
    }

    /// The local week day, hour and minute at Unix time `unix_seconds` in the
    /// schedule's time zone.
    pub fn local_moment(&self, unix_seconds: i64) -> (res: LocalMoment)
        ensures
            res == local_moment_at(unix_seconds as int, zone_offset_seconds(self@.time_zone)),
    {
        proof {
            use_type_invariant(&self.zone);
        }
        LocalMoment::of(unix_seconds, self.zone.time_zone.offset_seconds())
    }

    /// One tick of the alarm loop at Unix time `unix_seconds`: whether an alarm fires
    /// now, that is, whether the light is off and some alarm is set for the local week
    /// day, hour and minute of that moment in the schedule's time zone.
    pub fn due_at(&self, unix_seconds: i64, light_on: bool) -> (res: bool)
        ensures
            res == (!light_on && some_alarm_matches(
                self@.alarms,
                local_moment_at(unix_seconds as int, zone_offset_seconds(self@.time_zone)),
            )),
    {
        self.alarm_due(self.local_moment(unix_seconds), light_on)
    }

    /// The alarms of the schedule.
    pub fn alarms(&self) -> (res: &Vec<ModelAlarm>)
        ensures
            res@ == self@.alarms,
    {
        &self.alarms
    }

    /// The time zone of the schedule.
    pub fn time_zone(&self) -> (res: &ModelTimezone)
        ensures
            *res == self@.time_zone,
    {
        &self.zone.time_zone
    }

    /// Remove all alarms from vector
    pub fn clear_all(&mut self)
        ensures
            final(self)@.alarms == Seq::<ModelAlarm>::empty(),
            final(self)@.time_zone == old(self)@.time_zone,
    {
        self.alarms.clear();
    }

    /// Clear current alarms, and set the alarms read from the database as self.alarms
    /// Also update + replace timezone + offset
    pub fn refresh_alarms(&mut self, alarms: Vec<ModelAlarm>, time_zone: ModelTimezone)
        requires
            time_zone.offset_valid(),
        ensures
            final(self)@.alarms == alarms@,
            final(self)@.time_zone == time_zone,
    {
        self.clear_all();
        self.alarms = alarms;
        self.refresh_timezone(time_zone);
    }

    /// Store the time zone read from the database, also update offset
    pub fn refresh_timezone(&mut self, time_zone: ModelTimezone)
        requires
            time_zone.offset_valid(),
        ensures
            final(self)@.alarms == old(self)@.alarms,
            final(self)@.time_zone == time_zone,
    {
        self.zone = ZoneSetting::new(time_zone);
    }

    /// Remove alarm from vector by id
    pub fn remove_alarm(&mut self, id: i64)
        ensures
            removed_first_with_id(old(self)@.alarms, final(self)@.alarms, id),
            final(self)@.time_zone == old(self)@.time_zone,
    {
        let len = self.alarms.len();
        let mut index: usize = 0;
        while index < len
            invariant
                len == self.alarms.len(),
                index <= len,
                self.alarms@ == old(self).alarms@,
                self.zone.time_zone == old(self).zone.time_zone,
                forall|j: int| 0 <= j < index ==> (#[trigger] self.alarms@[j]).alarm_id != id,
            decreases len - index,
        {
            if self.alarms[index].alarm_id == id {
                let ghost before = self.alarms@;
                self.alarms.remove(index);
                assert(before[index as int].alarm_id == id);
                assert(exists|i: int| 0 <= i < before.len() && (#[trigger] before[i]).alarm_id == id);
                return;
            }
            index = index + 1;
        }
    }

    /// The decision of one tick of the alarm loop: whether the light is to be
    /// switched on now. An alarm fires when it is set for the current local week day,
    /// hour and minute and the light is off; once one fires the light is on, so at
    /// most one fires per tick.
    pub fn alarm_due(&self, now: LocalMoment, light_on: bool) -> (res: bool)
        ensures
            res == (!light_on && some_alarm_matches(self@.alarms, now)),
            res ==> exists|i: int|
                0 <= i < self@.alarms.len() && (#[trigger] self@.alarms[i]).day == now.weekday
                    && self@.alarms[i].hour == now.hour && self@.alarms[i].minute == now.minute,
    {
        if light_on {
            return false;
        }
        let len = self.alarms.len();
        let mut index: usize = 0;
        while index < len
            invariant
                len == self.alarms.len(),
                index <= len,
                !light_on,
                forall|j: int| 0 <= j < index ==> !alarm_matches(#[trigger] self.alarms@[j], now),
            decreases len - index,
        {
            let alarm = &self.alarms[index];
            if alarm.day == now.weekday && alarm.hour == now.hour && alarm.minute == now.minute {
                assert(alarm_matches(self.alarms@[index as int], now));
                assert(self@.alarms == self.alarms@);
                return true;
            }
            index = index + 1;
        }
        assert(self@.alarms == self.alarms@);
        false
    }
}

} // verus!
