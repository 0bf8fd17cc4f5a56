pub mod connection_details;
pub mod message_handler;

use crate::alarm_schedule::{local_moment_at, zone_offset_seconds, LocalMoment};
use crate::sql::{ModelAlarm, ModelTimezone};
use crate::sysinfo::SysInfo;
use vstd::prelude::*;

verus! {

/// Everything the clients are told about the Pi in a status message.
#[derive(Debug, Clone)]
pub struct PiStatus {
    pub info: SysInfo,
    pub alarms: Vec<ModelAlarm>,
    pub connected_for: u64,
}

/// A message sent to the clients.
#[derive(Debug, Clone)]
pub enum Response {
    /// Whether the light is on.
    LedStatus { status: bool },
    /// The full status of the Pi.
    Status(PiStatus),
}

impl PiStatus {
    /// The status from the system information, the alarms, and the seconds the
    /// websocket connection has been up.
    pub fn new(info: SysInfo, alarms: Vec<ModelAlarm>, connected_for: u64) -> (res: Self)
        ensures
            res.info == info,
            res.alarms@ == alarms@,
            res.connected_for == connected_for,
    {
        PiStatus { info, alarms, connected_for }
    }
}

/// The first local hour at which a new connection is greeted with a rainbow.
pub const RAINBOW_FIRST_HOUR: u8 = 7;

/// The last local hour at which a new connection is greeted with a rainbow.
pub const RAINBOW_LAST_HOUR: u8 = 10;

/// Whether a connection made at local hour `hour` is greeted with a rainbow: from
/// 7 to 10 o'clock inclusive.
pub fn rainbow_on_connect(hour: u8) -> (res: bool)
    ensures
        res == (RAINBOW_FIRST_HOUR <= hour <= RAINBOW_LAST_HOUR),
{
    RAINBOW_FIRST_HOUR <= hour && hour <= RAINBOW_LAST_HOUR
}

/// Whether a connection made at Unix time `unix_seconds` is greeted with a rainbow:
/// when the local hour in the stored time zone is from 7 to 10 o'clock inclusive.
pub fn rainbow_at_connection(unix_seconds: i64, time_zone: &ModelTimezone) -> (res: bool)
    requires
        time_zone.offset_valid(),
    ensures
        res == (RAINBOW_FIRST_HOUR <= local_moment_at(
            unix_seconds as int,
            zone_offset_seconds(*time_zone),
        ).hour <= RAINBOW_LAST_HOUR),
{
    let now = LocalMoment::of(unix_seconds, time_zone.offset_seconds());
    rainbow_on_connect(now.hour)
}

} // verus!
