//! Verified core of the belugasnooze Raspberry Pi alarm-light client.

pub mod alarm_schedule;
pub mod light;
pub mod logging;
pub mod sql;
pub mod sysinfo;
pub mod text;
pub mod thread_channel;
pub mod ws;
