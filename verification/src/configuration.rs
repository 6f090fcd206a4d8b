//! Settings of the two programs, as an operator writes them down.

use vstd::prelude::*;

verus! {

/// The value an `active` switch takes where the settings leave it out.
pub fn _true() -> (b: bool)
    ensures
        b,
{
    true
}

/// Settings of the morning switch-off.
#[derive(Debug)]
pub struct TurningMorningLightsOffConfig {
    pub active: bool,
    pub duration: u32,
    /// Time of day of the switch-off, written as hours, minutes and seconds.
    pub off_time: Option<String>,
    /// Minutes after sunrise of the switch-off; used where `off_time` is absent.
    pub after_sunrise: Option<i64>,
    /// Minutes after the switch-off time during which it may still happen.
    pub last_call_after_scheduled_off: u32,
}

/// Settings of the evening ramp.
#[derive(Debug)]
pub struct ControlEveningLightsConfig {
    pub active: bool,
    pub minutes_before_sunset_start: i64,
    pub minutes_after_sunset_peak: i64,
    pub minutes_after_sunset_finish: i64,
    pub start_brightness: u8,
    pub max_brightness: u8,
    pub final_brightness: u8,
}

} // verus!
