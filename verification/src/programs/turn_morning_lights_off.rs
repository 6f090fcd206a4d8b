//! Switches the light off once a day, at a set time of day or a set number
//! of minutes after sunrise, and not at all once a grace period has passed.

use crate::clock::{parse_error_text, read_time_of_day, time_of_day_read};
use crate::clock::{ClockTime, ZonedTime};
use crate::configuration::TurningMorningLightsOffConfig;
use crate::homebridge::HBError;
use crate::suntimes::SuntimesError;
use crate::transport::starts_with;
use vstd::prelude::*;
use vstd::string::*;

verus! {

/// How the error for an unreadable time of day begins.
pub const OFF_TIME_UNREAD: &'static str = "Error parsing off time: ";

/// The format in which the settings write a time of day.
pub const OFF_TIME_FORMAT: &'static str = "%H:%M:%S";

/// What can go wrong in a tick of the morning switch-off, or in setting it up.
#[derive(Debug, PartialEq, Eq)]
pub enum TurnMorningLightsOffProgramError {
    ParseError(String),
    HomebridgeInteraction(HBError),
    ConfigError(String),
    NoSunTimesData(SuntimesError),
}

impl TurnMorningLightsOffProgramError {
    /// The error in words.
    pub open spec fn text(self) -> Seq<char> {
        match self {
            TurnMorningLightsOffProgramError::ParseError(why) => why@,
            TurnMorningLightsOffProgramError::HomebridgeInteraction(_) => "Error during Homebridge interaction."@,
            TurnMorningLightsOffProgramError::ConfigError(why) => why@,
            TurnMorningLightsOffProgramError::NoSunTimesData(cause) => cause.text(),
        }
    }

    /// Writes the error out in words.
    pub fn message(&self) -> (r: String)
        ensures
            r@ == self.text(),
    {
        match self {
            TurnMorningLightsOffProgramError::ParseError(why) => why.clone(),
            TurnMorningLightsOffProgramError::HomebridgeInteraction(_) => String::from_str(
                "Error during Homebridge interaction.",
            ),
            TurnMorningLightsOffProgramError::ConfigError(why) => why.clone(),
            TurnMorningLightsOffProgramError::NoSunTimesData(cause) => cause.message(),
        }
    }
}

/// What the program asks of its caller in a tick.
#[derive(Clone, Copy, Debug, PartialEq, Eq, Structural)]
pub enum MorningAction {
    /// Nothing is to be done in this tick.
    Nothing,
    /// Today's sunrise is needed: find it out and ask again.
    FetchSunrise,
    /// Switch the light off, read its state back and report it to
    /// [`TurnMorningLightsOffProgram::confirm`].
    TurnOff,
}

/// The morning switch-off: its settings, and when it last took effect.
pub struct TurnMorningLightsOffProgram {
    pub duration: u32,
    pub off_time: Option<ClockTime>,
    pub after_sunrise: Option<i64>,
    pub active: bool,
    pub last_call_after_scheduled_off: u32,
    last_turned_light_off: Option<ZonedTime>,
}

/// The program as the contracts speak of it.
pub struct MorningView {
    pub duration: u32,
    pub off_time: Option<ClockTime>,
    pub after_sunrise: Option<i64>,
    pub active: bool,
    pub last_call: u32,
    /// When the light was last switched off and seen to be off.
    pub last_fired: Option<ZonedTime>,
}

impl MorningView {
    /// The times that the program holds are well formed.
    pub open spec fn wf(self) -> bool {
        &&& self.off_time matches Some(t) ==> t.wf()
        &&& self.last_fired matches Some(t) ==> t.wf()
    }

    /// The light was switched off on the calendar day of `now`.
    pub open spec fn fired_on(self, now: ZonedTime) -> bool {
        self.last_fired matches Some(t) && t.same_day(now)
    }

    /// The time of day of the switch-off: the set time where there is one,
    /// else the set number of minutes after the sunrise.
    pub open spec fn off_time_on(self, sunrise: Option<ZonedTime>) -> Option<ClockTime> {
        match (self.off_time, self.after_sunrise, sunrise) {
            (Some(t), _, _) => Some(t),
            (None, Some(minutes), Some(rise)) => Some(rise.clock().shifted(minutes * 60)),
            _ => None,
        }
    }

    /// The time of day `now` lies in the span that starts at `off` and lasts
    /// `last_call` minutes, both ends included.
    pub open spec fn due(off: ClockTime, last_call: u32, now: ClockTime) -> bool {
        !now.before(off) && !off.shifted(last_call * 60).before(now)
    }

    /// What the program asks for at `now`, knowing the sunrise or not;
    /// `None` where its settings name no time for the switch-off.
    pub open spec fn decision(self, now: ZonedTime, sunrise: Option<ZonedTime>) -> Option<
        MorningAction,
    > {
        if !self.active || self.fired_on(now) {
            Some(MorningAction::Nothing)
        } else if self.off_time.is_none() && self.after_sunrise.is_none() {
            None
        } else {
            match self.off_time_on(sunrise) {
                None => Some(MorningAction::FetchSunrise),
                Some(off) => if MorningView::due(off, self.last_call, now.clock()) {
                    Some(MorningAction::TurnOff)
                } else {
                    Some(MorningAction::Nothing)
                },
            }
        }
    }

    /// The program after the light was read back at `now`.
    pub open spec fn confirmed(self, now: ZonedTime, light_is_off: bool) -> MorningView {
        if light_is_off {
            MorningView { last_fired: Some(now), ..self }
        } else {
            self
        }
    }
}

impl View for TurnMorningLightsOffProgram {
    type V = MorningView;

    closed spec fn view(&self) -> MorningView {
        MorningView {
            duration: self.duration,
            off_time: self.off_time,
            after_sunrise: self.after_sunrise,
            active: self.active,
            last_call: self.last_call_after_scheduled_off,
            last_fired: self.last_turned_light_off,
        }
    }
}

impl TurnMorningLightsOffProgram {
    /// The program that `config` describes, with the time of day already read.
    /// Settings that name neither a time of day nor minutes after sunrise are
    /// refused. Where they name both, the time of day counts and the minutes
    /// are kept.
    pub fn scheduled(config: &TurningMorningLightsOffConfig, off_time: Option<ClockTime>) -> (r:
        Result<TurnMorningLightsOffProgram, TurnMorningLightsOffProgramError>)
        requires
            off_time matches Some(t) ==> t.wf(),
        ensures
            match r {
                Ok(p) => {
                    &&& !(off_time.is_none() && config.after_sunrise.is_none())
                    &&& p@ == (MorningView {
                        duration: config.duration,
                        off_time,
                        after_sunrise: config.after_sunrise,
                        active: config.active,
                        last_call: config.last_call_after_scheduled_off,
                        last_fired: None,
                    })
                    &&& p@.wf()
                },
                Err(e) => {
                    &&& off_time.is_none() && config.after_sunrise.is_none()
                    &&& e matches TurnMorningLightsOffProgramError::ConfigError(m) && m@
                        == "Both `off_time` and `after_sunrise` are None."@
                },
            },
    {
        if off_time.is_none() && config.after_sunrise.is_none() {
            return Err(
                TurnMorningLightsOffProgramError::ConfigError(
                    String::from_str("Both `off_time` and `after_sunrise` are None."),
                ),
            );
        }
        Ok(
            TurnMorningLightsOffProgram {
                off_time,
                after_sunrise: config.after_sunrise,
                duration: config.duration,
                active: config.active,
                last_turned_light_off: None,
                last_call_after_scheduled_off: config.last_call_after_scheduled_off,
            },
        )
    }

    /// The time of day that the settings name, as `chrono` reads it.
    pub open spec fn off_time_read(config: &TurningMorningLightsOffConfig) -> Option<
        Option<ClockTime>,
    > {
        match config.off_time {
            None => Some(None),
            Some(text) => match time_of_day_read(text@, OFF_TIME_FORMAT@) {
                Some((secs, nanos)) => Some(Some(ClockTime { secs, nanos })),
                None => None,
            },
        }
    }

    /// The program that `config` describes. A time of day that cannot be read
    /// is refused with `ParseError`; what is read goes to
    /// [`TurnMorningLightsOffProgram::scheduled`].
    pub fn new(config: &TurningMorningLightsOffConfig) -> (r: Result<
        TurnMorningLightsOffProgram,
        TurnMorningLightsOffProgramError,
    >)
        ensures
            match TurnMorningLightsOffProgram::off_time_read(config) {
                None => r matches Err(TurnMorningLightsOffProgramError::ParseError(m))
                    && starts_with(m@, OFF_TIME_UNREAD@),
                Some(off_time) => match r {
                    Ok(p) => {
                        &&& !(off_time.is_none() && config.after_sunrise.is_none())
                        &&& p@ == (MorningView {
                            duration: config.duration,
                            off_time,
                            after_sunrise: config.after_sunrise,
                            active: config.active,
                            last_call: config.last_call_after_scheduled_off,
                            last_fired: None,
                        })
                        &&& p@.wf()
                    },
                    Err(e) => {
                        &&& off_time.is_none() && config.after_sunrise.is_none()
                        &&& e matches TurnMorningLightsOffProgramError::ConfigError(m) && m@
                            == "Both `off_time` and `after_sunrise` are None."@
                    },
                },
            },
    {
        let off_time = match &config.off_time {
            Some(text) => match read_time_of_day(text.as_str(), OFF_TIME_FORMAT) {
                Ok(t) => Some(t),
                Err(e) => {
                    let why = parse_error_text(&e);
                    return Err(
                        TurnMorningLightsOffProgramError::ParseError(
                            String::from_str(OFF_TIME_UNREAD).concat(why.as_str()),
                        ),
                    );
                },
            },
            None => None,
        };
        TurnMorningLightsOffProgram::scheduled(config, off_time)
    }

    /// One tick of the program at `now`.
    ///
    /// Nothing is asked for where the program is inactive, where the light was
    /// already switched off today, before the switch-off time and after the
    /// grace period. Where the switch-off time hangs on the sunrise and
    /// `sunrise` is `None`, the caller is asked to find it out.
    pub fn run(&self, now: &ZonedTime, sunrise: Option<ZonedTime>) -> (r: Result<
        MorningAction,
        TurnMorningLightsOffProgramError,
    >)
        requires
            now.wf(),
            self@.wf(),
            sunrise matches Some(t) ==> t.wf(),
        ensures
            match self@.decision(*now, sunrise) {
                Some(action) => r == Ok::<MorningAction, TurnMorningLightsOffProgramError>(action),
                None => r matches Err(TurnMorningLightsOffProgramError::ConfigError(m)) && m@
                    == "Both off-times are None."@,
            },
    {
        if !self.active {
            return Ok(MorningAction::Nothing);
        }
        if let Some(last) = &self.last_turned_light_off {
            if last.is_same_day(now) {
                return Ok(MorningAction::Nothing);
            }
        }
        let off_time = match (self.off_time, self.after_sunrise) {
            (Some(t), _) => t,
            (None, Some(minutes)) => match sunrise {
                Some(rise) => rise.time().plus_minutes(minutes),
                None => {
                    return Ok(MorningAction::FetchSunrise);
                },
            },
            (None, None) => {
                return Err(
                    TurnMorningLightsOffProgramError::ConfigError(
                        String::from_str("Both off-times are None."),
                    ),
                );
            },
        };
        let clock = now.time();
        if clock.is_before(&off_time) {
            return Ok(MorningAction::Nothing);
        }
        if off_time.plus_minutes(self.last_call_after_scheduled_off as i64).is_before(&clock) {
            return Ok(MorningAction::Nothing);
        }
        Ok(MorningAction::TurnOff)
    }

    /// Takes in the state of the light as it was read back after the
    /// switch-off of the tick at `now`. A light that is off is remembered as
    /// switched off for the day of `now`; one that is still on changes
    /// nothing, so that the next tick tries again.
    pub fn confirm(&mut self, now: &ZonedTime, light_is_off: bool)
        requires
            now.wf(),
            old(self)@.wf(),
        ensures
            final(self)@ == old(self)@.confirmed(*now, light_is_off),
            final(self)@.wf(),
    {
        if light_is_off {
            self.last_turned_light_off = Some(*now);
        }
    }
}

/// Once the light was switched off and seen to be off, no later tick on the
/// same calendar day asks for anything: the light is switched off at most once
/// a day.
pub proof fn lemma_fires_once_a_day(
    program: MorningView,
    fired_at: ZonedTime,
    later: ZonedTime,
    sunrise: Option<ZonedTime>,
)
    requires
        later.same_day(fired_at),
    ensures
        program.confirmed(fired_at, true).fired_on(later),
        program.confirmed(fired_at, true).decision(later, sunrise) == Some(
            MorningAction::Nothing,
        ),
{
}

/// A switch-off that the light did not follow is not counted: the program is
/// as it was, and the next tick decides as this one did.
pub proof fn lemma_retries_until_off(program: MorningView, now: ZonedTime)
    ensures
        program.confirmed(now, false) == program,
{
}

/// With the switch-off time known, the program asks for the switch-off
/// exactly in the span from that time to the end of the grace period, as long
/// as it is active and has not switched the light off today. Outside that span
/// it asks for nothing, whatever else holds.
pub proof fn lemma_fires_within_window_only(
    program: MorningView,
    now: ZonedTime,
    sunrise: Option<ZonedTime>,
)
    requires
        program.off_time_on(sunrise).is_some(),
    ensures
        ({
            let off = program.off_time_on(sunrise).unwrap();
            let due = MorningView::due(off, program.last_call, now.clock());
            &&& due && program.active && !program.fired_on(now) ==> program.decision(now, sunrise)
                == Some(MorningAction::TurnOff)
            &&& !due ==> program.decision(now, sunrise) == Some(MorningAction::Nothing)
        }),
{
}

} // verus!
