//! Ramps the brightness of the light around sunset: up from a start value to
//! a peak, then down to a final value, along two straight lines. A light that
//! someone else has changed in the meantime is left alone.

use crate::clock::{lemma_raised_division, ZonedTime, DAY_SECONDS};
use crate::configuration::ControlEveningLightsConfig;
use crate::homebridge::{HBError, HBLightbulbValues};
use crate::suntimes::SuntimesError;
use vstd::prelude::*;
use vstd::string::*;

verus! {

/// What can go wrong in a tick of the evening ramp, or in setting it up.
#[derive(Debug, PartialEq, Eq)]
pub enum ControlEveningLightsProgramError {
    ParseError(String),
    HomebridgeInteraction(HBError),
    ConfigurationError(String),
    NoSunTimesData(SuntimesError),
}

impl ControlEveningLightsProgramError {
    /// The error in words.
    pub open spec fn text(self) -> Seq<char> {
        match self {
            ControlEveningLightsProgramError::ParseError(why) => why@,
            ControlEveningLightsProgramError::HomebridgeInteraction(_) => "Error during Homebridge interaction."@,
            ControlEveningLightsProgramError::ConfigurationError(why) => why@,
            ControlEveningLightsProgramError::NoSunTimesData(cause) => cause.text(),
        }
    }

    /// Writes the error out in words.
    pub fn message(&self) -> (r: String)
        ensures
            r@ == self.text(),
    {
        match self {
            ControlEveningLightsProgramError::ParseError(why) => why.clone(),
            ControlEveningLightsProgramError::HomebridgeInteraction(_) => String::from_str(
                "Error during Homebridge interaction.",
            ),
            ControlEveningLightsProgramError::ConfigurationError(why) => why.clone(),
            ControlEveningLightsProgramError::NoSunTimesData(cause) => cause.message(),
        }
    }
}

/// What is said of an evening that cannot be held.
pub const OUT_OF_SPAN: &'static str = "The evening reaches beyond the dates that can be held.";

/// The last brightness that the program set, and when.
#[derive(Debug, Clone, Copy, PartialEq, Eq, Structural)]
pub struct LightsHistory {
    pub when: ZonedTime,
    pub brightness: u8,
}

/// The three instants of an evening: where the ramp starts, peaks and ends.
#[derive(Debug, Clone, Copy, PartialEq, Eq, Structural)]
pub struct RampWindow {
    pub start: ZonedTime,
    pub peak: ZonedTime,
    pub end: ZonedTime,
}

/// What the program asks of its caller in a tick.
#[derive(Clone, Copy, Debug, PartialEq, Eq, Structural)]
pub enum EveningAction {
    /// Nothing is to be done in this tick.
    Nothing,
    /// The state of the light is needed: read it and ask again.
    ReadLight,
    /// Set the brightness, after switching the light on where `turn_on` says
    /// so, and report the write to [`ControlEveningLightsProgram::record`].
    SetBrightness { turn_on: bool, brightness: u8 },
}

/// The evening ramp: its settings, and what it last set.
#[derive(Debug)]
pub struct ControlEveningLightsProgram {
    pub active: bool,
    pub minutes_before_sunset_start: i64,
    pub minutes_after_sunset_peak: i64,
    pub minutes_after_sunset_finish: i64,
    pub start_brightness: u8,
    pub max_brightness: u8,
    pub final_brightness: u8,
    history: Option<LightsHistory>,
}

/// The value at `t` of the straight line through `(s1, b1)` and `(s2, b2)`,
/// rounded down. Where both points stand at the same place there is no such
/// line, and the value is 0.
pub open spec fn interpolate(s1: int, b1: int, s2: int, b2: int, t: int) -> int {
    if s1 == s2 {
        0
    } else if s1 < s2 {
        b1 + ((b2 - b1) * (t - s1)) / (s2 - s1)
    } else {
        b1 + ((b1 - b2) * (t - s1)) / (s1 - s2)
    }
}

/// The brightness nearest to `v`.
pub open spec fn to_brightness(v: int) -> u8 {
    if v < 0 {
        0
    } else if v > 255 {
        255
    } else {
        v as u8
    }
}

/// The brightness at second `t` of the day on the line from brightness `b1`
/// at second `s1` to brightness `b2` at second `s2`.
pub fn interpolated(s1: u32, b1: u8, s2: u32, b2: u8, t: u32) -> (r: u8)
    requires
        s1 < DAY_SECONDS,
        s2 < DAY_SECONDS,
        t < DAY_SECONDS,
    ensures
        r == to_brightness(interpolate(s1 as int, b1 as int, s2 as int, b2 as int, t as int)),
{
    if s1 == s2 {
        return 0;
    }
    let rise: i64 = if s1 < s2 { b2 as i64 - b1 as i64 } else { b1 as i64 - b2 as i64 };
    let run: i64 = if s1 < s2 { s2 as i64 - s1 as i64 } else { s1 as i64 - s2 as i64 };
    let along: i64 = t as i64 - s1 as i64;
    assert(-255 * 86_400 <= rise * along <= 255 * 86_400) by (nonlinear_arith)
        requires
            -255 <= rise <= 255,
            -86_400 < along < 86_400,
    ;
    let product: i64 = rise * along;
    // Raised by a multiple of `run`, the product is not negative, and the
    // division rounds down.
    let lift: i64 = 255 * 86_400;
    assert(0 <= lift * run <= 255 * 86_400 * 86_400) by (nonlinear_arith)
        requires
            lift == 255 * 86_400,
            0 < run < 86_400,
    ;
    assert(lift * run >= lift) by (nonlinear_arith)
        requires
            lift >= 0,
            run >= 1,
    ;
    let raised: i64 = product + lift * run;
    let quotient: i64 = raised / run - lift;
    proof {
        lemma_raised_division(product as int, run as int, lift as int);
        assert(quotient == (product as int) / (run as int));
        vstd::arithmetic::div_mod::lemma_fundamental_div_mod(product as int, run as int);
        vstd::arithmetic::div_mod::lemma_mod_bound(product as int, run as int);
        assert(-255 * 86_400 - 86_400 <= quotient <= 255 * 86_400) by (nonlinear_arith)
            requires
                product == run * quotient + (product as int) % (run as int),
                0 <= (product as int) % (run as int) < run,
                0 < run < 86_400,
                -255 * 86_400 <= product <= 255 * 86_400,
        ;
    }
    let value: i64 = b1 as i64 + quotient;
    if value < 0 {
        0
    } else if value > 255 {
        255
    } else {
        value as u8
    }
}

impl RampWindow {
    /// All three instants are well formed.
    pub open spec fn wf(self) -> bool {
        self.start.wf() && self.peak.wf() && self.end.wf()
    }

    /// `now` lies on the way up: from the start to the peak, both included.
    pub open spec fn rising(self, now: ZonedTime) -> bool {
        self.start.at.at_or_before(now.at) && now.at.at_or_before(self.peak.at)
    }

    /// `now` lies on the way down: after the peak, up to the end.
    pub open spec fn falling(self, now: ZonedTime) -> bool {
        self.peak.at.before(now.at) && now.at.at_or_before(self.end.at)
    }
}

/// The program as the contracts speak of it.
pub struct EveningView {
    pub active: bool,
    pub lead: i64,
    pub peak: i64,
    pub finish: i64,
    pub start_brightness: u8,
    pub max_brightness: u8,
    pub final_brightness: u8,
    pub history: Option<LightsHistory>,
}

impl EveningView {
    /// What the program remembers is well formed.
    pub open spec fn wf(self) -> bool {
        self.history matches Some(h) ==> h.when.wf()
    }

    /// The ramp does not start after its peak nor peak after its end.
    pub open spec fn ordered(lead: i64, peak: i64, finish: i64) -> bool {
        -lead <= peak && peak <= finish
    }

    /// All three instants of the evening of `sunset` can be held.
    pub open spec fn spans(self, sunset: ZonedTime) -> bool {
        &&& sunset.can_shift(-self.lead)
        &&& sunset.can_shift(self.peak as int)
        &&& sunset.can_shift(self.finish as int)
    }

    /// `window` is the evening of `sunset`: it starts `lead` minutes before
    /// it, peaks `peak` minutes after it and ends `finish` minutes after it.
    pub open spec fn anchored(self, window: RampWindow, sunset: ZonedTime) -> bool {
        &&& (window.start.at.secs as int, window.start.at.nanos) == sunset.at.shifted(
            -self.lead * 60,
        )
        &&& (window.peak.at.secs as int, window.peak.at.nanos) == sunset.at.shifted(
            self.peak * 60,
        )
        &&& (window.end.at.secs as int, window.end.at.nanos) == sunset.at.shifted(
            self.finish * 60,
        )
    }

    /// The brightness that the ramp has at `now`, read off the line up to the
    /// peak for any time until the peak, and off the line down from it after.
    /// The lines run over the seconds of the day.
    pub open spec fn ramp(self, window: RampWindow, now: ZonedTime) -> u8 {
        if now.at.at_or_before(window.peak.at) {
            to_brightness(
                interpolate(
                    window.start.second_of_day(),
                    self.start_brightness as int,
                    window.peak.second_of_day(),
                    self.max_brightness as int,
                    now.second_of_day(),
                ),
            )
        } else {
            to_brightness(
                interpolate(
                    window.peak.second_of_day(),
                    self.max_brightness as int,
                    window.end.second_of_day(),
                    self.final_brightness as int,
                    now.second_of_day(),
                ),
            )
        }
    }

    /// The brightness to aim for at `now` with the light at `current`: that
    /// of the ramp, but never below `current` on the way up nor above it on
    /// the way down.
    pub open spec fn target(self, window: RampWindow, now: ZonedTime, current: u8) -> u8 {
        let ramp = self.ramp(window, now);
        if window.rising(now) {
            if ramp >= current {
                ramp
            } else {
                current
            }
        } else if window.falling(now) {
            if ramp <= current {
                ramp
            } else {
                current
            }
        } else {
            ramp
        }
    }

    /// The light was changed by someone else since the program last set it,
    /// or the program has set it within the minute of `now` already.
    pub open spec fn holds_back(self, now: ZonedTime, bulb: HBLightbulbValues) -> bool {
        self.history matches Some(h) && (!bulb.lit() || bulb.brightness != h.brightness
            || h.when.same_minute(now))
    }

    /// What the program asks for at `now`, knowing the state of the light or not.
    pub open spec fn decision(
        self,
        window: RampWindow,
        now: ZonedTime,
        bulb: Option<HBLightbulbValues>,
    ) -> EveningAction {
        if !window.rising(now) && !window.falling(now) {
            EveningAction::Nothing
        } else {
            match bulb {
                None => EveningAction::ReadLight,
                Some(bulb) => {
                    let target = self.target(window, now, bulb.brightness);
                    if self.holds_back(now, bulb) || target == 0 || target == bulb.brightness {
                        EveningAction::Nothing
                    } else {
                        EveningAction::SetBrightness { turn_on: !bulb.lit(), brightness: target }
                    }
                },
            }
        }
    }

    /// The program after a tick at `now`: outside the evening it forgets what
    /// it set, within it nothing changes.
    pub open spec fn after_tick(self, window: RampWindow, now: ZonedTime) -> EveningView {
        if !window.rising(now) && !window.falling(now) {
            EveningView { history: None, ..self }
        } else {
            self
        }
    }

    /// The program after it set the light to `brightness` at `now`.
    pub open spec fn recorded(self, now: ZonedTime, brightness: u8) -> EveningView {
        EveningView { history: Some(LightsHistory { when: now, brightness }), ..self }
    }
}

impl View for ControlEveningLightsProgram {
    type V = EveningView;

    closed spec fn view(&self) -> EveningView {
        EveningView {
            active: self.active,
            lead: self.minutes_before_sunset_start,
            peak: self.minutes_after_sunset_peak,
            finish: self.minutes_after_sunset_finish,
            start_brightness: self.start_brightness,
            max_brightness: self.max_brightness,
            final_brightness: self.final_brightness,
            history: self.history,
        }
    }
}

impl ControlEveningLightsProgram {
    /// The program that `config` describes. Settings whose ramp would start
    /// after its peak, or peak after its end, are refused.
    pub fn new(config: &ControlEveningLightsConfig) -> (r: Result<
        ControlEveningLightsProgram,
        ControlEveningLightsProgramError,
    >)
        ensures
            match r {
                Ok(p) => {
                    &&& EveningView::ordered(
                        config.minutes_before_sunset_start,
                        config.minutes_after_sunset_peak,
                        config.minutes_after_sunset_finish,
                    )
                    &&& p@ == (EveningView {
                        active: config.active,
                        lead: config.minutes_before_sunset_start,
                        peak: config.minutes_after_sunset_peak,
                        finish: config.minutes_after_sunset_finish,
                        start_brightness: config.start_brightness,
                        max_brightness: config.max_brightness,
                        final_brightness: config.final_brightness,
                        history: None,
                    })
                },
                Err(e) => {
                    &&& e matches ControlEveningLightsProgramError::ConfigurationError(m)
                    &&& -config.minutes_before_sunset_start > config.minutes_after_sunset_peak
                        ==> m@ == "The start time must precede the peak time."@
                    &&& -config.minutes_before_sunset_start <= config.minutes_after_sunset_peak
                        ==> config.minutes_after_sunset_peak > config.minutes_after_sunset_finish
                        && m@ == "The time for peak must precede the finish time."@
                },
            },
    {
        let lead: i64 = config.minutes_before_sunset_start;
        if lead == i64::MIN || -lead > config.minutes_after_sunset_peak {
            return Err(
                ControlEveningLightsProgramError::ConfigurationError(
                    String::from_str("The start time must precede the peak time."),
                ),
            );
        }
        if config.minutes_after_sunset_peak > config.minutes_after_sunset_finish {
            return Err(
                ControlEveningLightsProgramError::ConfigurationError(
                    String::from_str("The time for peak must precede the finish time."),
                ),
            );
        }
        Ok(
            ControlEveningLightsProgram {
                active: config.active,
                minutes_before_sunset_start: config.minutes_before_sunset_start,
                minutes_after_sunset_peak: config.minutes_after_sunset_peak,
                minutes_after_sunset_finish: config.minutes_after_sunset_finish,
                start_brightness: config.start_brightness,
                max_brightness: config.max_brightness,
                final_brightness: config.final_brightness,
                history: None,
            },
        )
    }

    /// The evening of `sunset`. An evening that reaches beyond the span of
    /// dates that can be held is refused. The instants are fixed by the
    /// settings; how this machine's local clock shows them is found out.
    pub fn window(&self, sunset: &ZonedTime) -> (r: Result<
        RampWindow,
        ControlEveningLightsProgramError,
    >)
        requires
            sunset.wf(),
        ensures
            match r {
                Ok(w) => self@.spans(*sunset) && w.wf() && self@.anchored(w, *sunset),
                Err(e) => {
                    &&& !self@.spans(*sunset)
                    &&& e matches ControlEveningLightsProgramError::ConfigurationError(m) && m@
                        == OUT_OF_SPAN@
                },
            },
    {
        let lead: i64 = self.minutes_before_sunset_start;
        if lead == i64::MIN {
            return Err(ControlEveningLightsProgram::out_of_span());
        }
        let start = match sunset.plus_minutes(-lead) {
            Some(t) => t,
            None => {
                return Err(ControlEveningLightsProgram::out_of_span());
            },
        };
        let peak = match sunset.plus_minutes(self.minutes_after_sunset_peak) {
            Some(t) => t,
            None => {
                return Err(ControlEveningLightsProgram::out_of_span());
            },
        };
        let end = match sunset.plus_minutes(self.minutes_after_sunset_finish) {
            Some(t) => t,
            None => {
                return Err(ControlEveningLightsProgram::out_of_span());
            },
        };
        Ok(RampWindow { start, peak, end })
    }

    fn out_of_span() -> (e: ControlEveningLightsProgramError)
        ensures
            e matches ControlEveningLightsProgramError::ConfigurationError(m) && m@
                == OUT_OF_SPAN@,
    {
        ControlEveningLightsProgramError::ConfigurationError(String::from_str(OUT_OF_SPAN))
    }

    /// The brightness that the ramp has at `now`.
    pub fn current_brightness(&self, now: &ZonedTime, window: &RampWindow) -> (r: u8)
        requires
            now.wf(),
            window.wf(),
        ensures
            r == self@.ramp(*window, *now),
    {
        let t: u32 = now.seconds_from_midnight();
        let peak: u32 = window.peak.seconds_from_midnight();
        if now.at.is_at_or_before(&window.peak.at) {
            interpolated(
                window.start.seconds_from_midnight(),
                self.start_brightness,
                peak,
                self.max_brightness,
                t,
            )
        } else {
            interpolated(
                peak,
                self.max_brightness,
                window.end.seconds_from_midnight(),
                self.final_brightness,
                t,
            )
        }
    }

    /// One tick of the program at `now`, in the evening `window`.
    ///
    /// Outside the evening the program forgets what it last set and asks for
    /// nothing. Within it, the state of the light is needed: with `bulb` at
    /// `None` the caller is asked to read it. With the state known, the
    /// program asks for nothing where it holds back, where the brightness to
    /// aim for is 0, and where the light has that brightness already.
    pub fn run(&mut self, now: &ZonedTime, window: &RampWindow, bulb: Option<HBLightbulbValues>) -> (r:
        EveningAction)
        requires
            now.wf(),
            window.wf(),
            old(self)@.wf(),
        ensures
            r == old(self)@.decision(*window, *now, bulb),
            final(self)@ == old(self)@.after_tick(*window, *now),
            final(self)@.wf(),
    {
        let in_a: bool = window.start.at.is_at_or_before(&now.at) && now.at.is_at_or_before(
            &window.peak.at,
        );
        let in_b: bool = window.peak.at.is_before(&now.at) && now.at.is_at_or_before(
            &window.end.at,
        );
        if !in_a && !in_b {
            self.history = None;
            return EveningAction::Nothing;
        }
        let current = match bulb {
            Some(values) => values,
            None => {
                return EveningAction::ReadLight;
            },
        };
        if let Some(history) = self.history {
            if current.is_off() || current.brightness != history.brightness
                || history.when.is_same_minute(now) {
                return EveningAction::Nothing;
            }
        }
        let mut brightness: u8 = self.current_brightness(now, window);
        if in_a {
            if brightness < current.brightness {
                brightness = current.brightness;
            }
        } else {
            if brightness > current.brightness {
                brightness = current.brightness;
            }
        }
        if brightness == 0 || brightness == current.brightness {
            return EveningAction::Nothing;
        }
        EveningAction::SetBrightness { turn_on: current.is_off(), brightness }
    }

    /// Takes note that the light was set to `brightness` in the tick at `now`.
    pub fn record(&mut self, now: &ZonedTime, brightness: u8)
        requires
            now.wf(),
        ensures
            final(self)@ == old(self)@.recorded(*now, brightness),
            final(self)@.wf(),
    {
        self.history = Some(LightsHistory { when: *now, brightness });
    }
}

/// A line passes through its two points: at the first it has the first
/// value, at the second the second, exactly.
pub proof fn lemma_interpolation_ends(s1: int, b1: int, s2: int, b2: int)
    requires
        s1 != s2,
    ensures
        interpolate(s1, b1, s2, b2, s1) == b1,
        interpolate(s1, b1, s2, b2, s2) == b2,
{
    if s1 < s2 {
        let run = s2 - s1;
        assert((b2 - b1) * (s1 - s1) == 0) by (nonlinear_arith);
        assert(((b2 - b1) * run) / run == b2 - b1) by {
            vstd::arithmetic::div_mod::lemma_div_multiples_vanish(b2 - b1, run);
            assert((b2 - b1) * run == run * (b2 - b1)) by (nonlinear_arith);
        }
    } else {
        let run = s1 - s2;
        assert((b1 - b2) * (s1 - s1) == 0) by (nonlinear_arith);
        assert((b1 - b2) * (s2 - s1) == run * (b2 - b1)) by (nonlinear_arith)
            requires
                run == s1 - s2,
        ;
        assert((run * (b2 - b1)) / run == b2 - b1) by {
            vstd::arithmetic::div_mod::lemma_div_multiples_vanish(b2 - b1, run);
        }
    }
}

/// A line between two points of which the second is the later one rises
/// where its second value is the higher one, and falls where it is the lower.
pub proof fn lemma_interpolation_monotone(s1: int, b1: int, s2: int, b2: int, t: int, u: int)
    requires
        s1 < s2,
        t <= u,
    ensures
        b1 <= b2 ==> interpolate(s1, b1, s2, b2, t) <= interpolate(s1, b1, s2, b2, u),
        b1 >= b2 ==> interpolate(s1, b1, s2, b2, t) >= interpolate(s1, b1, s2, b2, u),
{
    let run = s2 - s1;
    if b1 <= b2 {
        assert((b2 - b1) * (t - s1) <= (b2 - b1) * (u - s1)) by (nonlinear_arith)
            requires
                b1 <= b2,
                t <= u,
        ;
        vstd::arithmetic::div_mod::lemma_div_is_ordered(
            (b2 - b1) * (t - s1),
            (b2 - b1) * (u - s1),
            run,
        );
    }
    if b1 >= b2 {
        assert((b2 - b1) * (t - s1) >= (b2 - b1) * (u - s1)) by (nonlinear_arith)
            requires
                b1 >= b2,
                t <= u,
        ;
        vstd::arithmetic::div_mod::lemma_div_is_ordered(
            (b2 - b1) * (u - s1),
            (b2 - b1) * (t - s1),
            run,
        );
    }
}

/// The ramp has the start brightness at the start of the evening, the peak
/// brightness at its peak and the final brightness at its end, wherever the
/// two ends of the line in question do not read the same second of the day.
pub proof fn lemma_ramp_anchors(program: EveningView, window: RampWindow)
    ensures
        window.start.at.at_or_before(window.peak.at) && window.start.second_of_day()
            != window.peak.second_of_day() ==> program.ramp(window, window.start)
            == program.start_brightness && program.ramp(window, window.peak)
            == program.max_brightness,
        window.peak.at.before(window.end.at) && window.peak.second_of_day()
            != window.end.second_of_day() ==> program.ramp(window, window.end)
            == program.final_brightness,
{
    if window.start.second_of_day() != window.peak.second_of_day() {
        lemma_interpolation_ends(
            window.start.second_of_day(),
            program.start_brightness as int,
            window.peak.second_of_day(),
            program.max_brightness as int,
        );
    }
    if window.peak.second_of_day() != window.end.second_of_day() {
        lemma_interpolation_ends(
            window.peak.second_of_day(),
            program.max_brightness as int,
            window.end.second_of_day(),
            program.final_brightness as int,
        );
    }
}

/// The brightness that the program asks for lies above that of the light on
/// the way up and below it on the way down.
pub proof fn lemma_ramp_keeps_direction(
    program: EveningView,
    window: RampWindow,
    now: ZonedTime,
    bulb: HBLightbulbValues,
)
    ensures
        program.decision(window, now, Some(bulb)) matches EveningAction::SetBrightness {
            brightness,
            ..
        } ==> {
            &&& window.rising(now) ==> brightness > bulb.brightness
            &&& window.falling(now) ==> brightness < bulb.brightness
            &&& window.rising(now) != window.falling(now)
        },
{
}

/// From one write of the program to its next, the brightness does not go
/// down on the way up and does not go up on the way down: after the program
/// set `set` at `first`, whatever it asks for at `second` is no lower than
/// `set` while the ramp rises, and no higher while it falls.
pub proof fn lemma_successive_targets(
    program: EveningView,
    window: RampWindow,
    first: ZonedTime,
    set: u8,
    second: ZonedTime,
    bulb: HBLightbulbValues,
)
    ensures
        program.recorded(first, set).decision(window, second, Some(bulb))
            matches EveningAction::SetBrightness { brightness, .. } ==> {
            &&& bulb.brightness == set
            &&& window.rising(second) ==> brightness > set
            &&& window.falling(second) ==> brightness < set
        },
{
}

/// A light whose brightness is not the one that the program last set was
/// changed by someone else: the program asks for nothing in that tick and
/// keeps what it remembers.
pub proof fn lemma_cedes_to_outside_change(
    program: EveningView,
    window: RampWindow,
    now: ZonedTime,
    bulb: HBLightbulbValues,
)
    requires
        program.history matches Some(h) && h.brightness != bulb.brightness,
    ensures
        program.decision(window, now, Some(bulb)) == EveningAction::Nothing,
        window.rising(now) || window.falling(now) ==> program.after_tick(window, now) == program,
{
}

/// With a fixed evening, the ramp does not fall on the way to the peak where
/// the peak is no darker than the start, and does not rise after the peak
/// where the end is no brighter than the peak: of two times of which the
/// second reads the later second of the day, the second has the higher, or
/// the lower, brightness. The line in question must run forward over the
/// seconds of the day.
pub proof fn lemma_ramp_is_monotone(
    program: EveningView,
    window: RampWindow,
    first: ZonedTime,
    second: ZonedTime,
)
    requires
        first.second_of_day() <= second.second_of_day(),
    ensures
        first.at.at_or_before(window.peak.at) && second.at.at_or_before(window.peak.at)
            && window.start.second_of_day() < window.peak.second_of_day()
            && program.start_brightness <= program.max_brightness ==> program.ramp(window, first)
            <= program.ramp(window, second),
        !first.at.at_or_before(window.peak.at) && !second.at.at_or_before(window.peak.at)
            && window.peak.second_of_day() < window.end.second_of_day()
            && program.max_brightness >= program.final_brightness ==> program.ramp(window, first)
            >= program.ramp(window, second),
{
    if window.start.second_of_day() < window.peak.second_of_day() {
        lemma_interpolation_monotone(
            window.start.second_of_day(),
            program.start_brightness as int,
            window.peak.second_of_day(),
            program.max_brightness as int,
            first.second_of_day(),
            second.second_of_day(),
        );
    }
    if window.peak.second_of_day() < window.end.second_of_day() {
        lemma_interpolation_monotone(
            window.peak.second_of_day(),
            program.max_brightness as int,
            window.end.second_of_day(),
            program.final_brightness as int,
            first.second_of_day(),
            second.second_of_day(),
        );
    }
}

} // verus!
