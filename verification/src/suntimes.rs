//! Today's sunrise and sunset at one place, fetched once a day and remembered.

use crate::clock::{parse_error_text, read_utc_instant, utc_instant_read};
use crate::clock::{Timestamp, ZonedTime, MAX_EPOCH_SECONDS};
use crate::transport::{starts_with, Method, Payload, PayloadView, Reply, Request, RequestView};
use vstd::prelude::*;
use vstd::string::*;

verus! {

/// What can go wrong in finding out today's sunrise and sunset.
#[derive(Debug, PartialEq, Eq)]
pub enum SuntimesError {
    /// The answer of the service could not be read.
    ParseError(String),
    /// The service could not be reached; the text says why.
    FailedConnection(String),
    /// A time that must be known by now is not.
    FailedAssumption(String),
}

impl SuntimesError {
    /// The error in words.
    pub open spec fn text(self) -> Seq<char> {
        match self {
            SuntimesError::ParseError(why) => why@,
            SuntimesError::FailedConnection(_) => "Failed to connect to HB endpoint."@,
            SuntimesError::FailedAssumption(why) => why@,
        }
    }

    /// Writes the error out in words.
    pub fn message(&self) -> (r: String)
        ensures
            r@ == self.text(),
    {
        match self {
            SuntimesError::ParseError(why) => why.clone(),
            SuntimesError::FailedConnection(_) => String::from_str(
                "Failed to connect to HB endpoint.",
            ),
            SuntimesError::FailedAssumption(why) => why.clone(),
        }
    }
}

/// The two times in an answer of the service, as it writes them.
#[derive(Debug)]
pub struct SunriseSunsetData {
    pub sunrise: String,
    pub sunset: String,
}

/// The provider of sunrise and sunset for one place.
pub struct SunTimes {
    longitude: String,
    latitude: String,
    sunrise: Option<ZonedTime>,
    sunset: Option<ZonedTime>,
}

/// The instant that a text of the service stands for, where it stands for one
/// in the span of dates that the library holds.
pub open spec fn instant_of(text: Seq<char>) -> Option<Timestamp> {
    match utc_instant_read(text) {
        Some((secs, nanos)) => {
            let t = Timestamp { secs, nanos };
            if t.in_span() {
                Some(t)
            } else {
                None
            }
        },
        None => None,
    }
}

impl SunTimes {
    /// The longitude of the place, as it was given.
    pub closed spec fn longitude(&self) -> Seq<char> {
        self.longitude@
    }

    /// The latitude of the place, as it was given.
    pub closed spec fn latitude(&self) -> Seq<char> {
        self.latitude@
    }

    /// The sunrise that is remembered, if any.
    pub closed spec fn known_sunrise(&self) -> Option<ZonedTime> {
        self.sunrise
    }

    /// The sunset that is remembered, if any.
    pub closed spec fn known_sunset(&self) -> Option<ZonedTime> {
        self.sunset
    }

    /// What is remembered is well formed.
    pub open spec fn wf(&self) -> bool {
        &&& self.known_sunrise() matches Some(t) ==> t.wf()
        &&& self.known_sunset() matches Some(t) ==> t.wf()
    }

    /// The place is that of `other`.
    pub open spec fn same_place(&self, other: &SunTimes) -> bool {
        self.longitude() == other.longitude() && self.latitude() == other.latitude()
    }

    /// A remembered time answers a question asked at `now` where it lies on
    /// the calendar day of `now`.
    pub open spec fn answer(known: Option<ZonedTime>, now: ZonedTime) -> Option<ZonedTime> {
        match known {
            Some(t) => if t.same_day(now) {
                Some(t)
            } else {
                None
            },
            None => None,
        }
    }

    /// A provider for the place with these coordinates, written in decimal
    /// degrees. It remembers nothing yet.
    pub fn new(long: &str, lat: &str) -> (r: SunTimes)
        ensures
            r.longitude() == long@,
            r.latitude() == lat@,
            r.known_sunrise().is_none(),
            r.known_sunset().is_none(),
            r.wf(),
    {
        SunTimes {
            longitude: String::from_str(long),
            latitude: String::from_str(lat),
            sunrise: None,
            sunset: None,
        }
    }

    /// The request that asks the service for today's times at the place.
    pub fn request(&self) -> (r: Request)
        ensures
            r@ == (RequestView {
                method: Method::Get,
                url: "https://api.sunrise-sunset.org/json?"@ + "lat="@ + self.latitude()
                    + "&lng="@ + self.longitude() + "&date=today&formatted=0"@,
                bearer: None,
                payload: PayloadView::Empty,
            }),
    {
        let url = String::from_str("https://api.sunrise-sunset.org/json?").concat("lat=").concat(
            self.latitude.as_str(),
        ).concat("&lng=").concat(self.longitude.as_str()).concat("&date=today&formatted=0");
        Request { method: Method::Get, url, bearer: None, payload: Payload::Empty }
    }

    /// Remembers both times, replacing what was remembered.
    pub fn store(&mut self, sunrise: ZonedTime, sunset: ZonedTime)
        requires
            sunrise.wf(),
            sunset.wf(),
        ensures
            final(self).known_sunrise() == Some(sunrise),
            final(self).known_sunset() == Some(sunset),
            final(self).same_place(old(self)),
            final(self).wf(),
    {
        self.sunrise = Some(sunrise);
        self.sunset = Some(sunset);
    }

    /// What taking in a reply of the service comes to.
    ///
    /// Both times are remembered together or not at all: a reply that did not
    /// come, could not be decoded, or in which either text is no instant,
    /// leaves everything as it was. The times are remembered as this machine's
    /// local clock shows them.
    pub open spec fn collected(
        before: SunTimes,
        after: SunTimes,
        reply: Reply<SunriseSunsetData>,
        told: Result<(), SuntimesError>,
    ) -> bool {
        match reply {
            Reply::Unreachable(why) => {
                &&& told matches Err(SuntimesError::FailedConnection(e)) && e@ == why@
                &&& after == before
            },
            Reply::Answer { body: Err(why), .. } => {
                &&& told matches Err(SuntimesError::ParseError(e)) && e@ == why@
                &&& after == before
            },
            Reply::Answer { body: Ok(data), .. } => match (
                instant_of(data.sunrise@),
                instant_of(data.sunset@),
            ) {
                (Some(rise), Some(set)) => {
                    &&& told.is_ok()
                    &&& after.known_sunrise() matches Some(t) && t.at == rise && t.wf()
                    &&& after.known_sunset() matches Some(t) && t.at == set && t.wf()
                    &&& after.same_place(&before)
                },
                (rise, _) => {
                    &&& told matches Err(SuntimesError::ParseError(e)) && starts_with(
                        e@,
                        if rise.is_none() {
                            SUNRISE_UNREAD@
                        } else {
                            SUNSET_UNREAD@
                        },
                    )
                    &&& after == before
                },
            },
        }
    }

    /// Takes in a reply of the service to [`SunTimes::request`].
    pub fn collect_sunrise_sunset_data(&mut self, reply: Reply<SunriseSunsetData>) -> (r: Result<
        (),
        SuntimesError,
    >)
        ensures
            SunTimes::collected(*old(self), *final(self), reply, r),
    {
        let data = match reply {
            Reply::Unreachable(why) => {
                return Err(SuntimesError::FailedConnection(why));
            },
            Reply::Answer { status: _, status_text: _, body } => match body {
                Err(why) => {
                    return Err(SuntimesError::ParseError(why));
                },
                Ok(data) => data,
            },
        };
        let sunrise = match read_instant(data.sunrise.as_str(), SUNRISE_UNREAD) {
            Ok(t) => t,
            Err(e) => {
                return Err(e);
            },
        };
        let sunset = match read_instant(data.sunset.as_str(), SUNSET_UNREAD) {
            Ok(t) => t,
            Err(e) => {
                return Err(e);
            },
        };
        self.store(ZonedTime::localized(sunrise), ZonedTime::localized(sunset));
        Ok(())
    }

    /// What a question for a remembered time comes to. `known_before` and
    /// `known_after` are the time in question, sunrise or sunset, as the
    /// provider remembered it before and after.
    ///
    /// A time on the calendar day of `now` is the answer, and nothing is
    /// fetched. Otherwise both times are to be fetched anew: without a reply
    /// the caller is told `Ok(None)`, with one the reply is taken in and the
    /// time that is then remembered is the answer.
    pub open spec fn asked(
        before: SunTimes,
        after: SunTimes,
        known_before: Option<ZonedTime>,
        known_after: Option<ZonedTime>,
        now: ZonedTime,
        fetched: Option<Reply<SunriseSunsetData>>,
        told: Result<Option<ZonedTime>, SuntimesError>,
    ) -> bool {
        match SunTimes::answer(known_before, now) {
            Some(t) => told == Ok::<Option<ZonedTime>, SuntimesError>(Some(t)) && after == before,
            None => match fetched {
                None => told == Ok::<Option<ZonedTime>, SuntimesError>(None) && after == before,
                Some(reply) => match told {
                    Ok(Some(t)) => SunTimes::collected(before, after, reply, Ok(()))
                        && known_after == Some(t),
                    Ok(None) => false,
                    Err(e) => SunTimes::collected(before, after, reply, Err(e)),
                },
            },
        }
    }

    /// Today's sunrise, as of `now`.
    ///
    /// `Ok(None)` asks the caller to send [`SunTimes::request`] and to call
    /// again with the reply.
    pub fn sunrise(&mut self, now: &ZonedTime, fetched: Option<Reply<SunriseSunsetData>>) -> (r:
        Result<Option<ZonedTime>, SuntimesError>)
        requires
            now.wf(),
            old(self).wf(),
        ensures
            SunTimes::asked(
                *old(self),
                *final(self),
                old(self).known_sunrise(),
                final(self).known_sunrise(),
                *now,
                fetched,
                r,
            ),
            final(self).wf(),
    {
        if let Some(sunrise) = self.sunrise {
            if sunrise.is_same_day(now) {
                return Ok(Some(sunrise));
            }
        }
        match fetched {
            None => Ok(None),
            Some(reply) => {
                match self.collect_sunrise_sunset_data(reply) {
                    Ok(()) => {},
                    Err(e) => {
                        return Err(e);
                    },
                }
                match self.sunrise {
                    Some(sunrise) => Ok(Some(sunrise)),
                    None => Err(
                        SuntimesError::FailedAssumption(
                            String::from_str("Sunrise times should be set at this point."),
                        ),
                    ),
                }
            },
        }
    }

    /// Today's sunset, as of `now`.
    ///
    /// `Ok(None)` asks the caller to send [`SunTimes::request`] and to call
    /// again with the reply.
    pub fn sunset(&mut self, now: &ZonedTime, fetched: Option<Reply<SunriseSunsetData>>) -> (r:
        Result<Option<ZonedTime>, SuntimesError>)
        requires
            now.wf(),
            old(self).wf(),
        ensures
            SunTimes::asked(
                *old(self),
                *final(self),
                old(self).known_sunset(),
                final(self).known_sunset(),
                *now,
                fetched,
                r,
            ),
            final(self).wf(),
    {
        if let Some(sunset) = self.sunset {
            if sunset.is_same_day(now) {
                return Ok(Some(sunset));
            }
        }
        match fetched {
            None => Ok(None),
            Some(reply) => {
                match self.collect_sunrise_sunset_data(reply) {
                    Ok(()) => {},
                    Err(e) => {
                        return Err(e);
                    },
                }
                match self.sunset {
                    Some(sunset) => Ok(Some(sunset)),
                    None => Err(
                        SuntimesError::FailedAssumption(
                            String::from_str("Sunset times should be set at this point."),
                        ),
                    ),
                }
            },
        }
    }
}

/// How the error for an unreadable sunrise begins.
pub const SUNRISE_UNREAD: &'static str = "Error parsing sunrise datetime: ";

/// How the error for an unreadable sunset begins.
pub const SUNSET_UNREAD: &'static str = "Error parsing sunset datetime: ";

/// Reads one time of the service. A text that is no instant, or one outside
/// the span of dates, is an error that starts with `what` and goes on with
/// the reason.
fn read_instant(text: &str, what: &str) -> (r: Result<Timestamp, SuntimesError>)
    ensures
        match r {
            Ok(t) => instant_of(text@) == Some(t) && t.wf(),
            Err(e) => {
                &&& instant_of(text@).is_none()
                &&& e matches SuntimesError::ParseError(m) && starts_with(m@, what@)
            },
        },
{
    match read_utc_instant(text) {
        Ok(t) => {
            if t.secs < -MAX_EPOCH_SECONDS || t.secs > MAX_EPOCH_SECONDS {
                let why = "outside the span of dates that can be held";
                Err(SuntimesError::ParseError(String::from_str(what).concat(why)))
            } else {
                Ok(t)
            }
        },
        Err(e) => {
            let why = parse_error_text(&e);
            Err(SuntimesError::ParseError(String::from_str(what).concat(why.as_str())))
        },
    }
}

/// A time that lies on a calendar day answers every question asked on that
/// day, however many are asked: the provider is left as it was and no reply
/// is looked at, so at most one fetch serves the day.
pub proof fn lemma_one_fetch_a_day(
    before: SunTimes,
    after: SunTimes,
    known: ZonedTime,
    known_after: Option<ZonedTime>,
    first: ZonedTime,
    later: ZonedTime,
    fetched: Option<Reply<SunriseSunsetData>>,
    told: Result<Option<ZonedTime>, SuntimesError>,
)
    requires
        known.same_day(first),
        later.same_day(first),
        SunTimes::asked(before, after, Some(known), known_after, later, fetched, told),
    ensures
        told == Ok::<Option<ZonedTime>, SuntimesError>(Some(known)),
        after == before,
{
}

} // verus!
