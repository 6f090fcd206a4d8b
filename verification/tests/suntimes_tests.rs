use homebridge_lights::clock::{Timestamp, ZonedTime};
use homebridge_lights::suntimes::{SunTimes, SunriseSunsetData, SuntimesError};
use homebridge_lights::transport::{Method, Payload, Reply, Request};

fn answer(sunrise: &str, sunset: &str) -> Reply<SunriseSunsetData> {
    Reply::Answer {
        status: 200,
        status_text: "200 OK".to_string(),
        body: Ok(SunriseSunsetData { sunrise: sunrise.to_string(), sunset: sunset.to_string() }),
    }
}

// 2024-06-01T00:00:00Z
const JUNE_FIRST: i64 = 1_717_200_000;

#[test]
fn request_names_the_place() {
    let sun = SunTimes::new("-71.06", "42.36");
    assert_eq!(
        sun.request(),
        Request {
            method: Method::Get,
            url: "https://api.sunrise-sunset.org/json?lat=42.36&lng=-71.06&date=today&formatted=0"
                .to_string(),
            bearer: None,
            payload: Payload::Empty,
        }
    );
}

#[test]
fn nothing_is_known_at_first() {
    let mut sun = SunTimes::new("0", "0");
    let now = ZonedTime::localized(Timestamp { secs: JUNE_FIRST + 12 * 3_600, nanos: 0 });
    assert_eq!(sun.sunrise(&now, None), Ok(None));
    assert_eq!(sun.sunset(&now, None), Ok(None));
}

#[test]
fn both_times_are_read_and_remembered_together() {
    let mut sun = SunTimes::new("0", "0");
    let now = ZonedTime::localized(Timestamp { secs: JUNE_FIRST + 12 * 3_600, nanos: 0 });
    let rise = sun
        .sunrise(&now, Some(answer("2024-06-01T09:08:07+00:00", "2024-06-01T14:15:16+00:00")))
        .unwrap()
        .unwrap();
    assert_eq!(rise.at, Timestamp { secs: JUNE_FIRST + 9 * 3_600 + 8 * 60 + 7, nanos: 0 });
    // The one reply served both: the sunset needs no second fetch.
    let set = sun.sunset(&now, None).unwrap().unwrap();
    assert_eq!(set.at, Timestamp { secs: JUNE_FIRST + 14 * 3_600 + 15 * 60 + 16, nanos: 0 });
    // Asked again, any number of times, the answers are the same and nothing is fetched.
    assert_eq!(sun.sunrise(&now, None), Ok(Some(rise)));
    assert_eq!(sun.sunrise(&now, None), Ok(Some(rise)));
    assert_eq!(sun.sunset(&now, None), Ok(Some(set)));
}

#[test]
fn a_reply_is_not_looked_at_while_the_day_lasts() {
    let mut sun = SunTimes::new("0", "0");
    let now = ZonedTime::localized(Timestamp { secs: JUNE_FIRST + 12 * 3_600, nanos: 0 });
    let rise = sun
        .sunrise(&now, Some(answer("2024-06-01T09:00:00+00:00", "2024-06-01T14:00:00+00:00")))
        .unwrap()
        .unwrap();
    let again = sun.sunrise(&now, Some(answer("2024-06-01T10:00:00+00:00", "2024-06-01T15:00:00+00:00")));
    assert_eq!(again, Ok(Some(rise)));
    assert_eq!(sun.sunset(&now, None).unwrap().unwrap().at.secs, JUNE_FIRST + 14 * 3_600);
}

#[test]
fn times_of_another_day_are_fetched_anew() {
    let mut sun = SunTimes::new("0", "0");
    let now = ZonedTime::localized(Timestamp { secs: JUNE_FIRST + 12 * 3_600, nanos: 0 });
    assert!(sun
        .sunrise(&now, Some(answer("2024-06-01T09:00:00+00:00", "2024-06-01T14:00:00+00:00")))
        .is_ok());
    let next_day = ZonedTime::localized(Timestamp { secs: JUNE_FIRST + 36 * 3_600, nanos: 0 });
    assert_eq!(sun.sunrise(&next_day, None), Ok(None));
    assert_eq!(sun.sunset(&next_day, None), Ok(None));
    let rise = sun
        .sunset(&next_day, Some(answer("2024-06-02T09:01:00+00:00", "2024-06-02T14:01:00+00:00")))
        .unwrap()
        .unwrap();
    assert_eq!(rise.at.secs, JUNE_FIRST + 86_400 + 14 * 3_600 + 60);
    assert_eq!(sun.sunrise(&next_day, None).unwrap().unwrap().at.secs, JUNE_FIRST + 86_400 + 9 * 3_600 + 60);
}

#[test]
fn offsets_and_fractions_in_the_text_are_honoured() {
    let mut sun = SunTimes::new("0", "0");
    assert_eq!(
        sun.collect_sunrise_sunset_data(answer(
            "2024-06-01T11:00:00.25+02:00",
            "2024-06-01T14:00:00Z"
        )),
        Ok(())
    );
    let now = ZonedTime::localized(Timestamp { secs: JUNE_FIRST + 12 * 3_600, nanos: 0 });
    let rise = sun.sunrise(&now, None).unwrap().unwrap();
    assert_eq!(rise.at, Timestamp { secs: JUNE_FIRST + 9 * 3_600, nanos: 250_000_000 });
}

#[test]
fn unreadable_time_is_a_parse_error_and_nothing_is_kept() {
    let mut sun = SunTimes::new("0", "0");
    let now = ZonedTime::localized(Timestamp { secs: JUNE_FIRST + 12 * 3_600, nanos: 0 });
    let bad_set = sun.sunrise(&now, Some(answer("2024-06-01T09:00:00+00:00", "soon")));
    assert!(matches!(bad_set, Err(SuntimesError::ParseError(_))));
    // The sunrise of that reply was readable, but is not kept on its own.
    assert_eq!(sun.sunrise(&now, None), Ok(None));
    let bad_rise = sun.sunset(&now, Some(answer("", "2024-06-01T14:00:00+00:00")));
    assert!(matches!(bad_rise, Err(SuntimesError::ParseError(_))));
    assert_eq!(sun.sunset(&now, None), Ok(None));
}

#[test]
fn parse_error_says_which_time_and_why() {
    let mut sun = SunTimes::new("0", "0");
    match sun.collect_sunrise_sunset_data(answer("yesterday", "2024-06-01T14:00:00+00:00")) {
        Err(SuntimesError::ParseError(why)) => {
            assert!(why.starts_with("Error parsing sunrise datetime: "));
            assert!(why.len() > "Error parsing sunrise datetime: ".len());
            assert!(!why.contains("yesterday"));
        }
        other => panic!("unexpected: {:?}", other),
    }
    match sun.collect_sunrise_sunset_data(answer("2024-06-01T09:00:00+00:00", "tomorrow")) {
        Err(SuntimesError::ParseError(why)) => {
            assert!(why.starts_with("Error parsing sunset datetime: "));
        }
        other => panic!("unexpected: {:?}", other),
    }
}

#[test]
fn failed_fetch_keeps_what_was_known() {
    let mut sun = SunTimes::new("0", "0");
    let now = ZonedTime::localized(Timestamp { secs: JUNE_FIRST + 12 * 3_600, nanos: 0 });
    assert!(sun
        .sunrise(&now, Some(answer("2024-06-01T09:00:00+00:00", "2024-06-01T14:00:00+00:00")))
        .is_ok());
    assert_eq!(
        sun.collect_sunrise_sunset_data(Reply::Unreachable("dns failure".to_string())),
        Err(SuntimesError::FailedConnection("dns failure".to_string()))
    );
    let garbled: Reply<SunriseSunsetData> = Reply::Answer {
        status: 200,
        status_text: "200 OK".to_string(),
        body: Err("missing field `results`".to_string()),
    };
    assert_eq!(
        sun.collect_sunrise_sunset_data(garbled),
        Err(SuntimesError::ParseError("missing field `results`".to_string()))
    );
    assert_eq!(sun.sunrise(&now, None).unwrap().unwrap().at.secs, JUNE_FIRST + 9 * 3_600);
    assert_eq!(sun.sunset(&now, None).unwrap().unwrap().at.secs, JUNE_FIRST + 14 * 3_600);
}

#[test]
fn failed_fetch_on_a_new_day_is_an_error_for_the_tick() {
    let mut sun = SunTimes::new("0", "0");
    let now = ZonedTime::localized(Timestamp { secs: JUNE_FIRST + 12 * 3_600, nanos: 0 });
    assert_eq!(
        sun.sunset(&now, Some(Reply::Unreachable("timed out".to_string()))),
        Err(SuntimesError::FailedConnection("timed out".to_string()))
    );
    assert_eq!(sun.sunset(&now, None), Ok(None));
}

#[test]
fn store_replaces_both_times() {
    let mut sun = SunTimes::new("0", "0");
    let rise = ZonedTime { at: Timestamp { secs: JUNE_FIRST + 5 * 3_600, nanos: 0 }, offset: 3_600 };
    let set = ZonedTime { at: Timestamp { secs: JUNE_FIRST + 19 * 3_600, nanos: 0 }, offset: 3_600 };
    sun.store(rise, set);
    let now = ZonedTime { at: Timestamp { secs: JUNE_FIRST + 12 * 3_600, nanos: 0 }, offset: 3_600 };
    assert_eq!(sun.sunrise(&now, None), Ok(Some(rise)));
    assert_eq!(sun.sunset(&now, None), Ok(Some(set)));
    // 23:30 UTC is past midnight at this offset: another local day.
    let late = ZonedTime { at: Timestamp { secs: JUNE_FIRST + 23 * 3_600 + 1_800, nanos: 0 }, offset: 3_600 };
    assert_eq!(sun.sunrise(&late, None), Ok(None));
}

#[test]
fn sun_errors_in_words() {
    assert_eq!(SuntimesError::ParseError("bad".to_string()).message(), "bad");
    assert_eq!(
        SuntimesError::FailedConnection("x".to_string()).message(),
        "Failed to connect to HB endpoint."
    );
    assert_eq!(SuntimesError::FailedAssumption("odd".to_string()).message(), "odd");
}
