use homebridge_lights::clock::{Timestamp, ZonedTime};
use homebridge_lights::homebridge::{
    write_outcome, HBAccessory, HBAuth, HBError, HBLightbulb, HBLightbulbValues, Homebridge,
};
use homebridge_lights::transport::{CharacteristicValue, Method, Payload, Reply, Request};

fn instant(secs: i64) -> ZonedTime {
    ZonedTime { at: Timestamp { secs, nanos: 0 }, offset: 0 }
}

fn bridge() -> Homebridge {
    Homebridge::new("http://bridge.local:8581", "admin", "hunter2")
}

fn granted(token: &str, ttl: u32) -> Reply<HBAuth> {
    Reply::Answer {
        status: 201,
        status_text: "201 Created".to_string(),
        body: Ok(HBAuth {
            access_token: token.to_string(),
            token_type: "Bearer".to_string(),
            expires_in: ttl,
        }),
    }
}

fn accessory(name: &str, id: &str) -> HBAccessory {
    HBAccessory {
        uuid: "00000043-0000-1000-8000-0026BB765291".to_string(),
        unique_id: id.to_string(),
        acc_type: "Lightbulb".to_string(),
        human_type: "Lightbulb".to_string(),
        service_name: name.to_string(),
    }
}

fn listed(list: Vec<HBAccessory>) -> Reply<Vec<HBAccessory>> {
    Reply::Answer { status: 200, status_text: "200 OK".to_string(), body: Ok(list) }
}

fn bulb(on: u32, brightness: u8) -> HBLightbulb {
    HBLightbulb {
        uuid: "u".to_string(),
        unique_id: "abc".to_string(),
        acc_type: "Lightbulb".to_string(),
        human_type: "Lightbulb".to_string(),
        service_name: "Bed Light".to_string(),
        values: HBLightbulbValues {
            on,
            brightness,
            color_temperature: 300,
            hue: 20,
            saturation: 40,
        },
    }
}

fn update(url: &str, token: &str, characteristic: &str, value: CharacteristicValue) -> Request {
    Request {
        method: Method::Put,
        url: url.to_string(),
        bearer: Some(token.to_string()),
        payload: Payload::Characteristic { characteristic: characteristic.to_string(), value },
    }
}

#[test]
fn lightbulb_is_on_only_at_one() {
    assert!(bulb(1, 50).values.is_on());
    assert!(!bulb(1, 50).values.is_off());
    assert!(bulb(0, 50).values.is_off());
    assert!(!bulb(0, 50).values.is_on());
    assert!(bulb(2, 50).values.is_off());
}

#[test]
fn new_session_asks_for_a_login() {
    let mut hb = bridge();
    assert_eq!(hb.ip_address, "http://bridge.local:8581");
    assert_eq!(hb.access_token(&instant(1_000), None), Ok(None));
}

#[test]
fn login_request_carries_the_credentials() {
    let hb = bridge();
    assert_eq!(
        hb.login_request(),
        Request {
            method: Method::Post,
            url: "http://bridge.local:8581/api/auth/login".to_string(),
            bearer: None,
            payload: Payload::Credentials {
                username: "admin".to_string(),
                password: "hunter2".to_string(),
            },
        }
    );
}

#[test]
fn granted_token_is_returned_and_kept() {
    let mut hb = bridge();
    let now = instant(1_000);
    assert_eq!(hb.access_token(&now, Some(granted("tok-1", 3_600))), Ok(Some("tok-1".to_string())));
    // A later call needs no login and does not look at a reply.
    assert_eq!(hb.access_token(&instant(1_500), None), Ok(Some("tok-1".to_string())));
    assert_eq!(
        hb.access_token(&instant(1_500), Some(granted("tok-2", 3_600))),
        Ok(Some("tok-1".to_string()))
    );
}

#[test]
fn token_expires_a_minute_early() {
    let mut hb = bridge();
    assert_eq!(
        hb.renew_access_token(&instant(1_000), granted("tok-1", 3_600)),
        Ok("tok-1".to_string())
    );
    // Expiry is 1000 + 3600 - 60 = 4540.
    assert_eq!(hb.access_token(&instant(4_539), None), Ok(Some("tok-1".to_string())));
    assert_eq!(hb.access_token(&instant(4_540), None), Ok(None));
    assert_eq!(hb.access_token(&instant(4_541), None), Ok(None));
    assert_eq!(
        hb.access_token(&instant(4_541), Some(granted("tok-2", 3_600))),
        Ok(Some("tok-2".to_string()))
    );
    assert_eq!(hb.access_token(&instant(4_542), None), Ok(Some("tok-2".to_string())));
}

#[test]
fn token_expiry_counts_nanoseconds() {
    let mut hb = bridge();
    let now = ZonedTime { at: Timestamp { secs: 1_000, nanos: 500 }, offset: 0 };
    assert!(hb.renew_access_token(&now, granted("tok", 160)).is_ok());
    let just_before = ZonedTime { at: Timestamp { secs: 1_100, nanos: 499 }, offset: 0 };
    let at_expiry = ZonedTime { at: Timestamp { secs: 1_100, nanos: 500 }, offset: 0 };
    assert_eq!(hb.access_token(&just_before, None), Ok(Some("tok".to_string())));
    assert_eq!(hb.access_token(&at_expiry, None), Ok(None));
}

#[test]
fn short_lived_token_is_stale_at_once() {
    let mut hb = bridge();
    let now = instant(1_000);
    assert_eq!(hb.access_token(&now, Some(granted("tok", 60))), Ok(Some("tok".to_string())));
    assert_eq!(hb.access_token(&now, None), Ok(None));
}

#[test]
fn refused_login_is_an_auth_error_and_keeps_the_old_token() {
    let mut hb = bridge();
    assert!(hb.renew_access_token(&instant(0), granted("old", 100)).is_ok());
    let refused: Reply<HBAuth> = Reply::Answer {
        status: 401,
        status_text: "401 Unauthorized".to_string(),
        body: Err("missing field `access_token`".to_string()),
    };
    assert_eq!(
        hb.access_token(&instant(1_000), Some(refused)),
        Err(HBError::AuthError("Status code 401 Unauthorized".to_string()))
    );
    // The stale token is still there: a token that is granted later for a
    // call in the past would not be used, but the old one is.
    assert_eq!(hb.access_token(&instant(10), None), Ok(Some("old".to_string())));
}

#[test]
fn success_status_other_than_created_is_refused() {
    let mut hb = bridge();
    let ok: Reply<HBAuth> = Reply::Answer {
        status: 200,
        status_text: "200 OK".to_string(),
        body: Ok(HBAuth {
            access_token: "tok".to_string(),
            token_type: "Bearer".to_string(),
            expires_in: 3_600,
        }),
    };
    assert_eq!(
        hb.renew_access_token(&instant(0), ok),
        Err(HBError::AuthError("Status code 200 OK".to_string()))
    );
    assert_eq!(hb.access_token(&instant(0), None), Ok(None));
}

#[test]
fn undecodable_login_is_an_auth_error() {
    let mut hb = bridge();
    let garbled: Reply<HBAuth> = Reply::Answer {
        status: 201,
        status_text: "201 Created".to_string(),
        body: Err("expected value at line 1 column 1".to_string()),
    };
    assert_eq!(
        hb.renew_access_token(&instant(0), garbled),
        Err(HBError::AuthError(
            "Error parsing `HBAuth` data - expected value at line 1 column 1".to_string()
        ))
    );
    assert_eq!(hb.access_token(&instant(0), None), Ok(None));
}

#[test]
fn unreachable_bridge_is_a_connection_error() {
    let mut hb = bridge();
    assert_eq!(
        hb.access_token(&instant(0), Some(Reply::Unreachable("connection refused".to_string()))),
        Err(HBError::UnableToConnect("connection refused".to_string()))
    );
    assert_eq!(
        hb.get_accessory_uuid("Bed Light", Some(Reply::Unreachable("timed out".to_string()))),
        Err(HBError::UnableToConnect("timed out".to_string()))
    );
    assert_eq!(
        hb.get_bed_light_status(Reply::Unreachable("timed out".to_string())).unwrap_err(),
        HBError::UnableToConnect("timed out".to_string())
    );
}

#[test]
fn accessories_request_is_authorised() {
    let hb = bridge();
    assert_eq!(
        hb.accessories_request("tok"),
        Request {
            method: Method::Get,
            url: "http://bridge.local:8581/api/accessories".to_string(),
            bearer: Some("tok".to_string()),
            payload: Payload::Empty,
        }
    );
}

#[test]
fn accessory_is_resolved_by_exact_name_and_remembered() {
    let mut hb = bridge();
    assert_eq!(hb.get_accessory_uuid("Bed Light", None), Ok(None));
    let list = vec![
        accessory("bed light", "wrong-case"),
        accessory("Bed Light ", "trailing-space"),
        accessory("Bed Light", "first"),
        accessory("Bed Light", "second"),
    ];
    assert_eq!(hb.get_accessory_uuid("Bed Light", Some(listed(list))), Ok(Some("first".to_string())));
    // Answered from memory now, whatever a list says.
    assert_eq!(hb.get_accessory_uuid("Bed Light", None), Ok(Some("first".to_string())));
    assert_eq!(
        hb.get_accessory_uuid("Bed Light", Some(listed(vec![accessory("Bed Light", "other")]))),
        Ok(Some("first".to_string()))
    );
    assert_eq!(hb.bed_light_uuid(None), Ok(Some("first".to_string())));
    // Another name is still unknown.
    assert_eq!(hb.get_accessory_uuid("Desk Lamp", None), Ok(None));
}

#[test]
fn several_accessories_are_remembered_side_by_side() {
    let mut hb = bridge();
    let list = || listed(vec![accessory("Desk Lamp", "d-1"), accessory("Bed Light", "b-1")]);
    assert_eq!(hb.get_accessory_uuid("Bed Light", Some(list())), Ok(Some("b-1".to_string())));
    assert_eq!(hb.get_accessory_uuid("Desk Lamp", Some(list())), Ok(Some("d-1".to_string())));
    assert_eq!(hb.get_accessory_uuid("Bed Light", None), Ok(Some("b-1".to_string())));
    assert_eq!(hb.get_accessory_uuid("Desk Lamp", None), Ok(Some("d-1".to_string())));
}

#[test]
fn unknown_accessory_is_reported_every_time() {
    let mut hb = bridge();
    let list = || listed(vec![accessory("Desk Lamp", "d-1")]);
    assert_eq!(
        hb.get_accessory_uuid("Bed Light", Some(list())),
        Err(HBError::UnrecognizedAccessory("Bed Light".to_string()))
    );
    assert_eq!(hb.get_accessory_uuid("Bed Light", None), Ok(None));
    assert_eq!(
        hb.bed_light_uuid(Some(list())),
        Err(HBError::UnrecognizedAccessory("Bed Light".to_string()))
    );
    assert_eq!(
        hb.get_accessory_uuid("Bed Light", Some(listed(Vec::new()))),
        Err(HBError::UnrecognizedAccessory("Bed Light".to_string()))
    );
}

#[test]
fn undecodable_list_is_a_parsing_error() {
    let mut hb = bridge();
    let garbled: Reply<Vec<HBAccessory>> = Reply::Answer {
        status: 200,
        status_text: "200 OK".to_string(),
        body: Err("invalid type".to_string()),
    };
    assert_eq!(
        hb.get_accessory_uuid("Bed Light", Some(garbled)),
        Err(HBError::ParsingError("Error parsing `HBAccessories` data - invalid type".to_string()))
    );
}

#[test]
fn status_request_names_the_accessory() {
    let hb = bridge();
    assert_eq!(
        hb.status_request("tok", "abc123"),
        Request {
            method: Method::Get,
            url: "http://bridge.local:8581/api/accessories/abc123".to_string(),
            bearer: Some("tok".to_string()),
            payload: Payload::Empty,
        }
    );
}

#[test]
fn light_status_is_handed_through() {
    let hb = bridge();
    let reply = Reply::Answer { status: 200, status_text: "200 OK".to_string(), body: Ok(bulb(1, 42)) };
    let status = hb.get_bed_light_status(reply).unwrap();
    assert_eq!(status.values.brightness, 42);
    assert_eq!(status.values.on, 1);
    assert_eq!(status.unique_id, "abc");
    let off = Reply::Answer { status: 200, status_text: "200 OK".to_string(), body: Ok(bulb(0, 42)) };
    assert_eq!(hb.bed_light_is_off(off), Ok(true));
    let on = Reply::Answer { status: 200, status_text: "200 OK".to_string(), body: Ok(bulb(1, 0)) };
    assert_eq!(hb.bed_light_is_off(on), Ok(false));
    let odd = Reply::Answer { status: 200, status_text: "200 OK".to_string(), body: Ok(bulb(2, 0)) };
    assert_eq!(hb.bed_light_is_off(odd), Ok(false));
}

#[test]
fn undecodable_light_status_is_a_parsing_error() {
    let hb = bridge();
    let garbled: Reply<HBLightbulb> = Reply::Answer {
        status: 200,
        status_text: "200 OK".to_string(),
        body: Err("missing field `values`".to_string()),
    };
    assert_eq!(
        hb.bed_light_is_off(garbled),
        Err(HBError::ParsingError(
            "Error parsing `HBAccessories` data - missing field `values`".to_string()
        ))
    );
}

#[test]
fn switch_requests() {
    let hb = bridge();
    let url = "http://bridge.local:8581/api/accessories/abc";
    assert_eq!(
        hb.turn_bedlight_on("tok", "abc"),
        update(url, "tok", "On", CharacteristicValue::Text("1".to_string()))
    );
    assert_eq!(
        hb.turn_bedlight_off("tok", "abc"),
        update(url, "tok", "On", CharacteristicValue::Text("0".to_string()))
    );
    assert_eq!(
        hb.set_bedlight_brightness("tok", "abc", 80),
        update(url, "tok", "Brightness", CharacteristicValue::Number(80))
    );
}

#[test]
fn set_bedlight_is_five_updates_in_order() {
    let hb = bridge();
    let url = "http://bridge.local:8581/api/accessories/abc";
    let values = HBLightbulbValues {
        on: 1,
        brightness: 100,
        color_temperature: 254,
        hue: 0,
        saturation: 37,
    };
    let text = |t: &str| CharacteristicValue::Text(t.to_string());
    assert_eq!(
        hb.set_bedlight("tok", "abc", &values),
        vec![
            update(url, "tok", "On", text("1")),
            update(url, "tok", "Brightness", text("100")),
            update(url, "tok", "ColorTemperature", text("254")),
            update(url, "tok", "Hue", text("0")),
            update(url, "tok", "Saturation", text("37")),
        ]
    );
}

#[test]
fn a_write_fails_only_where_it_could_not_be_sent() {
    let sent: Reply<()> = Reply::Answer { status: 200, status_text: "200 OK".to_string(), body: Ok(()) };
    assert_eq!(write_outcome(sent), Ok(()));
    let failed: Reply<()> = Reply::Answer {
        status: 500,
        status_text: "500 Internal Server Error".to_string(),
        body: Err("no body".to_string()),
    };
    assert_eq!(write_outcome(failed), Ok(()));
    let lost: Reply<()> = Reply::Unreachable("reset by peer".to_string());
    assert_eq!(write_outcome(lost), Err(HBError::UnableToConnect("reset by peer".to_string())));
}

#[test]
fn connection_check() {
    let hb = bridge();
    assert_eq!(
        hb.connection_request(),
        Request {
            method: Method::Post,
            url: "http://bridge.local:8581".to_string(),
            bearer: None,
            payload: Payload::Empty,
        }
    );
    let any: Reply<()> = Reply::Answer {
        status: 404,
        status_text: "404 Not Found".to_string(),
        body: Ok(()),
    };
    assert_eq!(hb.check_connection(any), Ok(()));
    let none: Reply<()> = Reply::Unreachable("no route to host".to_string());
    assert_eq!(
        hb.check_connection(none),
        Err(HBError::UnableToConnect("no route to host".to_string()))
    );
}

#[test]
fn bridge_errors_in_words() {
    assert_eq!(
        HBError::UnableToConnect("x".to_string()).message(),
        "Failed to connect to HB endpoint."
    );
    assert_eq!(HBError::ParsingError("bad json".to_string()).message(), "bad json");
    assert_eq!(
        HBError::AuthError("Status code 401".to_string()).message(),
        "Authentication error with Homebridge: Status code 401"
    );
    assert_eq!(HBError::NoAccessToken.message(), "No access token when one is expected.");
    assert_eq!(
        HBError::UnrecognizedAccessory("Bed Light".to_string()).message(),
        "No accessory registered for 'Bed Light'."
    );
}
