//! The session with the bridge: its token, the accessories it has resolved,
//! and the requests and replies of the one light it controls.

use crate::clock::{Timestamp, ZonedTime};
use crate::transport::{CharacteristicValue, Method, Payload, Reply, Request};
use crate::transport::{CharacteristicValueView, PayloadView, RequestView};
use crate::text::{decimal, decimal_text};
use vstd::prelude::*;
use vstd::string::*;

verus! {

/// The status with which the bridge answers a login that it accepts.
pub const STATUS_CREATED: u16 = 201;

/// Milliseconds that the light is given to settle after a write, before the
/// next request is sent to it.
pub const SETTLE_MILLIS: u64 = 250;

/// Seconds by which a token is taken to expire early.
pub const TOKEN_MARGIN_SECONDS: i64 = 60;

/// What can go wrong in an exchange with the bridge.
#[derive(Debug, PartialEq, Eq)]
pub enum HBError {
    /// The bridge could not be reached; the text says why.
    UnableToConnect(String),
    /// An answer did not have the expected shape.
    ParsingError(String),
    /// The bridge refused the login.
    AuthError(String),
    /// No token is held where one is needed.
    NoAccessToken,
    /// The bridge lists no accessory under this name.
    UnrecognizedAccessory(String),
}

impl HBError {
    /// The error in words.
    pub open spec fn text(self) -> Seq<char> {
        match self {
            HBError::UnableToConnect(_) => "Failed to connect to HB endpoint."@,
            HBError::ParsingError(why) => why@,
            HBError::AuthError(why) => "Authentication error with Homebridge: "@ + why@,
            HBError::NoAccessToken => "No access token when one is expected."@,
            HBError::UnrecognizedAccessory(name) => "No accessory registered for '"@ + name@
                + "'."@,
        }
    }

    /// Writes the error out in words.
    pub fn message(&self) -> (r: String)
        ensures
            r@ == self.text(),
    {
        match self {
            HBError::UnableToConnect(_) => String::from_str("Failed to connect to HB endpoint."),
            HBError::ParsingError(why) => why.clone(),
            HBError::AuthError(why) => String::from_str(
                "Authentication error with Homebridge: ",
            ).concat(why.as_str()),
            HBError::NoAccessToken => String::from_str("No access token when one is expected."),
            HBError::UnrecognizedAccessory(name) => String::from_str(
                "No accessory registered for '",
            ).concat(name.as_str()).concat("'."),
        }
    }
}

/// One entry of the bridge's list of accessories.
#[derive(Debug)]
pub struct HBAccessory {
    pub uuid: String,
    pub unique_id: String,
    pub acc_type: String,
    pub human_type: String,
    pub service_name: String,
}

/// The bridge's answer to a login.
#[derive(Debug)]
pub struct HBAuth {
    pub access_token: String,
    pub token_type: String,
    /// Seconds for which the token is valid.
    pub expires_in: u32,
}

/// The values of a light's characteristics, as the bridge reports them.
#[derive(Debug, Clone, Copy, PartialEq, Eq, Structural)]
pub struct HBLightbulbValues {
    pub on: u32,
    pub brightness: u8,
    pub color_temperature: u32,
    pub hue: u32,
    pub saturation: u32,
}

impl HBLightbulbValues {
    /// The light is reported as switched on.
    pub open spec fn lit(self) -> bool {
        self.on == 1
    }

    /// Whether the light is reported as switched on.
    pub fn is_on(&self) -> (r: bool)
        ensures
            r == self.lit(),
    {
        self.on == 1
    }

    /// Whether the light is not reported as switched on.
    pub fn is_off(&self) -> (r: bool)
        ensures
            r == !self.lit(),
    {
        !self.is_on()
    }
}

/// A light as the bridge describes it.
#[derive(Debug)]
pub struct HBLightbulb {
    pub uuid: String,
    pub unique_id: String,
    pub acc_type: String,
    pub human_type: String,
    pub service_name: String,
    pub values: HBLightbulbValues,
}

/// A name that was resolved, with the identifier the bridge gave for it.
struct ResolvedAccessory {
    name: String,
    unique_id: String,
}

/// The identifier noted for `name` in `entries`: that of the first entry with this name.
spec fn noted(entries: Seq<ResolvedAccessory>, name: Seq<char>) -> Option<Seq<char>>
    decreases entries.len(),
{
    if entries.len() == 0 {
        None
    } else if entries[0].name@ == name {
        Some(entries[0].unique_id@)
    } else {
        noted(entries.subrange(1, entries.len() as int), name)
    }
}

/// A session with the bridge. It holds the token while it is valid and the
/// identifiers of the accessories that were looked up; both live as long as the
/// session does.
pub struct Homebridge {
    pub ip_address: String,
    username: String,
    password: String,
    access_token: Option<String>,
    access_token_expiration: Option<Timestamp>,
    accessory_uuids: Vec<ResolvedAccessory>,
}

impl Homebridge {
    /// The address under which the bridge is reached.
    pub closed spec fn address(&self) -> Seq<char> {
        self.ip_address@
    }

    /// The name with which the session logs in.
    pub closed spec fn username(&self) -> Seq<char> {
        self.username@
    }

    /// The password with which the session logs in.
    pub closed spec fn password(&self) -> Seq<char> {
        self.password@
    }

    /// The token that is held, if any.
    pub closed spec fn token(&self) -> Option<Seq<char>> {
        match self.access_token {
            Some(t) => Some(t@),
            None => None,
        }
    }

    /// The instant from which the held token counts as expired.
    pub closed spec fn expiry(&self) -> Option<Timestamp> {
        self.access_token_expiration
    }

    /// The identifier that was resolved for a name, if any.
    pub closed spec fn resolved(&self, name: Seq<char>) -> Option<Seq<char>> {
        noted(self.accessory_uuids@, name)
    }

    /// A token is held and `now` lies before its expiry.
    pub open spec fn fresh(&self, now: Timestamp) -> bool {
        &&& self.token().is_some()
        &&& self.expiry() matches Some(e) && now.before(e)
    }

    /// The expiry of a token that was granted at `now` for `ttl` seconds.
    pub open spec fn expiry_of(now: Timestamp, ttl: u32) -> Timestamp {
        Timestamp {
            secs: now.shifted(ttl - TOKEN_MARGIN_SECONDS).0 as i64,
            nanos: now.shifted(ttl - TOKEN_MARGIN_SECONDS).1,
        }
    }

    /// Everything but the token and its expiry is as in `other`.
    pub open spec fn same_but_token(&self, other: &Homebridge) -> bool {
        &&& self.address() == other.address()
        &&& self.username() == other.username()
        &&& self.password() == other.password()
        &&& forall|name: Seq<char>| self.resolved(name) == other.resolved(name)
    }

    /// Everything but the resolved accessories is as in `other`.
    pub open spec fn same_but_resolved(&self, other: &Homebridge) -> bool {
        &&& self.address() == other.address()
        &&& self.username() == other.username()
        &&& self.password() == other.password()
        &&& self.token() == other.token()
        &&& self.expiry() == other.expiry()
    }

    /// A session that holds no token and has resolved no accessory.
    pub fn new(ip_address: &str, username: &str, password: &str) -> (r: Homebridge)
        ensures
            r.address() == ip_address@,
            r.username() == username@,
            r.password() == password@,
            r.token().is_none(),
            r.expiry().is_none(),
            forall|name: Seq<char>| r.resolved(name).is_none(),
    {
        let r = Homebridge {
            ip_address: String::from_str(ip_address),
            username: String::from_str(username),
            password: String::from_str(password),
            access_token: None,
            access_token_expiration: None,
            accessory_uuids: Vec::new(),
        };
        assert forall|name: Seq<char>| r.resolved(name).is_none() by {
            assert(r.accessory_uuids@.len() == 0);
        }
        r
    }

    /// What a login comes to: how the reply `login` turns the session `before`
    /// into the session `after`, and what the caller is told.
    pub open spec fn renewed(
        before: Homebridge,
        after: Homebridge,
        now: Timestamp,
        login: Reply<HBAuth>,
        told: Result<String, HBError>,
    ) -> bool {
        match login {
            Reply::Unreachable(why) => {
                &&& told matches Err(HBError::UnableToConnect(e)) && e@ == why@
                &&& after == before
            },
            Reply::Answer { status, status_text, body } => if status != STATUS_CREATED {
                &&& told matches Err(HBError::AuthError(e)) && e@ == "Status code "@
                    + status_text@
                &&& after == before
            } else {
                match body {
                    Err(why) => {
                        &&& told matches Err(HBError::AuthError(e)) && e@
                            == "Error parsing `HBAuth` data - "@ + why@
                        &&& after == before
                    },
                    Ok(auth) => {
                        &&& told matches Ok(t) && t@ == auth.access_token@
                        &&& after.token() == Some(auth.access_token@)
                        &&& after.expiry() == Some(Homebridge::expiry_of(now, auth.expires_in))
                        &&& after.same_but_token(&before)
                    },
                }
            },
        }
    }

    /// The request that asks the bridge for a token.
    pub fn login_request(&self) -> (r: Request)
        ensures
            r@ == (RequestView {
                method: Method::Post,
                url: self.address() + "/api/auth/login"@,
                bearer: None,
                payload: PayloadView::Credentials {
                    username: self.username(),
                    password: self.password(),
                },
            }),
    {
        Request {
            method: Method::Post,
            url: self.ip_address.clone().concat("/api/auth/login"),
            bearer: None,
            payload: Payload::Credentials {
                username: self.username.clone(),
                password: self.password.clone(),
            },
        }
    }

    /// Takes the bridge's reply to a login. A token that the bridge granted
    /// replaces the one held, together with its expiry: the time of the grant
    /// plus the token's lifetime, less a margin. Any other reply leaves the
    /// session as it was.
    pub fn renew_access_token(&mut self, now: &ZonedTime, login: Reply<HBAuth>) -> (r: Result<
        String,
        HBError,
    >)
        requires
            now.wf(),
        ensures
            Homebridge::renewed(*old(self), *final(self), now.at, login, r),
    {
        match login {
            Reply::Unreachable(why) => Err(HBError::UnableToConnect(why)),
            Reply::Answer { status, status_text, body } => {
                if status != STATUS_CREATED {
                    return Err(
                        HBError::AuthError(
                            String::from_str("Status code ").concat(status_text.as_str()),
                        ),
                    );
                }
                match body {
                    Err(why) => Err(
                        HBError::AuthError(
                            String::from_str("Error parsing `HBAuth` data - ").concat(
                                why.as_str(),
                            ),
                        ),
                    ),
                    Ok(auth) => {
                        let lifetime: i64 = auth.expires_in as i64 - TOKEN_MARGIN_SECONDS;
                        let expiry = now.at.plus_seconds(lifetime).unwrap();
                        let token = auth.access_token.clone();
                        self.access_token = Some(auth.access_token);
                        self.access_token_expiration = Some(expiry);
                        Ok(token)
                    },
                }
            },
        }
    }

    /// The token to authorise a request with at `now`.
    ///
    /// A token that is held and has not expired is given back, and `login` is
    /// not looked at. Otherwise a login is due: without a reply in `login` the
    /// result is `Ok(None)`, which asks the caller to send
    /// [`Homebridge::login_request`] and to call again with the reply; with a
    /// reply, the result is that of [`Homebridge::renew_access_token`].
    pub fn access_token(&mut self, now: &ZonedTime, login: Option<Reply<HBAuth>>) -> (r: Result<
        Option<String>,
        HBError,
    >)
        requires
            now.wf(),
        ensures
            old(self).fresh(now.at) ==> {
                &&& r matches Ok(Some(t)) && Some(t@) == old(self).token()
                &&& *final(self) == *old(self)
            },
            !old(self).fresh(now.at) ==> match login {
                None => r matches Ok(None) && *final(self) == *old(self),
                Some(reply) => match r {
                    Ok(Some(t)) => Homebridge::renewed(
                        *old(self),
                        *final(self),
                        now.at,
                        reply,
                        Ok(t),
                    ),
                    Ok(None) => false,
                    Err(e) => Homebridge::renewed(*old(self), *final(self), now.at, reply, Err(e)),
                },
            },
    {
        if let Some(token) = &self.access_token {
            if let Some(expiry) = &self.access_token_expiration {
                if now.at.is_before(expiry) {
                    return Ok(Some(token.clone()));
                }
            }
        }
        match login {
            None => Ok(None),
            Some(reply) => match self.renew_access_token(now, reply) {
                Ok(token) => Ok(Some(token)),
                Err(e) => Err(e),
            },
        }
    }

    /// The request that asks the bridge for its list of accessories.
    pub fn accessories_request(&self, token: &str) -> (r: Request)
        ensures
            r@ == (RequestView {
                method: Method::Get,
                url: self.address() + "/api/accessories"@,
                bearer: Some(token@),
                payload: PayloadView::Empty,
            }),
    {
        Request {
            method: Method::Get,
            url: self.ip_address.clone().concat("/api/accessories"),
            bearer: Some(String::from_str(token)),
            payload: Payload::Empty,
        }
    }

    /// The identifier noted for `acc_name`, if it was resolved before.
    fn noted_uuid(&self, acc_name: &String) -> (r: Option<String>)
        ensures
            match r {
                Some(id) => self.resolved(acc_name@) == Some(id@),
                None => self.resolved(acc_name@).is_none(),
            },
    {
        let mut i: usize = 0;
        assert(self.accessory_uuids@.subrange(0, self.accessory_uuids.len() as int)
            =~= self.accessory_uuids@);
        while i < self.accessory_uuids.len()
            invariant
                i <= self.accessory_uuids.len(),
                self.resolved(acc_name@) == noted(
                    self.accessory_uuids@.subrange(i as int, self.accessory_uuids.len() as int),
                    acc_name@,
                ),
            decreases self.accessory_uuids.len() - i,
        {
            let ghost rest = self.accessory_uuids@.subrange(
                i as int,
                self.accessory_uuids.len() as int,
            );
            assert(rest[0] == self.accessory_uuids@[i as int]);
            assert(rest.subrange(1, rest.len() as int) =~= self.accessory_uuids@.subrange(
                i + 1,
                self.accessory_uuids.len() as int,
            ));
            if self.accessory_uuids[i].name == *acc_name {
                return Some(self.accessory_uuids[i].unique_id.clone());
            }
            i += 1;
        }
        None
    }

    /// What a look-up of `name` comes to: how it turns the session `before`
    /// into the session `after`, and what the caller is told.
    pub open spec fn looked_up(
        before: Homebridge,
        after: Homebridge,
        name: Seq<char>,
        listing: Option<Reply<Vec<HBAccessory>>>,
        told: Result<Option<String>, HBError>,
    ) -> bool {
        match before.resolved(name) {
            Some(id) => {
                &&& told matches Ok(Some(t)) && t@ == id
                &&& after == before
            },
            None => match listing {
                None => told matches Ok(None) && after == before,
                Some(Reply::Unreachable(why)) => {
                    &&& told matches Err(HBError::UnableToConnect(e)) && e@ == why@
                    &&& after == before
                },
                Some(Reply::Answer { body: Err(why), .. }) => {
                    &&& told matches Err(HBError::ParsingError(e)) && e@
                        == "Error parsing `HBAccessories` data - "@ + why@
                    &&& after == before
                },
                Some(Reply::Answer { body: Ok(list), .. }) => match first_named(list@, name) {
                    None => {
                        &&& told matches Err(HBError::UnrecognizedAccessory(e)) && e@ == name
                        &&& after == before
                    },
                    Some(i) => {
                        &&& told matches Ok(Some(t)) && t@ == list@[i].unique_id@
                        &&& after.same_but_resolved(&before)
                        &&& forall|other: Seq<char>|
                            after.resolved(other) == if other == name {
                                Some(list@[i].unique_id@)
                            } else {
                                before.resolved(other)
                            }
                    },
                },
            },
        }
    }

    /// The identifier that the bridge gives to the accessory named `acc_name`.
    ///
    /// A name that was resolved before is answered from memory, and `listing`
    /// is not looked at. Otherwise the bridge's list is needed: without a reply
    /// in `listing` the result is `Ok(None)`, which asks the caller to send
    /// [`Homebridge::accessories_request`] and to call again with the reply.
    /// With a list, the first accessory whose service name is exactly
    /// `acc_name` gives the identifier, which is noted for later calls; a list
    /// without such an accessory is an error and nothing is noted.
    pub fn get_accessory_uuid(
        &mut self,
        acc_name: &str,
        listing: Option<Reply<Vec<HBAccessory>>>,
    ) -> (r: Result<Option<String>, HBError>)
        ensures
            Homebridge::looked_up(*old(self), *final(self), acc_name@, listing, r),
    {
        let name = String::from_str(acc_name);
        if let Some(id) = self.noted_uuid(&name) {
            return Ok(Some(id));
        }
        let list = match listing {
            None => {
                return Ok(None);
            },
            Some(Reply::Unreachable(why)) => {
                return Err(HBError::UnableToConnect(why));
            },
            Some(Reply::Answer { status: _, status_text: _, body }) => match body {
                Err(why) => {
                    return Err(
                        HBError::ParsingError(
                            String::from_str("Error parsing `HBAccessories` data - ").concat(
                                why.as_str(),
                            ),
                        ),
                    );
                },
                Ok(list) => list,
            },
        };
        let mut i: usize = 0;
        while i < list.len()
            invariant
                i <= list.len(),
                name@ == acc_name@,
                *self == *old(self),
                self.resolved(acc_name@).is_none(),
                listing matches Some(Reply::Answer { body: Ok(l), .. }) && l == list,
                forall|j: int| 0 <= j < i ==> list@[j].service_name@ != acc_name@,
            decreases list.len() - i,
        {
            if list[i].service_name == name {
                let id = list[i].unique_id.clone();
                proof {
                    lemma_first_named(list@, acc_name@, i as int);
                    lemma_noted_push(
                        self.accessory_uuids@,
                        ResolvedAccessory { name: name, unique_id: id },
                    );
                }
                self.accessory_uuids.push(ResolvedAccessory { name, unique_id: id.clone() });
                return Ok(Some(id));
            }
            i += 1;
        }
        proof {
            lemma_none_named(list@, acc_name@);
        }
        Err(HBError::UnrecognizedAccessory(name))
    }

    /// The identifier of the bed light: that of the accessory named "Bed Light".
    pub fn bed_light_uuid(&mut self, listing: Option<Reply<Vec<HBAccessory>>>) -> (r: Result<
        Option<String>,
        HBError,
    >)
        ensures
            Homebridge::looked_up(*old(self), *final(self), BED_LIGHT@, listing, r),
    {
        self.get_accessory_uuid(BED_LIGHT, listing)
    }

    /// The address of one accessory on the bridge.
    pub open spec fn accessory_url(&self, uuid: Seq<char>) -> Seq<char> {
        self.address() + "/api/accessories/"@ + uuid
    }

    /// The request that asks the bridge for the state of the bed light.
    pub fn status_request(&self, token: &str, uuid: &str) -> (r: Request)
        ensures
            r@ == (RequestView {
                method: Method::Get,
                url: self.accessory_url(uuid@),
                bearer: Some(token@),
                payload: PayloadView::Empty,
            }),
    {
        Request {
            method: Method::Get,
            url: self.ip_address.clone().concat("/api/accessories/").concat(uuid),
            bearer: Some(String::from_str(token)),
            payload: Payload::Empty,
        }
    }

    /// The request that sets one characteristic of the bed light.
    pub fn characteristic_request(
        &self,
        token: &str,
        uuid: &str,
        characteristic: &str,
        value: CharacteristicValue,
    ) -> (r: Request)
        ensures
            r@ == self.update(token@, uuid@, characteristic@, value@),
    {
        Request {
            method: Method::Put,
            url: self.ip_address.clone().concat("/api/accessories/").concat(uuid),
            bearer: Some(String::from_str(token)),
            payload: Payload::Characteristic {
                characteristic: String::from_str(characteristic),
                value,
            },
        }
    }

    /// The update of one characteristic of the accessory `uuid`.
    pub open spec fn update(
        &self,
        token: Seq<char>,
        uuid: Seq<char>,
        characteristic: Seq<char>,
        value: CharacteristicValueView,
    ) -> RequestView {
        RequestView {
            method: Method::Put,
            url: self.accessory_url(uuid),
            bearer: Some(token),
            payload: PayloadView::Characteristic { characteristic, value },
        }
    }

    /// The request that switches the bed light on.
    pub fn turn_bedlight_on(&self, token: &str, uuid: &str) -> (r: Request)
        ensures
            r@ == self.update(token@, uuid@, "On"@, CharacteristicValueView::Text("1"@)),
    {
        self.characteristic_request(
            token,
            uuid,
            "On",
            CharacteristicValue::Text(String::from_str("1")),
        )
    }

    /// The request that switches the bed light off.
    pub fn turn_bedlight_off(&self, token: &str, uuid: &str) -> (r: Request)
        ensures
            r@ == self.update(token@, uuid@, "On"@, CharacteristicValueView::Text("0"@)),
    {
        self.characteristic_request(
            token,
            uuid,
            "On",
            CharacteristicValue::Text(String::from_str("0")),
        )
    }

    /// The request that sets the brightness of the bed light.
    pub fn set_bedlight_brightness(&self, token: &str, uuid: &str, brightness: u8) -> (r: Request)
        ensures
            r@ == self.update(
                token@,
                uuid@,
                "Brightness"@,
                CharacteristicValueView::Number(brightness),
            ),
    {
        self.characteristic_request(
            token,
            uuid,
            "Brightness",
            CharacteristicValue::Number(brightness),
        )
    }

    /// The requests that set all values of the bed light, in the order in
    /// which they are to be sent: on, brightness, colour temperature, hue and
    /// saturation, each value written in decimal. They are separate updates:
    /// the bridge knows no way to apply them together, so a failure of one
    /// leaves the earlier ones applied.
    pub fn set_bedlight(&self, token: &str, uuid: &str, values: &HBLightbulbValues) -> (r: Vec<
        Request,
    >)
        ensures
            r@.len() == 5,
            r@[0]@ == self.update(token@, uuid@, "On"@, decimal_value(values.on as nat)),
            r@[1]@ == self.update(
                token@,
                uuid@,
                "Brightness"@,
                decimal_value(values.brightness as nat),
            ),
            r@[2]@ == self.update(
                token@,
                uuid@,
                "ColorTemperature"@,
                decimal_value(values.color_temperature as nat),
            ),
            r@[3]@ == self.update(token@, uuid@, "Hue"@, decimal_value(values.hue as nat)),
            r@[4]@ == self.update(
                token@,
                uuid@,
                "Saturation"@,
                decimal_value(values.saturation as nat),
            ),
    {
        let mut r: Vec<Request> = Vec::new();
        r.push(
            self.characteristic_request(
                token,
                uuid,
                "On",
                CharacteristicValue::Text(decimal(values.on)),
            ),
        );
        r.push(
            self.characteristic_request(
                token,
                uuid,
                "Brightness",
                CharacteristicValue::Text(decimal(values.brightness as u32)),
            ),
        );
        r.push(
            self.characteristic_request(
                token,
                uuid,
                "ColorTemperature",
                CharacteristicValue::Text(decimal(values.color_temperature)),
            ),
        );
        r.push(
            self.characteristic_request(
                token,
                uuid,
                "Hue",
                CharacteristicValue::Text(decimal(values.hue)),
            ),
        );
        r.push(
            self.characteristic_request(
                token,
                uuid,
                "Saturation",
                CharacteristicValue::Text(decimal(values.saturation)),
            ),
        );
        r
    }

    /// The request with which a caller finds out whether the bridge answers at all.
    pub fn connection_request(&self) -> (r: Request)
        ensures
            r@ == (RequestView {
                method: Method::Post,
                url: self.address(),
                bearer: None,
                payload: PayloadView::Empty,
            }),
    {
        Request {
            method: Method::Post,
            url: self.ip_address.clone(),
            bearer: None,
            payload: Payload::Empty,
        }
    }

    /// Whether the bridge answered the request of [`Homebridge::connection_request`]:
    /// any answer will do.
    pub fn check_connection<T>(&self, reply: Reply<T>) -> (r: Result<(), HBError>)
        ensures
            sent(reply, r),
    {
        write_outcome(reply)
    }

    /// The state of the bed light as the bridge reported it.
    pub fn get_bed_light_status(&self, reply: Reply<HBLightbulb>) -> (r: Result<
        HBLightbulb,
        HBError,
    >)
        ensures
            match reply {
                Reply::Unreachable(why) => r matches Err(HBError::UnableToConnect(e)) && e@
                    == why@,
                Reply::Answer { body: Err(why), .. } => r matches Err(HBError::ParsingError(e))
                    && e@ == "Error parsing `HBAccessories` data - "@ + why@,
                Reply::Answer { body: Ok(bulb), .. } => r == Ok::<HBLightbulb, HBError>(bulb),
            },
    {
        match reply {
            Reply::Unreachable(why) => Err(HBError::UnableToConnect(why)),
            Reply::Answer { status: _, status_text: _, body } => match body {
                Err(why) => Err(
                    HBError::ParsingError(
                        String::from_str("Error parsing `HBAccessories` data - ").concat(
                            why.as_str(),
                        ),
                    ),
                ),
                Ok(bulb) => Ok(bulb),
            },
        }
    }

    /// Whether the bridge reported the bed light as switched off.
    pub fn bed_light_is_off(&self, reply: Reply<HBLightbulb>) -> (r: Result<bool, HBError>)
        ensures
            match reply {
                Reply::Unreachable(why) => r matches Err(HBError::UnableToConnect(e)) && e@
                    == why@,
                Reply::Answer { body: Err(why), .. } => r matches Err(HBError::ParsingError(e))
                    && e@ == "Error parsing `HBAccessories` data - "@ + why@,
                Reply::Answer { body: Ok(bulb), .. } => r == Ok::<bool, HBError>(
                    bulb.values.on == 0,
                ),
            },
    {
        match self.get_bed_light_status(reply) {
            Ok(bulb) => Ok(bulb.values.on == 0),
            Err(e) => Err(e),
        }
    }
}

/// The name under which the bridge lists the bed light.
pub const BED_LIGHT: &'static str = "Bed Light";

/// A number as the text value of a characteristic.
pub open spec fn decimal_value(n: nat) -> CharacteristicValueView {
    CharacteristicValueView::Text(decimal_text(n))
}

/// What is told of a request whose answer carries nothing that is read: it
/// failed exactly where it could not be delivered.
pub open spec fn sent<T>(reply: Reply<T>, told: Result<(), HBError>) -> bool {
    match reply {
        Reply::Unreachable(why) => told matches Err(HBError::UnableToConnect(e)) && e@ == why@,
        Reply::Answer { .. } => told.is_ok(),
    }
}

/// What came of an update of a characteristic.
pub fn write_outcome<T>(reply: Reply<T>) -> (r: Result<(), HBError>)
    ensures
        sent(reply, r),
{
    match reply {
        Reply::Unreachable(why) => Err(HBError::UnableToConnect(why)),
        Reply::Answer { .. } => Ok(()),
    }
}

/// The place of the first accessory in `list` whose service name is `name`.
pub open spec fn first_named(list: Seq<HBAccessory>, name: Seq<char>) -> Option<int>
    decreases list.len(),
{
    if list.len() == 0 {
        None
    } else if list[0].service_name@ == name {
        Some(0)
    } else {
        match first_named(list.subrange(1, list.len() as int), name) {
            Some(i) => Some(i + 1),
            None => None,
        }
    }
}

/// The first accessory of a name is the one before which no other has it.
pub proof fn lemma_first_named(list: Seq<HBAccessory>, name: Seq<char>, i: int)
    requires
        0 <= i < list.len(),
        list[i].service_name@ == name,
        forall|j: int| 0 <= j < i ==> list[j].service_name@ != name,
    ensures
        first_named(list, name) == Some(i),
    decreases list.len(),
{
    if i > 0 {
        let rest = list.subrange(1, list.len() as int);
        assert(rest[i - 1] == list[i]);
        assert forall|j: int| 0 <= j < i - 1 implies rest[j].service_name@ != name by {
            assert(rest[j] == list[j + 1]);
        }
        lemma_first_named(rest, name, i - 1);
    }
}

/// A list in which no accessory has the name has no first one of that name.
pub proof fn lemma_none_named(list: Seq<HBAccessory>, name: Seq<char>)
    requires
        forall|j: int| 0 <= j < list.len() ==> list[j].service_name@ != name,
    ensures
        first_named(list, name).is_none(),
    decreases list.len(),
{
    if list.len() > 0 {
        let rest = list.subrange(1, list.len() as int);
        assert forall|j: int| 0 <= j < rest.len() implies rest[j].service_name@ != name by {
            assert(rest[j] == list[j + 1]);
        }
        lemma_none_named(rest, name);
    }
}

/// Noting one more entry answers for its name where none answered before, and
/// changes no other answer.
proof fn lemma_noted_push(entries: Seq<ResolvedAccessory>, entry: ResolvedAccessory)
    ensures
        forall|name: Seq<char>|
            noted(entries.push(entry), name) == if noted(entries, name).is_some() {
                noted(entries, name)
            } else if name == entry.name@ {
                Some(entry.unique_id@)
            } else {
                None
            },
    decreases entries.len(),
{
    let longer = entries.push(entry);
    let tail = longer.subrange(1, longer.len() as int);
    assert(longer[0] == if entries.len() == 0 {
        entry
    } else {
        entries[0]
    });
    if entries.len() > 0 {
        let rest = entries.subrange(1, entries.len() as int);
        lemma_noted_push(rest, entry);
        assert(tail =~= rest.push(entry));
    }
    assert forall|name: Seq<char>|
        noted(longer, name) == if noted(entries, name).is_some() {
            noted(entries, name)
        } else if name == entry.name@ {
            Some(entry.unique_id@)
        } else {
            None
        } by {
        if entries.len() == 0 {
            assert(tail.len() == 0);
            assert(noted(tail, name).is_none());
        }
    }
}

/// A token that the bridge granted stays in use until the margin before its
/// end: at every instant before the expiry the session counts as fresh, so
/// that no login is asked for. Where the token lives longer than the margin,
/// that holds from the instant of the grant on.
pub proof fn lemma_token_lasts(
    before: Homebridge,
    after: Homebridge,
    now: Timestamp,
    login: Reply<HBAuth>,
    token: String,
    later: Timestamp,
)
    requires
        Homebridge::renewed(before, after, now, login, Ok(token)),
        login matches Reply::Answer { body: Ok(auth), .. } && later.before(
            Homebridge::expiry_of(now, auth.expires_in),
        ),
    ensures
        after.fresh(later),
        login matches Reply::Answer { body: Ok(auth), .. } && (auth.expires_in
            > TOKEN_MARGIN_SECONDS && now.in_span() ==> after.fresh(now)),
{
}

} // verus!
