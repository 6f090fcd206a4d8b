//! Requests that the library asks its caller to send, and the replies it takes back.
//!
//! The library never talks to the network. It describes a request as plain
//! values; the caller sends it, decodes the body and hands the reply in.

use vstd::prelude::*;

verus! {

/// The method of a request.
#[derive(Clone, Copy, Debug, PartialEq, Eq, Structural)]
pub enum Method {
    Get,
    Post,
    Put,
}

/// The value of a characteristic in an update.
#[derive(Debug, PartialEq, Eq)]
pub enum CharacteristicValue {
    Text(String),
    Number(u8),
}

/// A [`CharacteristicValue`] as the contracts speak of it.
pub enum CharacteristicValueView {
    Text(Seq<char>),
    Number(u8),
}

impl View for CharacteristicValue {
    type V = CharacteristicValueView;

    open spec fn view(&self) -> CharacteristicValueView {
        match self {
            CharacteristicValue::Text(t) => CharacteristicValueView::Text(t@),
            CharacteristicValue::Number(n) => CharacteristicValueView::Number(*n),
        }
    }
}

/// What a request carries as its JSON body.
#[derive(Debug, PartialEq, Eq)]
pub enum Payload {
    Empty,
    /// An object with the members `username` and `password`.
    Credentials { username: String, password: String },
    /// An object with the members `characteristicType` and `value`.
    Characteristic { characteristic: String, value: CharacteristicValue },
}

/// A [`Payload`] as the contracts speak of it.
pub enum PayloadView {
    Empty,
    Credentials { username: Seq<char>, password: Seq<char> },
    Characteristic { characteristic: Seq<char>, value: CharacteristicValueView },
}

impl View for Payload {
    type V = PayloadView;

    open spec fn view(&self) -> PayloadView {
        match self {
            Payload::Empty => PayloadView::Empty,
            Payload::Credentials { username, password } => PayloadView::Credentials {
                username: username@,
                password: password@,
            },
            Payload::Characteristic { characteristic, value } => PayloadView::Characteristic {
                characteristic: characteristic@,
                value: value@,
            },
        }
    }
}

/// One HTTP request for the caller to send.
#[derive(Debug, PartialEq, Eq)]
pub struct Request {
    pub method: Method,
    pub url: String,
    /// The bearer token to authorise the request with, if any.
    pub bearer: Option<String>,
    pub payload: Payload,
}

/// A [`Request`] as the contracts speak of it.
pub struct RequestView {
    pub method: Method,
    pub url: Seq<char>,
    pub bearer: Option<Seq<char>>,
    pub payload: PayloadView,
}

impl View for Request {
    type V = RequestView;

    open spec fn view(&self) -> RequestView {
        RequestView {
            method: self.method,
            url: self.url@,
            bearer: match self.bearer {
                Some(t) => Some(t@),
                None => None,
            },
            payload: self.payload@,
        }
    }
}

/// What came of a request.
#[derive(Debug)]
pub enum Reply<T> {
    /// The request could not be sent or no answer came; the text says why.
    Unreachable(String),
    /// An answer came. `body` is the decoded body, or the reason why it could
    /// not be decoded into the shape that was expected.
    Answer { status: u16, status_text: String, body: Result<T, String> },
}

/// `text` begins with `prefix`.
pub open spec fn starts_with(text: Seq<char>, prefix: Seq<char>) -> bool {
    exists|rest: Seq<char>| text == prefix + rest
}

} // verus!
