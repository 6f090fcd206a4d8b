//! Scheduling core for a single smart light behind a home-automation bridge.
//!
//! The crate holds the decisions: when a session token must be renewed, which
//! accessory a name stands for, whether the morning switch-off is due and which
//! brightness the evening ramp asks for. Sending requests, sleeping and reading
//! the wall clock are left to the caller, who hands in the current time and the
//! replies it received.
//!
//! A function that may need something from outside takes it as an `Option`.
//! Called with `None`, it either answers from what it knows or tells the
//! caller what to obtain; called again with the reply, it goes on from there.
//!
//! - [`clock`]: instants, local times and times of day as plain integers.
//! - [`transport`]: requests to send and replies that came back.
//! - [`homebridge`]: the session with the bridge and the light behind it.
//! - [`suntimes`]: today's sunrise and sunset.
//! - [`programs`]: the morning switch-off and the evening ramp.
//! - [`configuration`]: the settings of the two programs.
//! - [`text`]: numbers written in decimal.

pub mod clock;
pub mod configuration;
pub mod homebridge;
pub mod programs;
pub mod suntimes;
pub mod text;
pub mod transport;
