//! The two programs that decide, tick by tick, what to ask of the light.

pub mod control_evening_lights;
pub mod turn_morning_lights_off;
