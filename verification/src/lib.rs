//! The decisions behind the fan and switch entities that a Govee bridge
//! presents to Home Assistant over MQTT: which entities a device gets, how they
//! are announced, what an incoming command asks of the device, and what state
//! is published back.
pub mod device;
pub mod entity;
pub mod fan;
pub mod fan_control;
pub mod json;
pub mod laws;
pub mod results;
pub mod search;
pub mod switch;
pub mod text;
