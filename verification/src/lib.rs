//! Control logic of a smart door lock: the firmware's motor and lock state,
//! its Bluetooth advertisement, the gateway that relays lock state over HTTP,
//! and the API service that routes web requests and MQTT events.

pub mod motor;
pub mod lock;
pub mod firmware;
pub mod text;
pub mod api;
pub mod server;
pub mod gateway;
pub mod device;
