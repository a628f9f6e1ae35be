//! The logic of an ESP32 that proxies Bluetooth Low Energy devices over
//! MQTT: it takes JSON requests on its topic (scan for devices, read, write
//! or subscribe to a characteristic, arithmetic, identity and heap figures),
//! and answers each with exactly one response carrying the request's id.
//!
//! - `json`: the model of JSON documents the requests and answers carry.
//! - `rpc`: the messages, and the methods that need no outside work.
//! - `session`: how a request is served, step by step, as a state machine
//!   whose actions the device performs (Bluetooth, heap figures).
//! - `hex`: the hexadecimal text of characteristic values.
//! - `text`: decimal and `Debug` notation used in messages.
//! - `mqtt`: topics, the connection's message queue and its
//!   (re)initialisation.
//! - `identity`: the device's UUID, made once and kept in flash.
//! - `config`: the Wi-Fi and broker settings.
//! - `wifi`: the supervision of the Wi-Fi link, scans and the LED rhythm.

pub mod json;
pub mod text;
pub mod hex;
pub mod rpc;
pub mod session;
pub mod mqtt;
pub mod identity;
pub mod config;
pub mod wifi;
pub mod laws;
