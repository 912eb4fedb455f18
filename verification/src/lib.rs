//! Bridge between a prompt-delimited heating-controller daemon and an MQTT
//! broker: the protocol codec, the session and scheduler state machines and
//! the rules that decide what is published, all with machine-checked
//! contracts.

pub mod config;
pub mod error;
pub mod json;
pub mod mqtt;
pub mod number;
pub mod polling;
pub mod process;
pub mod supervisor;
pub mod text;
pub mod vcontrold;
