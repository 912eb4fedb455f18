//! The broker's side of the bridge: what is published, what is subscribed
//! to, and how the session reacts to what the broker reports.

pub mod client;
pub mod publisher;
pub mod subscriber;
