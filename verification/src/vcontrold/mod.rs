//! The device daemon's side of the bridge: the wire protocol and the session
//! that speaks it.

pub mod client;
pub mod framing;
pub mod protocol;
