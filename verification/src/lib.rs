//! Core of a low-latency desktop streaming server: the framed wire protocol,
//! the per-client session state machine, encoder parameter selection, cursor
//! and rotation arithmetic for the capture pipeline, input-event planning,
//! and the transport framing layers.

pub mod capture;
pub mod encoder;
pub mod identity;
pub mod input;
pub mod json;
pub mod payloads;
pub mod protocol;
pub mod session;
pub mod text;
pub mod transport;
