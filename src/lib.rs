//! Encoder for the TCode v0.3 text protocol: axis positions, timed axis
//! moves and vibration levels become newline-framed ASCII commands, packed
//! into one write request for a device's transmit endpoint.
//!
//! `encoder` holds the handler and the byte-exact definitions of its
//! payloads, `decimal` the number formatting they rest on, `hardware` the
//! outbound command types, `protocol` the handler trait, and `lemmas`
//! proved facts about the format.

pub mod decimal;
pub mod encoder;
pub mod hardware;
pub mod lemmas;
pub mod protocol;

pub use encoder::TCodeV03;
pub use hardware::{HardwareCommand, HardwareWriteCmd};
pub use protocol::ProtocolHandler;
