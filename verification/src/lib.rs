//! Pairing and synchronisation core of a two-device companion display.
//!
//! Each device shows a face on a small monochrome display, lets its user pick
//! a face with a rotary encoder and a push button, and mirrors the pick on a
//! sibling device over an MQTT broker once both sides have acknowledged it.
//!
//! This crate holds the decisions of that device: decoding the encoder,
//! choosing a network and retrying the join, framing and dispatching protocol
//! messages, and arbitrating between input, display and network. Everything
//! that waits on hardware or on the network lives with the caller, which
//! performs the actions these functions return and reports the outcomes back.

pub mod encoder;
pub mod select_face;
pub mod status;
pub mod messages;
pub mod mqtt;
pub mod net;
pub mod re_input;
pub mod scheduler;
