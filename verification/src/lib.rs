//! Signaling-message protocol layer for a multi-party audio/video/chat room
//! server: a closed catalog of message kinds, an envelope for wire exchange,
//! per-kind payload decoders from an untyped JSON value, and the mirror
//! encoders back to wire form.

pub mod candidate;
pub mod envelope;
pub mod error;
pub mod json;
pub mod kind;
pub mod locale;
pub mod payloads;
pub mod sdp;
