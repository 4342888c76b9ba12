//! Client-side protocol and session logic of a VR streaming client: the
//! capability / negotiated-config codec, stream renegotiation policy, the
//! session lifecycle state machine and the frame pacing decisions.

pub mod capabilities;
pub mod document;
pub mod float_bits;
pub mod pacing;
pub mod packets;
pub mod path;
pub mod platform;
pub mod session;
pub mod stream_config;
