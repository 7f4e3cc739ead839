//! Verified core of a robot-control WebSocket relay.
//!
//! The library holds the logic of the relay: translating robot telemetry
//! envelopes into UI markup fragments, the per-direction forwarding rules,
//! the session state machine with mutual cancellation, and the process-wide
//! lifecycle flag. Socket handling and host integration live outside, in an
//! unverified shell that calls into these functions.

pub mod envelope;
pub mod json;
pub mod lifecycle;
pub mod markup;
pub mod relay;
pub mod text;
