//! Verified core of a pair of small WebSocket services: a JSON request proxy
//! and a plain-text heartbeat echo.
//!
//! The library holds everything that can be decided without touching the
//! network: classifying inbound frames, validating and answering proxy
//! requests, building the heartbeat reply, and the session state machine
//! that governs one connection's lifetime. The surrounding process performs
//! the actual reads, writes and HTTP calls and feeds their outcomes back in
//! as plain values.

pub mod heartbeat;
pub mod json;
pub mod proxy;
pub mod session;
pub mod text;
