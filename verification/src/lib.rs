//! Verified core of the voice kiosk backend: the decisions of the Codex agent
//! client, the realtime and signaling connections, the session registry and the
//! speech-to-text pipeline, each a function of plain values with a contract.
use vstd::prelude::*;

pub mod agent;
pub mod json;
pub mod realtime;
pub mod sessions;
pub mod signaling;
pub mod stt;
pub mod text;
pub mod transcript;

verus! {
} // verus!
