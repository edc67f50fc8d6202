//! Verified control plane for the mortimmy rover: shared units and
//! protocol messages, the RP2350 firmware scaffold, and the host-side
//! brain, input, and console logic.

pub mod units;
pub mod samples;
pub mod protocol;
pub mod firmware;
pub mod text;
pub mod host;
