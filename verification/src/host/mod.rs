//! Host-side brain, operator input, and console logic.

pub mod input;
pub mod brain;
pub mod keyboard;
pub mod registry;
pub mod gamepad;
pub mod transport;
pub mod audio;
pub mod config;
pub mod test_plan;
pub mod ui;
pub mod routing;
pub mod autonomy;
pub mod logging;
pub mod tui;
pub mod cli;
pub mod nexo;
pub mod loopback;
pub mod websocket;
pub mod scripted;
