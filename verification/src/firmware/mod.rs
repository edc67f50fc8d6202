//! Board-aware firmware scaffold for the motion and audio controller images.

pub mod board;
pub mod drive;
pub mod servo;
pub mod control;
pub mod link_rx;
pub mod sensors;
pub mod link_tx;
pub mod audio_out;
pub mod deploy;
pub mod trellis;
pub mod usb;
pub mod scaffold;
pub mod runtime;
pub mod display;
pub mod ultrasonic;
pub mod link_session;
