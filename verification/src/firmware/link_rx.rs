//! Receive-side link bookkeeping.

use vstd::prelude::*;

use crate::protocol::{spec_host_message_kind, HostMessage, RequestPayload};
use crate::units::Mode;

verus! {

/// Receive task state for the USB and serial link.
#[derive(Clone, Copy, Debug)]
pub struct LinkRxTask {
    /// Last requested robot mode from the host.
    pub last_requested_mode: Option<Mode>,
    /// Last audio chunk index accepted from the host.
    pub last_audio_chunk_index: Option<u16>,
    /// Last Trellis LED mask received from the host.
    pub last_trellis_led_mask: Option<u16>,
    /// Last host message kind observed on the wire.
    pub last_message_kind: Option<&'static str>,
}

/// The receive state after observing `message`.
pub open spec fn spec_record_host_message(task: LinkRxTask, message: HostMessage) -> LinkRxTask {
    let task = LinkRxTask { last_message_kind: Some(spec_host_message_kind(message)), ..task };
    match message {
        HostMessage::Control(control) => LinkRxTask {
            last_requested_mode: Some(control.desired_state.mode),
            ..task
        },
        HostMessage::Request(request) => match request.payload {
            RequestPayload::PlayAudio(chunk) => LinkRxTask {
                last_audio_chunk_index: Some(chunk.chunk_index),
                ..task
            },
            RequestPayload::SetTrellisLeds(command) => LinkRxTask {
                last_trellis_led_mask: Some(command.led_mask),
                ..task
            },
            _ => task,
        },
    }
}

impl LinkRxTask {
    /// Nothing received yet.
    pub fn new() -> (task: Self)
        ensures
            task.last_requested_mode is None,
            task.last_audio_chunk_index is None,
            task.last_trellis_led_mask is None,
            task.last_message_kind is None,
    {
        LinkRxTask {
            last_requested_mode: None,
            last_audio_chunk_index: None,
            last_trellis_led_mask: None,
            last_message_kind: None,
        }
    }

    /// Record the most recent host message accepted from the wire.
    pub fn record_message(&mut self, message: &HostMessage)
        ensures
            *final(self) == spec_record_host_message(*old(self), *message),
    {
        self.last_message_kind = Some(message.kind());

        match message {
            HostMessage::Control(control) => {
                self.last_requested_mode = Some(control.desired_state.mode);
            },
            HostMessage::Request(request) => match &request.payload {
                RequestPayload::PlayAudio(chunk) => {
                    self.last_audio_chunk_index = Some(chunk.chunk_index);
                },
                RequestPayload::SetTrellisLeds(command) => {
                    self.last_trellis_led_mask = Some(command.led_mask);
                },
                RequestPayload::GetControllerStatus
                | RequestPayload::SetParam(_)
                | RequestPayload::ConfigureReports(_) => {},
            },
        }
    }
}

impl Default for LinkRxTask {
    fn default() -> (task: Self)
        ensures
            task.last_requested_mode is None,
            task.last_audio_chunk_index is None,
            task.last_trellis_led_mask is None,
            task.last_message_kind is None,
    {
        Self::new()
    }
}

} // verus!
