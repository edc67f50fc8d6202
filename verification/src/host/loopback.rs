//! A transport that hands host messages to an in-process firmware scaffold,
//! for development without a robot.

use vstd::prelude::*;

use crate::firmware::scaffold::{spec_handle_host_message, spec_initial_scaffold, FirmwareScaffold};
use crate::host::config::DEFAULT_DEVICE_PATH;
use crate::host::config::SerialConfig;
use crate::protocol::{ControlMessage, ControllerMessage, ControllerStatus, HostMessage, RequestId, RequestMessage, RequestPayload};

verus! {

/// A simulated controller behind a loopback link.
#[derive(Debug)]
pub struct LoopbackPicoTransport {
    device_path: String,
    device: FirmwareScaffold,
    next_request_id: u16,
}

impl LoopbackPicoTransport {
    /// The simulated controller's state.
    pub closed spec fn device(&self) -> FirmwareScaffold {
        self.device
    }

    /// The id the next request gets.
    pub closed spec fn next_id(&self) -> u16 {
        self.next_request_id
    }

    /// The path the link is reported under.
    pub closed spec fn path(&self) -> Seq<char> {
        self.device_path@
    }

    /// A loopback link reported under the primary device path of
    /// `serial_config`, to a controller fresh from boot; requests are
    /// numbered from one.
    pub fn new(serial_config: SerialConfig) -> (transport: Self)
        ensures
            spec_initial_scaffold(transport.device()),
            transport.next_id() == 1,
            transport.path() == (if serial_config.device_paths@.len() > 0 {
                serial_config.device_paths@[0]@
            } else {
                DEFAULT_DEVICE_PATH@
            }),
    {
        let path = serial_config.primary_device_path();
        let device_path = crate::text::chars_to_string(crate::text::str_to_chars(path).as_slice());
        LoopbackPicoTransport { device_path, device: FirmwareScaffold::new(), next_request_id: 1 }
    }

    /// Hand one host message to the controller and collect its replies.
    fn exchange(&mut self, message: HostMessage) -> (replies: Vec<ControllerMessage>)
        ensures
            replies@ == seq![spec_handle_host_message(old(self).device(), message).1],
            final(self).device() == spec_handle_host_message(old(self).device(), message).0,
            final(self).next_id() == old(self).next_id(),
            final(self).path() == old(self).path(),
    {
        let mut replies: Vec<ControllerMessage> = Vec::new();
        match self.device.handle_host_message(message) {
            Some(reply) => replies.push(reply),
            None => {},
        }
        replies
    }

    /// Send one control snapshot; the replies are the controller's.
    pub fn send_control(&mut self, control: ControlMessage) -> (replies: Vec<ControllerMessage>)
        ensures
            replies@ == seq![spec_handle_host_message(old(self).device(), HostMessage::Control(control)).1],
            final(self).device() == spec_handle_host_message(old(self).device(), HostMessage::Control(control)).0,
            final(self).next_id() == old(self).next_id(),
    {
        self.exchange(HostMessage::Control(control))
    }

    /// Send one request under the next request id, which then advances
    /// (wrapping); the replies are the controller's.
    pub fn send_request(&mut self, request: RequestPayload) -> (replies: Vec<ControllerMessage>)
        ensures
            ({
                let message = HostMessage::Request(RequestMessage { request_id: RequestId(old(self).next_id()), payload: request });
                &&& replies@ == seq![spec_handle_host_message(old(self).device(), message).1]
                &&& final(self).device() == spec_handle_host_message(old(self).device(), message).0
            }),
            final(self).next_id() == (if old(self).next_id() == u16::MAX { 0 } else { (old(self).next_id() + 1) as u16 }),
    {
        let request_id = RequestId(self.next_request_id);
        self.next_request_id = if self.next_request_id == u16::MAX { 0 } else { self.next_request_id + 1 };
        self.exchange(HostMessage::Request(RequestMessage { request_id, payload: request }))
    }

    /// Messages the controller sent on its own: none on a loopback link.
    pub fn drain_messages(&mut self) -> (messages: Vec<ControllerMessage>)
        ensures
            messages@.len() == 0,
            final(self).device() == old(self).device(),
            final(self).next_id() == old(self).next_id(),
    {
        Vec::new()
    }

    /// The path the link is reported under.
    pub fn device_path(&self) -> (path: &str)
        ensures
            path@ == self.path(),
    {
        self.device_path.as_str()
    }

    /// The simulated controller's status.
    pub fn status(&self) -> (status: ControllerStatus)
        ensures
            status == crate::firmware::scaffold::spec_controller_status(self.device()),
    {
        self.device.controller_status()
    }
}

} // verus!
