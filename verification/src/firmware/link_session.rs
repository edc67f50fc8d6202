//! The decisions of one USB link session: how long to wait for the host,
//! when the link counts as lost, and what to answer.

use vstd::prelude::*;

use crate::firmware::scaffold::{
    spec_control_applied_report, spec_controller_status, spec_handle_host_message, spec_initial_scaffold,
    FirmwareScaffold,
};
use crate::protocol::{
    ControllerMessage, ControllerResponse, ControllerResponsePayload, ReportMessage, ReportPayload, WireMessage,
};
use crate::units::{CoreError, Mode};

verus! {

/// What the link brought: a timeout, a failed read or write, or a decoded message.
#[derive(Clone, Debug, PartialEq, Eq)]
pub enum LinkEvent {
    /// Nothing arrived within the link timeout.
    TimedOut,
    /// Reading from the host failed.
    ReadFailed,
    /// Writing to the host failed.
    WriteFailed,
    /// A message arrived.
    Message(WireMessage),
}

/// How long to wait for the host before the link counts as lost: the
/// configured link timeout, at least one millisecond.
pub fn link_wait_ms(s: &FirmwareScaffold) -> (ms: u64)
    ensures
        ms == (if s.control.limits.link_timeout_ms.0 >= 1 { s.control.limits.link_timeout_ms.0 as u64 } else { 1 }),
{
    if s.control.limits.link_timeout_ms.0 >= 1 {
        s.control.limits.link_timeout_ms.0 as u64
    } else {
        1
    }
}

/// The answer sent instead of `reply` when the hardware could not take the
/// new state: a response carries the controller status under its request
/// id, a control acknowledgement is reported afresh from the scaffold.
pub open spec fn spec_status_reply(s: FirmwareScaffold, reply: ControllerMessage) -> ControllerMessage {
    match reply {
        ControllerMessage::Response(r) => ControllerMessage::Response(
            ControllerResponse { request_id: r.request_id, payload: ControllerResponsePayload::ControllerStatus(spec_controller_status(s)) },
        ),
        ControllerMessage::Report(ReportMessage { payload: ReportPayload::ControlApplied(c) }) => ControllerMessage::Report(
            ReportMessage { payload: ReportPayload::ControlApplied(spec_control_applied_report(s, c.generation)) },
        ),
        other => other,
    }
}

/// The scaffold after the link was lost: freshly booted, in fault mode,
/// with the link timeout as its error.
pub open spec fn spec_link_fault(s: FirmwareScaffold) -> bool {
    &&& spec_initial_scaffold(FirmwareScaffold {
        control: crate::firmware::control::ControlLoop { mode: Mode::Teleop, last_error: None, ..s.control },
        ..s
    })
    &&& s.control.mode == Mode::Fault
    &&& s.control.last_error == Some(CoreError::LinkTimedOut)
}

/// One step of a link session. A timeout or a failed read or write puts
/// the board into its safe fault state with a link-timeout error and
/// answers nothing; after a failed read or write the caller ends the
/// session, after a timeout it keeps waiting. A message is applied to the
/// scaffold; its answer goes back as is when the hardware took the new
/// state (`sync_ok`). Otherwise a response becomes the controller status
/// under the same request id and a control acknowledgement is reported
/// afresh from the scaffold; any other answer goes back unchanged.
pub fn link_session_step(s: &mut FirmwareScaffold, event: LinkEvent, sync_ok: bool) -> (reply: Option<WireMessage>)
    ensures
        !(event is Message) ==> spec_link_fault(*final(s)) && reply is None,
        event matches LinkEvent::Message(m) ==> match m {
            WireMessage::Host(host) => {
                &&& *final(s) == spec_handle_host_message(*old(s), host).0
                &&& reply == Some(WireMessage::Controller(if sync_ok {
                    spec_handle_host_message(*old(s), host).1
                } else {
                    spec_status_reply(*final(s), spec_handle_host_message(*old(s), host).1)
                }))
            },
            WireMessage::Controller(_) => reply is None && *final(s) == *old(s),
        },
{
    match event {
        LinkEvent::Message(message) => {
            let reply = s.apply_wire_message(message);
            if sync_ok {
                return reply;
            }
            match reply {
                Some(WireMessage::Controller(ControllerMessage::Response(r))) => Some(
                    WireMessage::Controller(
                        ControllerMessage::Response(
                            ControllerResponse {
                                request_id: r.request_id,
                                payload: ControllerResponsePayload::ControllerStatus(s.controller_status()),
                            },
                        ),
                    ),
                ),
                Some(
                    WireMessage::Controller(
                        ControllerMessage::Report(ReportMessage { payload: ReportPayload::ControlApplied(c) }),
                    ),
                ) => Some(
                    WireMessage::Controller(
                        ControllerMessage::Report(
                            ReportMessage { payload: ReportPayload::ControlApplied(s.control_applied_report(c.generation)) },
                        ),
                    ),
                ),
                other => other,
            }
        },
        _ => {
            s.enter_fault_state(Some(CoreError::LinkTimedOut));
            None
        },
    }
}

} // verus!
