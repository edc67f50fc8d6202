//! Routing decisions of the host transport: which controller receives a
//! control snapshot or a request, what a reply tells about a controller, and
//! when two controllers claim the same role.
//!
//! Opening serial devices and moving bytes is the application's part.

use vstd::prelude::*;

use crate::protocol::{
    CAPABILITY_AUDIO_OUTPUT, CAPABILITY_DRIVE, CAPABILITY_SERVO, CAPABILITY_TEXT_DISPLAY,
    ControllerCapabilities, ControllerMessage, ControllerResponsePayload, ControllerRole,
    ControllerStatus, ParameterKey, RequestPayload,
};

verus! {

/// Which protocol transport the host brain uses.
#[derive(Clone, Copy, Debug, PartialEq, Eq, Structural)]
pub enum TransportBackendKind {
    /// Framed packets exchanged with an in-process firmware scaffold.
    Loopback,
    /// Framed packets exchanged with live Pico USB CDC serial devices.
    Serial,
}

impl Default for TransportBackendKind {
    fn default() -> (kind: Self)
        ensures
            kind == TransportBackendKind::Serial,
    {
        TransportBackendKind::Serial
    }
}

impl TransportBackendKind {
    /// Whether the backend can deliver reports and events nobody asked for.
    pub fn supports_unsolicited_messages(self) -> (supported: bool)
        ensures
            supported == (self == TransportBackendKind::Serial),
    {
        match self {
            TransportBackendKind::Loopback => false,
            TransportBackendKind::Serial => true,
        }
    }
}

/// A discovered controller: its device path and last status.
#[derive(Clone, Debug, PartialEq, Eq)]
pub struct ConnectedController {
    pub device_path: String,
    pub status: ControllerStatus,
}

/// Whether a capability bit is set.
pub open spec fn spec_has(status: ControllerStatus, bit: u32) -> bool {
    status.capabilities.spec_contains(ControllerCapabilities(bit))
}

/// Whether a controller takes control snapshots: it drives or moves servos.
pub open spec fn spec_accepts_control(status: ControllerStatus) -> bool {
    spec_has(status, CAPABILITY_DRIVE) || spec_has(status, CAPABILITY_SERVO)
}

/// Whether a controller takes a request: status and report configuration go
/// everywhere, the link timeout too; every other parameter, audio and the
/// LEDs go where the matching capability is.
pub open spec fn spec_accepts_request(status: ControllerStatus, request: RequestPayload) -> bool {
    match request {
        RequestPayload::GetControllerStatus => true,
        RequestPayload::ConfigureReports(_) => true,
        RequestPayload::SetParam(update) => match update.key {
            ParameterKey::MaxDrivePwm => spec_has(status, CAPABILITY_DRIVE),
            ParameterKey::MaxServoStep => spec_has(status, CAPABILITY_SERVO),
            ParameterKey::LinkTimeoutMs => true,
            ParameterKey::TrellisBrightness => spec_has(status, CAPABILITY_TEXT_DISPLAY),
            ParameterKey::TrellisPollIntervalMs => spec_has(status, CAPABILITY_TEXT_DISPLAY),
            ParameterKey::AudioChunkSamples => spec_has(status, CAPABILITY_AUDIO_OUTPUT),
        },
        RequestPayload::PlayAudio(_) => spec_has(status, CAPABILITY_AUDIO_OUTPUT),
        RequestPayload::SetTrellisLeds(_) => spec_has(status, CAPABILITY_TEXT_DISPLAY),
    }
}

/// Return whether a controller takes control snapshots.
pub fn controller_accepts_control(status: ControllerStatus) -> (accepts: bool)
    ensures
        accepts == spec_accepts_control(status),
{
    status.capabilities.contains(ControllerCapabilities::from_bits(CAPABILITY_DRIVE))
        || status.capabilities.contains(ControllerCapabilities::from_bits(CAPABILITY_SERVO))
}

/// Return whether a controller takes a request.
pub fn controller_accepts_request(status: ControllerStatus, request: &RequestPayload) -> (accepts: bool)
    ensures
        accepts == spec_accepts_request(status, *request),
{
    let caps = status.capabilities;
    match request {
        RequestPayload::GetControllerStatus => true,
        RequestPayload::ConfigureReports(_) => true,
        RequestPayload::SetParam(update) => match update.key {
            ParameterKey::MaxDrivePwm => caps.contains(ControllerCapabilities::from_bits(CAPABILITY_DRIVE)),
            ParameterKey::MaxServoStep => caps.contains(ControllerCapabilities::from_bits(CAPABILITY_SERVO)),
            ParameterKey::LinkTimeoutMs => true,
            ParameterKey::TrellisBrightness => caps.contains(ControllerCapabilities::from_bits(CAPABILITY_TEXT_DISPLAY)),
            ParameterKey::TrellisPollIntervalMs => caps.contains(
                ControllerCapabilities::from_bits(CAPABILITY_TEXT_DISPLAY),
            ),
            ParameterKey::AudioChunkSamples => caps.contains(ControllerCapabilities::from_bits(CAPABILITY_AUDIO_OUTPUT)),
        },
        RequestPayload::PlayAudio(_) => caps.contains(ControllerCapabilities::from_bits(CAPABILITY_AUDIO_OUTPUT)),
        RequestPayload::SetTrellisLeds(_) => caps.contains(ControllerCapabilities::from_bits(CAPABILITY_TEXT_DISPLAY)),
    }
}

/// The status a message reports, when it is a status response.
pub open spec fn spec_status_of(message: ControllerMessage) -> Option<ControllerStatus> {
    match message {
        ControllerMessage::Response(response) => match response.payload {
            ControllerResponsePayload::ControllerStatus(status) => Some(status),
            _ => None,
        },
        _ => None,
    }
}

/// The status after reading `messages`: the last status response among
/// them, or `current` when there is none.
pub open spec fn spec_updated_status(current: Option<ControllerStatus>, messages: Seq<ControllerMessage>) -> Option<
    ControllerStatus,
>
    decreases messages.len(),
{
    if messages.len() == 0 {
        current
    } else {
        match spec_status_of(messages.last()) {
            Some(status) => Some(status),
            None => spec_updated_status(current, messages.drop_last()),
        }
    }
}

/// The first status response among `messages`, if any.
pub open spec fn spec_first_status(messages: Seq<ControllerMessage>) -> Option<ControllerStatus>
    decreases messages.len(),
{
    if messages.len() == 0 {
        None
    } else {
        match spec_status_of(messages[0]) {
            Some(status) => Some(status),
            None => spec_first_status(messages.drop_first()),
        }
    }
}

/// Return the status a message reports, when it is a status response.
pub fn status_of(message: &ControllerMessage) -> (status: Option<ControllerStatus>)
    ensures
        status == spec_status_of(*message),
{
    match message {
        ControllerMessage::Response(response) => match response.payload {
            ControllerResponsePayload::ControllerStatus(status) => Some(status),
            _ => None,
        },
        _ => None,
    }
}

/// Return the status after reading `messages`.
pub fn update_status_from_messages(current: Option<ControllerStatus>, messages: &[ControllerMessage]) -> (status:
    Option<ControllerStatus>)
    ensures
        status == spec_updated_status(current, messages@),
{
    let mut status = current;
    let mut i: usize = 0;
    while i < messages.len()
        invariant
            i <= messages@.len(),
            status == spec_updated_status(current, messages@.take(i as int)),
        decreases messages@.len() - i,
    {
        assert(messages@.take(i + 1).drop_last() == messages@.take(i as int));
        assert(messages@.take(i + 1).last() == messages@[i as int]);
        match status_of(&messages[i]) {
            Some(s) => status = Some(s),
            None => {},
        }
        i += 1;
    }
    assert(messages@.take(messages@.len() as int) == messages@);
    status
}

/// Return the first status response among `messages`, if any: what
/// discovery learns from a status request.
pub fn first_status_response(messages: &[ControllerMessage]) -> (status: Option<ControllerStatus>)
    ensures
        status == spec_first_status(messages@),
{
    assert(messages@.subrange(0, messages@.len() as int) =~= messages@);
    let mut i: usize = 0;
    while i < messages.len()
        invariant
            i <= messages@.len(),
            spec_first_status(messages@) == spec_first_status(messages@.subrange(i as int, messages@.len() as int)),
        decreases messages@.len() - i,
    {
        let ghost rest = messages@.subrange(i as int, messages@.len() as int);
        assert(rest[0] == messages@[i as int]);
        assert(rest.drop_first() == messages@.subrange(i + 1, messages@.len() as int));
        match status_of(&messages[i]) {
            Some(s) => {
                return Some(s);
            },
            None => {},
        }
        i += 1;
    }
    None
}

/// The device paths of the controllers of `s` with `role`, in order.
pub open spec fn spec_paths_with_role(s: Seq<ConnectedController>, role: ControllerRole) -> Seq<Seq<char>>
    decreases s.len(),
{
    if s.len() == 0 {
        Seq::empty()
    } else {
        let rest = spec_paths_with_role(s.drop_last(), role);
        if s.last().status.controller_role == role {
            rest.push(s.last().device_path@)
        } else {
            rest
        }
    }
}

/// Whether a controller after index `i` has the role of controller `i`.
pub open spec fn spec_role_repeats(s: Seq<ConnectedController>, i: int) -> bool {
    exists|j: int| i < j < s.len() && #[trigger] s[j].status.controller_role == s[i].status.controller_role
}

/// The first role claimed twice, with the path of its first claimant followed
/// by the paths of the later ones, in order; none when every role is unique.
pub open spec fn spec_duplicate_role(s: Seq<ConnectedController>) -> Option<(ControllerRole, Seq<Seq<char>>)> {
    if exists|i: int| 0 <= i < s.len() && #[trigger] spec_role_repeats(s, i) {
        let i = choose|i: int| 0 <= i < s.len() && spec_role_repeats(s, i) && forall|k: int| 0 <= k < i ==> !#[trigger] spec_role_repeats(s, k);
        let role = s[i].status.controller_role;
        Some((role, seq![s[i].device_path@] + spec_paths_with_role(s.subrange(i + 1, s.len() as int), role)))
    } else {
        None
    }
}

/// The paths of a sequence of strings.
pub open spec fn spec_string_views(s: Seq<String>) -> Seq<Seq<char>> {
    s.map_values(|p: String| p@)
}

/// There is a least index satisfying the repeat condition when one exists.
proof fn lemma_first_repeat(s: Seq<ConnectedController>, i: int)
    requires
        0 <= i < s.len(),
        spec_role_repeats(s, i),
        forall|k: int| 0 <= k < i ==> !#[trigger] spec_role_repeats(s, k),
    ensures
        spec_duplicate_role(s) == Some(
            (
                s[i].status.controller_role,
                seq![s[i].device_path@] + spec_paths_with_role(s.subrange(i + 1, s.len() as int), s[i].status.controller_role),
            ),
        ),
{
    let c = choose|c: int| 0 <= c < s.len() && spec_role_repeats(s, c) && forall|k: int| 0 <= k < c ==> !#[trigger] spec_role_repeats(s, k);
    assert(0 <= c < s.len() && spec_role_repeats(s, c) && forall|k: int| 0 <= k < c ==> !#[trigger] spec_role_repeats(s, k));
    if c < i {
        assert(!spec_role_repeats(s, c));
    }
    if i < c {
        assert(!spec_role_repeats(s, i));
    }
}

/// Return the first role claimed by two controllers, with the conflicting
/// device paths.
pub fn duplicate_controller_role(controllers: &[ConnectedController]) -> (duplicate: Option<(ControllerRole, Vec<String>)>)
    ensures
        match duplicate {
            Some((role, paths)) => spec_duplicate_role(controllers@) == Some((role, spec_string_views(paths@))),
            None => spec_duplicate_role(controllers@) is None,
        },
{
    let n = controllers.len();
    let mut index: usize = 0;
    while index < n
        invariant
            n == controllers@.len(),
            index <= n,
            forall|k: int| 0 <= k < index ==> !#[trigger] spec_role_repeats(controllers@, k),
        decreases n - index,
    {
        let role = controllers[index].status.controller_role;
        let mut paths: Vec<String> = Vec::new();
        paths.push(controllers[index].device_path.clone());
        let ghost first = controllers@[index as int].device_path@;
        assert(spec_string_views(paths@) =~= seq![first]);
        let mut j: usize = index + 1;
        while j < n
            invariant
                n == controllers@.len(),
                index < j <= n,
                role == controllers@[index as int].status.controller_role,
                first == controllers@[index as int].device_path@,
                spec_string_views(paths@) == seq![first] + spec_paths_with_role(
                    controllers@.subrange(index + 1, j as int),
                    role,
                ),
                paths@.len() > 1 <==> exists|k: int| index < k < j && #[trigger] controllers@[k].status.controller_role
                    == role,
            decreases n - j,
        {
            let ghost before = paths@;
            let ghost sub = controllers@.subrange(index + 1, j + 1);
            assert(sub.drop_last() == controllers@.subrange(index + 1, j as int));
            assert(sub.last() == controllers@[j as int]);
            if controllers[j].status.controller_role == role {
                paths.push(controllers[j].device_path.clone());
                assert(spec_string_views(paths@) =~= spec_string_views(before).push(controllers@[j as int].device_path@));
            }
            j += 1;
        }
        assert(controllers@.subrange(index + 1, n as int) == controllers@.subrange(index + 1, controllers@.len() as int));
        if paths.len() > 1 {
            proof {
                lemma_first_repeat(controllers@, index as int);
            }
            return Some((role, paths));
        }
        index += 1;
    }
    None
}

/// What a round of sends to the controllers amounts to.
#[derive(Clone, Debug, PartialEq, Eq)]
pub enum ExchangeVerdict {
    /// Hand the collected messages on.
    Deliver,
    /// No controller took the message, and none is connected.
    Disconnected,
    /// Two controllers claim the same role.
    DuplicateRole(ControllerRole, Vec<String>),
    /// Some controller failed and none is left connected.
    Failed,
}

/// Judge a round of sends: a round nobody took is delivered (empty) while
/// anything is connected; otherwise a role claimed twice is an error; then
/// the round is delivered while anything is still connected.
pub fn exchange_verdict(targeted_any: bool, connected: bool, controllers: &[ConnectedController]) -> (verdict:
    ExchangeVerdict)
    ensures
        !targeted_any ==> (verdict == if connected { ExchangeVerdict::Deliver } else { ExchangeVerdict::Disconnected }),
        targeted_any ==> match spec_duplicate_role(controllers@) {
            Some((role, paths)) => verdict matches ExchangeVerdict::DuplicateRole(r, p) && r == role && spec_string_views(
                p@,
            ) == paths,
            None => verdict == if connected { ExchangeVerdict::Deliver } else { ExchangeVerdict::Failed },
        },
{
    if !targeted_any {
        return if connected {
            ExchangeVerdict::Deliver
        } else {
            ExchangeVerdict::Disconnected
        };
    }
    match duplicate_controller_role(controllers) {
        Some((role, paths)) => ExchangeVerdict::DuplicateRole(role, paths),
        None => if connected {
            ExchangeVerdict::Deliver
        } else {
            ExchangeVerdict::Failed
        },
    }
}

} // verus!
