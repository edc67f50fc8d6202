//! Websocket controllers: what a client message asks for, and the backend's
//! bookkeeping of connected clients and their queued events.
//!
//! The listener and client threads report connections, disconnections and
//! decoded input; the backend tracks the connected clients in key order,
//! queues lifecycle and input events, and drops them while suspended.

use vstd::prelude::*;

use crate::host::brain::BrainCommand;
use crate::host::input::{ControlState, ControllerId, ControllerInfo, ControllerInfoView, ControllerKind, DriveIntent};
use crate::host::registry::{
    find_controller, lemma_known_remove, lemma_known_update, spec_info_key, spec_info_views, spec_known_map,
    spec_unique_keys, ControllerKey, ControllerLifecycleEvent, SourcedInputEvent,
};
use crate::host::tui::files::{chars_le, lemma_chars_le_total, lemma_chars_le_transitive, spec_chars_le};
use crate::text::{chars_eq, decimal_digits, push_chars, push_str, spec_decimal, str_to_chars};
use crate::units::Mode;

verus! {

/// Drive speed of a websocket drive message that names none.
pub const DEFAULT_WEBSOCKET_DRIVE_SPEED: u16 = 300;

/// The commands a websocket client can send.
#[derive(Clone, Copy, Debug, PartialEq, Eq, Structural)]
pub enum WebsocketCommand {
    Quit,
    Stop,
    Teleop,
    Autonomous,
    Fault,
}

/// The brain command a websocket command stands for.
pub open spec fn spec_brain_command(command: WebsocketCommand) -> BrainCommand {
    match command {
        WebsocketCommand::Quit => BrainCommand::Quit,
        WebsocketCommand::Stop => BrainCommand::Stop,
        WebsocketCommand::Teleop => BrainCommand::SetMode(Mode::Teleop),
        WebsocketCommand::Autonomous => BrainCommand::SetMode(Mode::Autonomous),
        WebsocketCommand::Fault => BrainCommand::SetMode(Mode::Fault),
    }
}

/// Return the brain command a websocket command stands for.
pub fn brain_command(command: WebsocketCommand) -> (out: BrainCommand)
    ensures
        out == spec_brain_command(command),
{
    match command {
        WebsocketCommand::Quit => BrainCommand::Quit,
        WebsocketCommand::Stop => BrainCommand::Stop,
        WebsocketCommand::Teleop => BrainCommand::SetMode(Mode::Teleop),
        WebsocketCommand::Autonomous => BrainCommand::SetMode(Mode::Autonomous),
        WebsocketCommand::Fault => BrainCommand::SetMode(Mode::Fault),
    }
}

/// The command a client names by `word`, its kebab-case name; none for any
/// other word.
pub open spec fn spec_websocket_command(word: Seq<char>) -> Option<WebsocketCommand> {
    if word == "quit"@ {
        Some(WebsocketCommand::Quit)
    } else if word == "stop"@ {
        Some(WebsocketCommand::Stop)
    } else if word == "teleop"@ {
        Some(WebsocketCommand::Teleop)
    } else if word == "autonomous"@ {
        Some(WebsocketCommand::Autonomous)
    } else if word == "fault"@ {
        Some(WebsocketCommand::Fault)
    } else {
        None
    }
}

/// Read the command that a client's `command` field names.
pub fn parse_websocket_command(word: &str) -> (command: Option<WebsocketCommand>)
    ensures
        command == spec_websocket_command(word@),
{
    let w = str_to_chars(word);
    if chars_eq(w.as_slice(), str_to_chars("quit").as_slice()) {
        Some(WebsocketCommand::Quit)
    } else if chars_eq(w.as_slice(), str_to_chars("stop").as_slice()) {
        Some(WebsocketCommand::Stop)
    } else if chars_eq(w.as_slice(), str_to_chars("teleop").as_slice()) {
        Some(WebsocketCommand::Teleop)
    } else if chars_eq(w.as_slice(), str_to_chars("autonomous").as_slice()) {
        Some(WebsocketCommand::Autonomous)
    } else if chars_eq(w.as_slice(), str_to_chars("fault").as_slice()) {
        Some(WebsocketCommand::Fault)
    } else {
        None
    }
}

/// The control a drive message makes from its normalized axes: none when
/// both are centered, else a drive at the given speed, at least one.
pub open spec fn spec_drive_control(forward: i16, turn: i16, speed: u16) -> ControlState {
    if forward == 0 && turn == 0 {
        ControlState { drive: None }
    } else {
        ControlState { drive: Some(DriveIntent { forward, turn, speed: if speed < 1 { 1 } else { speed } }) }
    }
}

/// Return the control a drive message makes.
pub fn drive_control(forward: i16, turn: i16, speed: u16) -> (control: ControlState)
    ensures
        control == spec_drive_control(forward, turn, speed),
{
    if forward == 0 && turn == 0 {
        ControlState { drive: None }
    } else {
        ControlState { drive: Some(DriveIntent { forward, turn, speed: if speed < 1 { 1 } else { speed } }) }
    }
}

/// The description of the `index`th client, connected from `remote` to the
/// listener at `bind`.
pub fn websocket_controller_info(index: u64, remote: &str, bind: &str) -> (info: ControllerInfo)
    ensures
        info.id.kind == ControllerKind::Websocket,
        info.id.instance@ == "client-"@ + spec_decimal(index as nat),
        info.display_name@ == "Websocket "@ + remote@ + " via "@ + bind@,
{
    let mut instance = "client-".to_string();
    push_chars(&mut instance, decimal_digits(index).as_slice());
    let mut name = "Websocket ".to_string();
    push_str(&mut name, remote);
    push_str(&mut name, " via ");
    push_str(&mut name, bind);
    ControllerInfo::new(ControllerId::new(ControllerKind::Websocket, instance), name)
}

/// What a client thread reports.
#[derive(Clone, Debug)]
pub enum WebsocketRuntimeEvent {
    Connected(ControllerInfo),
    Disconnected(ControllerInfo),
    Input(SourcedInputEvent),
}

/// The rank of a controller kind in key order.
pub open spec fn spec_kind_rank(kind: ControllerKind) -> int {
    match kind {
        ControllerKind::Keyboard => 0,
        ControllerKind::GamepadUsb => 1,
        ControllerKind::GamepadBluetooth => 2,
        ControllerKind::Websocket => 3,
    }
}

fn kind_rank(kind: ControllerKind) -> (rank: u8)
    ensures
        rank == spec_kind_rank(kind),
{
    match kind {
        ControllerKind::Keyboard => 0,
        ControllerKind::GamepadUsb => 1,
        ControllerKind::GamepadBluetooth => 2,
        ControllerKind::Websocket => 3,
    }
}

/// Key order: by kind, then by instance.
pub open spec fn spec_key_le(a: ControllerKey, b: ControllerKey) -> bool {
    spec_kind_rank(a.0) < spec_kind_rank(b.0) || (a.0 == b.0 && spec_chars_le(a.1, b.1))
}

/// The controllers are in key order.
pub open spec fn spec_sorted(s: Seq<ControllerInfoView>) -> bool {
    forall|i: int, j: int| 0 <= i < j < s.len() ==> spec_key_le(spec_info_key(#[trigger] s[i]), spec_info_key(#[trigger] s[j]))
}

proof fn lemma_key_le_total(a: ControllerKey, b: ControllerKey)
    ensures
        spec_key_le(a, b) || spec_key_le(b, a),
{
    lemma_chars_le_total(a.1, b.1);
}

proof fn lemma_key_le_transitive(a: ControllerKey, b: ControllerKey, c: ControllerKey)
    requires
        spec_key_le(a, b),
        spec_key_le(b, c),
    ensures
        spec_key_le(a, c),
{
    if a.0 == b.0 && b.0 == c.0 {
        lemma_chars_le_transitive(a.1, b.1, c.1);
    }
}

/// Whether `a`'s key orders before or with `b`'s.
fn key_le(a: &ControllerId, b: &ControllerId) -> (le: bool)
    ensures
        le == spec_key_le((a.kind, a.instance@), (b.kind, b.instance@)),
{
    let ra = kind_rank(a.kind);
    let rb = kind_rank(b.kind);
    if ra < rb {
        true
    } else if a.kind == b.kind {
        let ai = str_to_chars(a.instance.as_str());
        let bi = str_to_chars(b.instance.as_str());
        chars_le(ai.as_slice(), bi.as_slice())
    } else {
        false
    }
}

/// Insert a controller whose key is not yet among `known`, keeping key order.
pub(crate) fn insert_in_key_order(known: &mut Vec<ControllerInfo>, info: ControllerInfo)
    requires
        spec_unique_keys(spec_info_views(old(known)@)),
        spec_sorted(spec_info_views(old(known)@)),
        forall|j: int| 0 <= j < old(known)@.len() ==> spec_info_key(#[trigger] spec_info_views(old(known)@)[j]) != spec_info_key(info@),
    ensures
        spec_unique_keys(spec_info_views(final(known)@)),
        spec_sorted(spec_info_views(final(known)@)),
        spec_known_map(spec_info_views(final(known)@)) == spec_known_map(spec_info_views(old(known)@)).insert(spec_info_key(info@), info@),
{
    let ghost s = spec_info_views(known@);
    let ghost iv = info@;
    let ghost k = spec_info_key(iv);
    let mut p: usize = 0;
    while p < known.len() && key_le(&known[p].id, &info.id)
        invariant
            p <= known@.len(),
            s == spec_info_views(known@),
            k == spec_info_key(info@),
            forall|q: int| 0 <= q < p ==> spec_key_le(spec_info_key(#[trigger] s[q]), k),
        decreases known@.len() - p,
    {
        assert(spec_info_key(s[p as int]) == (known@[p as int].id.kind, known@[p as int].id.instance@));
        p += 1;
    }
    proof {
        assert forall|j: int| 0 <= j < s.len() implies spec_info_key(s[j]) != k by {
            assert(s[j] == known@[j]@);
        }
        if p < s.len() {
            assert(spec_info_key(s[p as int]) == (known@[p as int].id.kind, known@[p as int].id.instance@));
            assert(!spec_key_le(spec_info_key(s[p as int]), k));
            lemma_key_le_total(spec_info_key(s[p as int]), k);
        }
    }
    known.insert(p, info);
    let ghost t = spec_info_views(known@);
    assert(t =~= s.insert(p as int, iv));
    proof {
        assert forall|a: int, b: int| 0 <= a < b < t.len() implies spec_key_le(
            spec_info_key(#[trigger] t[a]),
            spec_info_key(#[trigger] t[b]),
        ) by {
            if b < p {
                assert(t[a] == s[a] && t[b] == s[b]);
            } else if b == p {
                assert(t[a] == s[a]);
            } else if a < p {
                assert(t[a] == s[a] && t[b] == s[b - 1]);
                assert(spec_key_le(spec_info_key(s[p as int]), spec_info_key(s[b - 1])) || p == b - 1);
                lemma_key_le_transitive(spec_info_key(s[a]), k, spec_info_key(s[p as int]));
                if p < b - 1 {
                    lemma_key_le_transitive(spec_info_key(s[a]), spec_info_key(s[p as int]), spec_info_key(s[b - 1]));
                }
            } else if a == p {
                assert(t[b] == s[b - 1]);
                if p < b - 1 {
                    lemma_key_le_transitive(k, spec_info_key(s[p as int]), spec_info_key(s[b - 1]));
                }
            } else {
                assert(t[a] == s[a - 1] && t[b] == s[b - 1]);
            }
        }
        assert forall|a: int, b: int| 0 <= a < b < t.len() implies spec_info_key(#[trigger] t[a])
            != spec_info_key(#[trigger] t[b]) by {
            if b < p {
                assert(t[a] == s[a] && t[b] == s[b]);
            } else if b == p {
                assert(t[a] == s[a]);
            } else if a < p {
                assert(t[a] == s[a] && t[b] == s[b - 1]);
            } else if a == p {
                assert(t[b] == s[b - 1]);
            } else {
                assert(t[a] == s[a - 1] && t[b] == s[b - 1]);
            }
        }
        assert(spec_known_map(t) =~= spec_known_map(s).insert(k, iv)) by {
            assert forall|key: ControllerKey| #![auto] spec_known_map(t).dom().contains(key) <==> spec_known_map(
                s,
            ).insert(k, iv).dom().contains(key) by {
                if spec_known_map(t).dom().contains(key) {
                    let w = choose|w: int| 0 <= w < t.len() && spec_info_key(t[w]) == key;
                    if w < p {
                        assert(t[w] == s[w]);
                    } else if w > p {
                        assert(t[w] == s[w - 1]);
                    }
                }
                if spec_known_map(s).dom().contains(key) {
                    let w = choose|w: int| 0 <= w < s.len() && spec_info_key(s[w]) == key;
                    if w < p {
                        assert(t[w] == s[w]);
                    } else {
                        assert(t[w + 1] == s[w]);
                    }
                }
                if key == k {
                    assert(t[p as int] == iv);
                }
            }
            assert forall|key: ControllerKey| #[trigger] spec_known_map(t).dom().contains(key) implies spec_known_map(
                t,
            )[key] == spec_known_map(s).insert(k, iv)[key] by {
                let w = choose|w: int| 0 <= w < t.len() && spec_info_key(t[w]) == key;
                if key == k {
                    if w != p {
                        assert(spec_info_key(t[w]) != spec_info_key(t[p as int]));
                    }
                } else {
                    let v = choose|v: int| 0 <= v < s.len() && spec_info_key(s[v]) == key;
                    if w < p {
                        assert(t[w] == s[w]);
                        if v != w {
                            assert(spec_info_key(s[v]) != spec_info_key(s[w]));
                        }
                    } else if w > p {
                        assert(t[w] == s[w - 1]);
                        if v != w - 1 {
                            assert(spec_info_key(s[v]) != spec_info_key(s[w - 1]));
                        }
                    }
                }
            }
        }
    }
}

/// The websocket backend's state.
#[derive(Debug)]
pub struct WebsocketInputState {
    known: Vec<ControllerInfo>,
    pending_lifecycle: Vec<ControllerLifecycleEvent>,
    pending_input: Vec<SourcedInputEvent>,
    suspended: bool,
}

/// A lifecycle event as values: connected or not, and the controller.
pub open spec fn spec_lifecycle_view(e: ControllerLifecycleEvent) -> (bool, ControllerInfoView) {
    match e {
        ControllerLifecycleEvent::Connected(i) => (true, i@),
        ControllerLifecycleEvent::Disconnected(i) => (false, i@),
    }
}

/// Lifecycle events as values.
pub open spec fn spec_lifecycle_views(s: Seq<ControllerLifecycleEvent>) -> Seq<(bool, ControllerInfoView)> {
    s.map_values(|e: ControllerLifecycleEvent| spec_lifecycle_view(e))
}

impl WebsocketInputState {
    /// The connected clients, in key order.
    pub closed spec fn known(&self) -> Seq<ControllerInfoView> {
        spec_info_views(self.known@)
    }

    /// The lifecycle events waiting to be reported.
    pub closed spec fn lifecycle(&self) -> Seq<(bool, ControllerInfoView)> {
        spec_lifecycle_views(self.pending_lifecycle@)
    }

    /// The input events waiting to be reported.
    pub closed spec fn inputs(&self) -> Seq<SourcedInputEvent> {
        self.pending_input@
    }

    /// Whether events are being dropped.
    pub closed spec fn is_suspended(&self) -> bool {
        self.suspended
    }

    /// Clients are known once each, in key order.
    pub closed spec fn wf(&self) -> bool {
        &&& spec_unique_keys(self.known())
        &&& spec_sorted(self.known())
    }

    /// The connected clients by key.
    pub open spec fn clients(&self) -> Map<ControllerKey, ControllerInfoView> {
        spec_known_map(self.known())
    }

    /// No clients, no events, not suspended.
    pub fn new() -> (state: Self)
        ensures
            state.wf(),
            state.known().len() == 0,
            state.lifecycle().len() == 0,
            state.inputs().len() == 0,
            !state.is_suspended(),
    {
        let state = WebsocketInputState {
            known: Vec::new(),
            pending_lifecycle: Vec::new(),
            pending_input: Vec::new(),
            suspended: false,
        };
        assert(state.known() =~= Seq::<ControllerInfoView>::empty());
        assert(state.lifecycle() =~= Seq::<(bool, ControllerInfoView)>::empty());
        state
    }

    /// Remember a connected client, keeping key order.
    fn remember(&mut self, info: ControllerInfo)
        requires
            old(self).wf(),
        ensures
            final(self).wf(),
            final(self).clients() == old(self).clients().insert(spec_info_key(info@), info@),
            final(self).lifecycle() == old(self).lifecycle(),
            final(self).inputs() == old(self).inputs(),
            final(self).is_suspended() == old(self).is_suspended(),
    {
        let ghost s = self.known();
        let ghost iv = info@;
        let ghost k = spec_info_key(iv);
        match find_controller(&self.known, &info.id) {
            Some(i) => {
                proof {
                    lemma_known_update(s, i as int, iv);
                }
                self.known.set(i, info);
                assert(self.known() =~= s.update(i as int, iv));
                assert(spec_sorted(self.known())) by {
                    assert forall|a: int, b: int| 0 <= a < b < s.len() implies spec_key_le(
                        spec_info_key(#[trigger] self.known()[a]),
                        spec_info_key(#[trigger] self.known()[b]),
                    ) by {
                        assert(spec_key_le(spec_info_key(s[a]), spec_info_key(s[b])));
                    }
                }
            },
            None => {
                proof {
                    assert forall|j: int| 0 <= j < s.len() implies spec_info_key(s[j]) != k by {
                        assert(s[j] == self.known@[j]@);
                    }
                }
                insert_in_key_order(&mut self.known, info);
            },
        }
    }

    /// Forget a client.
    fn forget(&mut self, id: &ControllerId)
        requires
            old(self).wf(),
        ensures
            final(self).wf(),
            final(self).clients() == old(self).clients().remove((id.kind, id.instance@)),
            final(self).lifecycle() == old(self).lifecycle(),
            final(self).inputs() == old(self).inputs(),
            final(self).is_suspended() == old(self).is_suspended(),
    {
        let ghost s = self.known();
        match find_controller(&self.known, id) {
            Some(i) => {
                proof {
                    lemma_known_remove(s, i as int);
                }
                self.known.remove(i);
                let ghost t = self.known();
                assert(t =~= s.remove(i as int));
                assert forall|a: int, b: int| 0 <= a < b < t.len() implies spec_key_le(
                    spec_info_key(#[trigger] t[a]),
                    spec_info_key(#[trigger] t[b]),
                ) by {
                    if b < i {
                        assert(t[a] == s[a] && t[b] == s[b]);
                    } else if a < i {
                        assert(t[a] == s[a] && t[b] == s[b + 1]);
                    } else {
                        assert(t[a] == s[a + 1] && t[b] == s[b + 1]);
                    }
                }
            },
            None => {
                proof {
                    assert forall|j: int| 0 <= j < s.len() implies spec_info_key(s[j]) != (id.kind, id.instance@) by {
                        assert(s[j] == self.known@[j]@);
                    }
                    assert(spec_known_map(s).remove((id.kind, id.instance@)) =~= spec_known_map(s));
                }
            },
        }
    }

    /// Take one report of the client threads: a connection is known and,
    /// unless suspended, queued; so is a disconnection; input is queued
    /// unless suspended.
    pub fn handle_runtime_event(&mut self, event: WebsocketRuntimeEvent)
        requires
            old(self).wf(),
        ensures
            final(self).wf(),
            final(self).is_suspended() == old(self).is_suspended(),
            match event {
                WebsocketRuntimeEvent::Connected(info) => {
                    &&& final(self).clients() == old(self).clients().insert(spec_info_key(info@), info@)
                    &&& final(self).lifecycle() == if old(self).is_suspended() {
                        old(self).lifecycle()
                    } else {
                        old(self).lifecycle().push((true, info@))
                    }
                    &&& final(self).inputs() == old(self).inputs()
                },
                WebsocketRuntimeEvent::Disconnected(info) => {
                    &&& final(self).clients() == old(self).clients().remove(spec_info_key(info@))
                    &&& final(self).lifecycle() == if old(self).is_suspended() {
                        old(self).lifecycle()
                    } else {
                        old(self).lifecycle().push((false, info@))
                    }
                    &&& final(self).inputs() == old(self).inputs()
                },
                WebsocketRuntimeEvent::Input(e) => {
                    &&& final(self).clients() == old(self).clients()
                    &&& final(self).lifecycle() == old(self).lifecycle()
                    &&& final(self).inputs() == if old(self).is_suspended() {
                        old(self).inputs()
                    } else {
                        old(self).inputs().push(e)
                    }
                },
            },
    {
        match event {
            WebsocketRuntimeEvent::Connected(info) => {
                let copy = info.duplicate();
                self.remember(info);
                if !self.suspended {
                    let ghost before = self.pending_lifecycle@;
                    self.pending_lifecycle.push(ControllerLifecycleEvent::Connected(copy));
                    assert(self.lifecycle() =~= spec_lifecycle_views(before).push((true, copy@)));
                }
            },
            WebsocketRuntimeEvent::Disconnected(info) => {
                self.forget(&info.id);
                if !self.suspended {
                    let ghost before = self.pending_lifecycle@;
                    self.pending_lifecycle.push(ControllerLifecycleEvent::Disconnected(info));
                    assert(self.lifecycle() =~= spec_lifecycle_views(before).push((false, info@)));
                }
            },
            WebsocketRuntimeEvent::Input(e) => {
                if !self.suspended {
                    self.pending_input.push(e);
                }
            },
        }
    }

    /// Take the queued lifecycle events, oldest first.
    pub fn take_lifecycle_events(&mut self) -> (events: Vec<ControllerLifecycleEvent>)
        requires
            old(self).wf(),
        ensures
            final(self).wf(),
            spec_lifecycle_views(events@) == old(self).lifecycle(),
            final(self).lifecycle().len() == 0,
            final(self).clients() == old(self).clients(),
            final(self).known() == old(self).known(),
            final(self).inputs() == old(self).inputs(),
            final(self).is_suspended() == old(self).is_suspended(),
    {
        let mut events: Vec<ControllerLifecycleEvent> = Vec::new();
        std::mem::swap(&mut events, &mut self.pending_lifecycle);
        assert(self.lifecycle() =~= Seq::<(bool, ControllerInfoView)>::empty());
        events
    }

    /// Take the oldest queued input event.
    pub fn pop_input(&mut self) -> (event: Option<SourcedInputEvent>)
        requires
            old(self).wf(),
        ensures
            final(self).wf(),
            old(self).inputs().len() == 0 ==> event is None && final(self).inputs() == old(self).inputs(),
            old(self).inputs().len() > 0 ==> event == Some(old(self).inputs()[0]) && final(self).inputs()
                == old(self).inputs().drop_first(),
            final(self).clients() == old(self).clients(),
            final(self).known() == old(self).known(),
            final(self).lifecycle() == old(self).lifecycle(),
            final(self).is_suspended() == old(self).is_suspended(),
    {
        if self.pending_input.len() == 0 {
            return None;
        }
        let e = self.pending_input.remove(0);
        assert(self.pending_input@ =~= old(self).inputs().drop_first());
        Some(e)
    }

    /// Stop reporting: drop what is queued; later connections are still
    /// known, and nothing is queued until resumed.
    pub fn suspend(&mut self)
        requires
            old(self).wf(),
        ensures
            final(self).wf(),
            final(self).is_suspended(),
            final(self).lifecycle().len() == 0,
            final(self).inputs().len() == 0,
            final(self).known() == old(self).known(),
    {
        self.suspended = true;
        self.pending_lifecycle = Vec::new();
        self.pending_input = Vec::new();
        assert(self.lifecycle() =~= Seq::<(bool, ControllerInfoView)>::empty());
    }

    /// Report again: drop what is queued and report every known client as
    /// connected, in key order.
    pub fn resume(&mut self)
        requires
            old(self).wf(),
        ensures
            final(self).wf(),
            !final(self).is_suspended(),
            final(self).inputs().len() == 0,
            final(self).known() == old(self).known(),
            final(self).lifecycle() == old(self).known().map_values(|i: ControllerInfoView| (true, i)),
    {
        self.pending_input = Vec::new();
        let mut events: Vec<ControllerLifecycleEvent> = Vec::new();
        let mut k: usize = 0;
        while k < self.known.len()
            invariant
                k <= self.known@.len(),
                spec_lifecycle_views(events@) =~= spec_info_views(self.known@).take(k as int).map_values(
                    |i: ControllerInfoView| (true, i),
                ),
            decreases self.known@.len() - k,
        {
            let ghost before = events@;
            events.push(ControllerLifecycleEvent::Connected(self.known[k].duplicate()));
            assert(spec_info_views(self.known@).take(k + 1) =~= spec_info_views(self.known@).take(k as int).push(
                self.known@[k as int]@,
            ));
            assert(spec_lifecycle_views(events@) =~= spec_lifecycle_views(before).push((true, self.known@[k as int]@)));
            k += 1;
        }
        assert(spec_info_views(self.known@).take(k as int) =~= spec_info_views(self.known@));
        self.pending_lifecycle = events;
        self.suspended = false;
    }
}

} // verus!
