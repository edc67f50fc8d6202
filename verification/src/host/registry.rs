//! Routing of controller events: which controllers are connected, which may
//! drive, and which one holds the current drive request.
//!
//! The backends themselves (gamepads, websocket clients, the keyboard) are
//! polled by the application; it hands their lifecycle and input events to
//! the registry, which decides what the brain sees.

use vstd::prelude::*;

use crate::host::brain::BrainCommand;
use crate::host::websocket::{insert_in_key_order, spec_sorted};
use crate::host::input::{
    ControlState, ControllerId, ControllerInfo, ControllerInfoView, ControllerKind, InputEvent,
    InputEventView, InputWarning, spec_event_views, spec_opt_text,
};

verus! {

/// The identity of a controller as a value: its kind and instance name.
pub type ControllerKey = (ControllerKind, Seq<char>);

/// The key of a controller id.
pub open spec fn spec_id_key(id: ControllerId) -> ControllerKey {
    (id.kind, id.instance@)
}

/// The key of a controller description.
pub open spec fn spec_info_key(info: ControllerInfoView) -> ControllerKey {
    (info.kind, info.instance)
}

/// Which controllers may drive the robot.
#[derive(Clone, Debug, PartialEq, Eq)]
pub enum ControllerSelection {
    /// Every controller; the latest control wins.
    Any,
    /// Only this controller.
    Locked(ControllerId),
}

/// A selection as a value.
pub enum SelectionView {
    Any,
    Locked(ControllerKey),
}

impl View for ControllerSelection {
    type V = SelectionView;

    open spec fn view(&self) -> SelectionView {
        match self {
            ControllerSelection::Any => SelectionView::Any,
            ControllerSelection::Locked(id) => SelectionView::Locked(spec_id_key(*id)),
        }
    }
}

/// Whether a selection lets a controller drive.
pub open spec fn spec_allows(selection: SelectionView, key: ControllerKey) -> bool {
    match selection {
        SelectionView::Any => true,
        SelectionView::Locked(locked) => locked == key,
    }
}

impl ControllerSelection {
    /// Whether this selection lets `controller` drive.
    pub fn allows(&self, controller: &ControllerId) -> (allowed: bool)
        ensures
            allowed == spec_allows(self@, spec_id_key(*controller)),
    {
        match self {
            ControllerSelection::Any => true,
            ControllerSelection::Locked(locked) => locked.matches(controller),
        }
    }
}

impl Default for ControllerSelection {
    fn default() -> (selection: Self)
        ensures
            selection@ == SelectionView::Any,
    {
        ControllerSelection::Any
    }
}

/// A controller came or went.
#[derive(Clone, Debug, PartialEq, Eq)]
pub enum ControllerLifecycleEvent {
    Connected(ControllerInfo),
    Disconnected(ControllerInfo),
}

/// What a controller asked for.
#[derive(Clone, Debug, PartialEq, Eq)]
pub enum RoutedInputEvent {
    Command(BrainCommand),
    Control(ControlState),
    Warning(InputWarning),
    /// A prompt line to show, or none to hide it.
    Prompt(Option<String>),
}

/// An input event and the controller it came from.
#[derive(Clone, Debug, PartialEq, Eq)]
pub struct SourcedInputEvent {
    pub controller: ControllerId,
    pub event: RoutedInputEvent,
}

impl SourcedInputEvent {
    /// Tag an event with its controller.
    pub fn new(controller: ControllerId, event: RoutedInputEvent) -> (sourced: Self)
        ensures
            sourced.controller == controller,
            sourced.event == event,
    {
        SourcedInputEvent { controller, event }
    }
}

/// The connected controllers by key, as the sequence `s` of descriptions
/// lists them.
pub open spec fn spec_known_map(s: Seq<ControllerInfoView>) -> Map<ControllerKey, ControllerInfoView> {
    Map::new(
        |k: ControllerKey| exists|i: int| 0 <= i < s.len() && spec_info_key(s[i]) == k,
        |k: ControllerKey| s[choose|i: int| 0 <= i < s.len() && spec_info_key(s[i]) == k],
    )
}

/// No two descriptions of `s` share a key.
pub open spec fn spec_unique_keys(s: Seq<ControllerInfoView>) -> bool {
    forall|i: int, j: int| 0 <= i < j < s.len() ==> spec_info_key(#[trigger] s[i]) != spec_info_key(#[trigger] s[j])
}

/// The registry seen as values.
pub struct RegistryView {
    pub selection: SelectionView,
    pub known: Map<ControllerKey, ControllerInfoView>,
    pub pending: Seq<InputEventView>,
    pub control: ControlState,
    pub last_source: Option<ControllerKey>,
}

/// The registry with one more event waiting.
pub open spec fn spec_registry_enqueue(v: RegistryView, e: InputEventView) -> RegistryView {
    RegistryView { pending: v.pending.push(e), ..v }
}

/// The registry after a controller came or went. A connection is recorded
/// and announced. A disconnection is announced; when the controller held a
/// drive request, that request is dropped and the stop announced.
pub open spec fn spec_lifecycle(v: RegistryView, connected: bool, info: ControllerInfoView) -> RegistryView {
    let k = spec_info_key(info);
    if connected {
        RegistryView {
            known: v.known.insert(k, info),
            pending: v.pending.push(InputEventView::ControllerConnected(info)),
            ..v
        }
    } else {
        let was_source = v.last_source == Some(k);
        let v1 = RegistryView {
            known: v.known.remove(k),
            last_source: if was_source { None } else { v.last_source },
            pending: v.pending.push(InputEventView::ControllerDisconnected(info)),
            ..v
        };
        if was_source && v.control.drive is Some {
            let idle = ControlState { drive: None };
            RegistryView { control: idle, pending: v1.pending.push(InputEventView::Control(idle)), ..v1 }
        } else {
            v1
        }
    }
}

/// The registry after an input event from controller `k`: events from
/// controllers the selection excludes are dropped; a control becomes the
/// current one and its controller the drive source while it drives.
pub open spec fn spec_routed(v: RegistryView, k: ControllerKey, event: RoutedInputEvent) -> RegistryView {
    if !spec_allows(v.selection, k) {
        v
    } else {
        match event {
            RoutedInputEvent::Command(command) => spec_registry_enqueue(v, InputEventView::Command(command@)),
            RoutedInputEvent::Control(control) => RegistryView {
                control,
                last_source: if control.drive is Some { Some(k) } else { None },
                pending: v.pending.push(InputEventView::Control(control)),
                ..v
            },
            RoutedInputEvent::Warning(warning) => spec_registry_enqueue(v, InputEventView::Warning(warning@)),
            RoutedInputEvent::Prompt(prompt) => spec_registry_enqueue(v, InputEventView::Prompt(spec_opt_text(prompt))),
        }
    }
}

/// Registry of connected controllers and router of their events.
pub struct ControllerRegistry {
    selection: ControllerSelection,
    known_controllers: Vec<ControllerInfo>,
    pending_events: Vec<InputEvent>,
    active_control_state: ControlState,
    last_control_source: Option<ControllerId>,
}

/// The views of a sequence of controller descriptions.
pub open spec fn spec_info_views(s: Seq<ControllerInfo>) -> Seq<ControllerInfoView> {
    s.map_values(|i: ControllerInfo| i@)
}

impl View for ControllerRegistry {
    type V = RegistryView;

    closed spec fn view(&self) -> RegistryView {
        RegistryView {
            selection: self.selection@,
            known: spec_known_map(spec_info_views(self.known_controllers@)),
            pending: spec_event_views(self.pending_events@),
            control: self.active_control_state,
            last_source: match self.last_control_source {
                Some(id) => Some(spec_id_key(id)),
                None => None,
            },
        }
    }
}

/// Replacing the description at a key's index keeps keys unique and updates the map.
pub(crate) proof fn lemma_known_update(s: Seq<ControllerInfoView>, i: int, info: ControllerInfoView)
    requires
        spec_unique_keys(s),
        0 <= i < s.len(),
        spec_info_key(s[i]) == spec_info_key(info),
    ensures
        spec_unique_keys(s.update(i, info)),
        spec_known_map(s.update(i, info)) =~= spec_known_map(s).insert(spec_info_key(info), info),
{
    let t = s.update(i, info);
    let k = spec_info_key(info);
    assert forall|a: int, b: int| 0 <= a < b < t.len() implies spec_info_key(#[trigger] t[a]) != spec_info_key(
        #[trigger] t[b],
    ) by {
        assert(spec_info_key(t[a]) == spec_info_key(s[a]));
        assert(spec_info_key(t[b]) == spec_info_key(s[b]));
    }
    assert forall|q: ControllerKey| #[trigger] spec_known_map(t).contains_key(q) <==> spec_known_map(s).insert(k, info).contains_key(q) by {
        if spec_known_map(t).contains_key(q) {
            let j = choose|j: int| 0 <= j < t.len() && spec_info_key(t[j]) == q;
            assert(spec_info_key(s[j]) == q);
        }
        if spec_known_map(s).contains_key(q) {
            let j = choose|j: int| 0 <= j < s.len() && spec_info_key(s[j]) == q;
            assert(spec_info_key(t[j]) == q);
        }
        if q == k {
            assert(spec_info_key(t[i]) == q);
        }
    }
    assert forall|q: ControllerKey| #[trigger] spec_known_map(t).contains_key(q) implies spec_known_map(t)[q]
        == spec_known_map(s).insert(k, info)[q] by {
        let j = choose|j: int| 0 <= j < t.len() && spec_info_key(t[j]) == q;
        if q == k {
            assert(j == i);
        } else {
            let j2 = choose|j2: int| 0 <= j2 < s.len() && spec_info_key(s[j2]) == q;
            assert(spec_info_key(t[j2]) == q);
            assert(j == j2);
        }
    }
}

/// Appending a description with a new key keeps keys unique and extends the map.
pub(crate) proof fn lemma_known_push(s: Seq<ControllerInfoView>, info: ControllerInfoView)
    requires
        spec_unique_keys(s),
        forall|j: int| 0 <= j < s.len() ==> spec_info_key(s[j]) != spec_info_key(info),
    ensures
        spec_unique_keys(s.push(info)),
        spec_known_map(s.push(info)) =~= spec_known_map(s).insert(spec_info_key(info), info),
{
    let t = s.push(info);
    let k = spec_info_key(info);
    let n = s.len() as int;
    assert forall|a: int, b: int| 0 <= a < b < t.len() implies spec_info_key(#[trigger] t[a]) != spec_info_key(
        #[trigger] t[b],
    ) by {
        if b < n {
            assert(t[a] == s[a] && t[b] == s[b]);
        } else {
            assert(t[a] == s[a]);
        }
    }
    assert forall|q: ControllerKey| #[trigger] spec_known_map(t).contains_key(q) <==> spec_known_map(s).insert(k, info).contains_key(q) by {
        if spec_known_map(t).contains_key(q) {
            let j = choose|j: int| 0 <= j < t.len() && spec_info_key(t[j]) == q;
            if j < n {
                assert(t[j] == s[j]);
            }
        }
        if spec_known_map(s).contains_key(q) {
            let j = choose|j: int| 0 <= j < s.len() && spec_info_key(s[j]) == q;
            assert(t[j] == s[j]);
        }
        if q == k {
            assert(t[n] == info);
        }
    }
    assert forall|q: ControllerKey| #[trigger] spec_known_map(t).contains_key(q) implies spec_known_map(t)[q]
        == spec_known_map(s).insert(k, info)[q] by {
        let j = choose|j: int| 0 <= j < t.len() && spec_info_key(t[j]) == q;
        if q == k {
            if j < n {
                assert(t[j] == s[j]);
            }
            assert(j == n);
        } else {
            let j2 = choose|j2: int| 0 <= j2 < s.len() && spec_info_key(s[j2]) == q;
            assert(t[j2] == s[j2]);
            assert(j == j2);
        }
    }
}

/// Removing the description at a key's index keeps keys unique and removes the key.
pub(crate) proof fn lemma_known_remove(s: Seq<ControllerInfoView>, i: int)
    requires
        spec_unique_keys(s),
        0 <= i < s.len(),
    ensures
        spec_unique_keys(s.remove(i)),
        spec_known_map(s.remove(i)) =~= spec_known_map(s).remove(spec_info_key(s[i])),
{
    let t = s.remove(i);
    let k = spec_info_key(s[i]);
    assert forall|j: int| 0 <= j < t.len() implies #[trigger] t[j] == (if j < i { s[j] } else { s[j + 1] }) by {}
    assert forall|a: int, b: int| 0 <= a < b < t.len() implies spec_info_key(#[trigger] t[a]) != spec_info_key(
        #[trigger] t[b],
    ) by {
        let a2 = if a < i { a } else { a + 1 };
        let b2 = if b < i { b } else { b + 1 };
        assert(t[a] == s[a2] && t[b] == s[b2]);
    }
    assert forall|q: ControllerKey| #[trigger] spec_known_map(t).contains_key(q) <==> spec_known_map(s).remove(k).contains_key(q) by {
        if spec_known_map(t).contains_key(q) {
            let j = choose|j: int| 0 <= j < t.len() && spec_info_key(t[j]) == q;
            let j2 = if j < i { j } else { j + 1 };
            assert(t[j] == s[j2]);
        }
        if spec_known_map(s).contains_key(q) && q != k {
            let j = choose|j: int| 0 <= j < s.len() && spec_info_key(s[j]) == q;
            assert(j != i);
            let j2 = if j < i { j } else { j - 1 };
            assert(t[j2] == s[j]);
        }
    }
    assert forall|q: ControllerKey| #[trigger] spec_known_map(t).contains_key(q) implies spec_known_map(t)[q]
        == spec_known_map(s).remove(k)[q] by {
        let j = choose|j: int| 0 <= j < t.len() && spec_info_key(t[j]) == q;
        let j2 = if j < i { j } else { j + 1 };
        assert(t[j] == s[j2]);
        let j3 = choose|j3: int| 0 <= j3 < s.len() && spec_info_key(s[j3]) == q;
        assert(j3 == j2);
    }
}

/// Index of the description of `id` in `known`, if any.
pub(crate) fn find_controller(known: &Vec<ControllerInfo>, id: &ControllerId) -> (index: Option<usize>)
    ensures
        match index {
            Some(i) => i < known@.len() && spec_info_key(known@[i as int]@) == spec_id_key(*id),
            None => forall|j: int| 0 <= j < known@.len() ==> spec_info_key(#[trigger] known@[j]@) != spec_id_key(*id),
        },
{
    let mut i: usize = 0;
    while i < known.len()
        invariant
            i <= known@.len(),
            forall|j: int| 0 <= j < i ==> spec_info_key(#[trigger] known@[j]@) != spec_id_key(*id),
        decreases known@.len() - i,
    {
        if known[i].id.matches(id) {
            return Some(i);
        }
        i += 1;
    }
    None
}

impl ControllerRegistry {
    /// A registry with nothing connected.
    pub fn new(selection: ControllerSelection) -> (registry: Self)
        ensures
            registry@ == (RegistryView {
                selection: selection@,
                known: Map::empty(),
                pending: Seq::empty(),
                control: ControlState { drive: None },
                last_source: None,
            }),
            registry.wf(),
    {
        let registry = ControllerRegistry {
            selection,
            known_controllers: Vec::new(),
            pending_events: Vec::new(),
            active_control_state: ControlState { drive: None },
            last_control_source: None,
        };
        assert(registry@.known =~= Map::<ControllerKey, ControllerInfoView>::empty());
        assert(registry@.pending =~= Seq::<InputEventView>::empty());
        registry
    }

    /// No two connected controllers share a key.
    pub closed spec fn wf(&self) -> bool {
        spec_unique_keys(spec_info_views(self.known_controllers@))
    }

    fn enqueue(&mut self, event: InputEvent)
        ensures
            final(self)@ == spec_registry_enqueue(old(self)@, event@),
            final(self).known_controllers == old(self).known_controllers,
    {
        let ghost e = event@;
        self.pending_events.push(event);
        assert(spec_event_views(self.pending_events@) =~= spec_event_views(old(self).pending_events@).push(e));
    }

    /// Record that a controller came or went.
    pub fn queue_lifecycle_event(&mut self, event: ControllerLifecycleEvent)
        requires
            old(self).wf(),
        ensures
            final(self).wf(),
            match event {
                ControllerLifecycleEvent::Connected(info) => final(self)@ == spec_lifecycle(old(self)@, true, info@),
                ControllerLifecycleEvent::Disconnected(info) => final(self)@ == spec_lifecycle(old(self)@, false, info@),
            },
    {
        match event {
            ControllerLifecycleEvent::Connected(info) => {
                let ghost s = spec_info_views(self.known_controllers@);
                let ghost iv = info@;
                let copy = info.duplicate();
                match find_controller(&self.known_controllers, &info.id) {
                    Some(i) => {
                        proof {
                            lemma_known_update(s, i as int, iv);
                        }
                        self.known_controllers.set(i, copy);
                        assert(spec_info_views(self.known_controllers@) =~= s.update(i as int, iv));
                    },
                    None => {
                        proof {
                            assert forall|j: int| 0 <= j < s.len() implies spec_info_key(s[j]) != spec_info_key(iv) by {
                                assert(s[j] == self.known_controllers@[j]@);
                            }
                            lemma_known_push(s, iv);
                        }
                        self.known_controllers.push(copy);
                        assert(spec_info_views(self.known_controllers@) =~= s.push(iv));
                    },
                }
                self.enqueue(InputEvent::ControllerConnected(info));
            },
            ControllerLifecycleEvent::Disconnected(info) => {
                let ghost s = spec_info_views(self.known_controllers@);
                match find_controller(&self.known_controllers, &info.id) {
                    Some(i) => {
                        proof {
                            lemma_known_remove(s, i as int);
                        }
                        self.known_controllers.remove(i);
                        assert(spec_info_views(self.known_controllers@) =~= s.remove(i as int));
                    },
                    None => {
                        proof {
                            assert forall|j: int| 0 <= j < s.len() implies spec_info_key(s[j]) != spec_info_key(info@) by {
                                assert(s[j] == self.known_controllers@[j]@);
                            }
                            assert(spec_known_map(s).remove(spec_info_key(info@)) =~= spec_known_map(s));
                        }
                    },
                }
                let was_source = match &self.last_control_source {
                    Some(source) => source.matches(&info.id),
                    None => false,
                };
                let should_clear_control = was_source && self.active_control_state.drive.is_some();
                if was_source {
                    self.last_control_source = None;
                }
                self.enqueue(InputEvent::ControllerDisconnected(info));
                if should_clear_control {
                    self.active_control_state = ControlState { drive: None };
                    self.enqueue(InputEvent::Control(ControlState { drive: None }));
                }
            },
        }
    }

    /// Route an input event from a controller.
    pub fn queue_routed_event(&mut self, event: SourcedInputEvent)
        requires
            old(self).wf(),
        ensures
            final(self).wf(),
            final(self)@ == spec_routed(old(self)@, spec_id_key(event.controller), event.event),
    {
        if !self.selection.allows(&event.controller) {
            return;
        }
        match event.event {
            RoutedInputEvent::Command(command) => {
                self.enqueue(InputEvent::Command(command));
            },
            RoutedInputEvent::Control(control_state) => {
                self.active_control_state = control_state;
                self.last_control_source = if control_state.drive.is_some() {
                    Some(event.controller)
                } else {
                    None
                };
                self.enqueue(InputEvent::Control(control_state));
            },
            RoutedInputEvent::Warning(warning) => {
                self.enqueue(InputEvent::Warning(warning));
            },
            RoutedInputEvent::Prompt(prompt) => {
                self.enqueue(InputEvent::Prompt(prompt));
            },
        }
    }

    /// Take the oldest waiting event.
    pub fn pop_event(&mut self) -> (event: Option<InputEvent>)
        requires
            old(self).wf(),
        ensures
            final(self).wf(),
            old(self)@.pending.len() == 0 ==> event is None && final(self)@ == old(self)@,
            old(self)@.pending.len() > 0 ==> (event matches Some(e) && e@ == old(self)@.pending[0]),
            old(self)@.pending.len() > 0 ==> final(self)@ == (RegistryView {
                pending: old(self)@.pending.drop_first(),
                ..old(self)@
            }),
    {
        if self.pending_events.len() == 0 {
            return None;
        }
        let event = self.pending_events.remove(0);
        assert(spec_event_views(self.pending_events@) =~= spec_event_views(old(self).pending_events@).drop_first());
        Some(event)
    }

    /// Forget every controller, event and drive request, as input is paused
    /// or resumed.
    pub fn clear_session(&mut self)
        ensures
            final(self).wf(),
            final(self)@ == (RegistryView {
                known: Map::empty(),
                pending: Seq::empty(),
                control: ControlState { drive: None },
                last_source: None,
                ..old(self)@
            }),
    {
        self.pending_events = Vec::new();
        self.known_controllers = Vec::new();
        self.active_control_state = ControlState { drive: None };
        self.last_control_source = None;
        assert(spec_event_views(self.pending_events@) =~= Seq::<InputEventView>::empty());
        assert(spec_known_map(spec_info_views(self.known_controllers@)) =~= Map::<ControllerKey, ControllerInfoView>::empty());
    }

    /// The controller whose drive request is current, if any: the one whose
    /// hold a blocking roundtrip should extend.
    pub fn last_control_source(&self) -> (source: Option<ControllerId>)
        ensures
            match source {
                Some(id) => self@.last_source == Some(spec_id_key(id)),
                None => self@.last_source is None,
            },
    {
        match &self.last_control_source {
            Some(id) => Some(id.duplicate()),
            None => None,
        }
    }

    /// The current drive request.
    pub fn active_control_state(&self) -> (control: ControlState)
        ensures
            control == self@.control,
    {
        self.active_control_state
    }

    /// The connected controllers, each once, in id order (by kind, then by
    /// instance).
    pub fn active_controllers(&self) -> (infos: Vec<ControllerInfo>)
        requires
            self.wf(),
        ensures
            spec_unique_keys(spec_info_views(infos@)),
            spec_sorted(spec_info_views(infos@)),
            spec_known_map(spec_info_views(infos@)) == self@.known,
    {
        let ghost s = spec_info_views(self.known_controllers@);
        let mut infos: Vec<ControllerInfo> = Vec::new();
        assert(s.take(0) =~= Seq::<ControllerInfoView>::empty());
        assert(spec_info_views(infos@) =~= Seq::<ControllerInfoView>::empty());
        let mut i: usize = 0;
        while i < self.known_controllers.len()
            invariant
                i <= self.known_controllers@.len(),
                s == spec_info_views(self.known_controllers@),
                spec_unique_keys(s),
                spec_unique_keys(spec_info_views(infos@)),
                spec_sorted(spec_info_views(infos@)),
                spec_known_map(spec_info_views(infos@)) == spec_known_map(s.take(i as int)),
            decreases self.known_controllers@.len() - i,
        {
            let copy = self.known_controllers[i].duplicate();
            assert(copy@ == s[i as int]);
            let ghost prefix = s.take(i as int);
            proof {
                assert(spec_unique_keys(prefix)) by {
                    assert forall|a: int, b: int| 0 <= a < b < prefix.len() implies spec_info_key(#[trigger] prefix[a])
                        != spec_info_key(#[trigger] prefix[b]) by {
                        assert(prefix[a] == s[a] && prefix[b] == s[b]);
                    }
                }
                assert forall|j: int| 0 <= j < prefix.len() implies spec_info_key(prefix[j]) != spec_info_key(s[i as int]) by {
                    assert(prefix[j] == s[j]);
                }
                lemma_known_push(prefix, s[i as int]);
                assert(s.take(i + 1) =~= prefix.push(s[i as int]));
                assert forall|j: int| 0 <= j < infos@.len() implies spec_info_key(
                    #[trigger] spec_info_views(infos@)[j],
                ) != spec_info_key(copy@) by {
                    let v = spec_info_views(infos@);
                    if spec_info_key(v[j]) == spec_info_key(copy@) {
                        assert(spec_known_map(v).dom().contains(spec_info_key(copy@)));
                        assert(spec_known_map(prefix).dom().contains(spec_info_key(s[i as int])));
                        let w = choose|w: int| 0 <= w < prefix.len() && spec_info_key(prefix[w]) == spec_info_key(s[i as int]);
                        assert(prefix[w] == s[w]);
                    }
                }
            }
            insert_in_key_order(&mut infos, copy);
            i += 1;
        }
        assert(s.take(s.len() as int) =~= s);
        infos
    }
}


/// When the controller that holds the current drive request disconnects,
/// the request is dropped: the robot is told to stop and nobody holds the
/// drive any more.
pub proof fn lemma_disconnect_of_source_stops(v: RegistryView, info: ControllerInfoView)
    requires
        v.last_source == Some(spec_info_key(info)),
    ensures
        spec_lifecycle(v, false, info).control.drive is None,
        spec_lifecycle(v, false, info).last_source is None,
        !spec_lifecycle(v, false, info).known.contains_key(spec_info_key(info)),
        v.control.drive is Some ==> spec_lifecycle(v, false, info).pending.last() == InputEventView::Control(
            ControlState { drive: None },
        ),
        v.control.drive is Some ==> spec_lifecycle(v, false, info).pending == v.pending.push(
            InputEventView::ControllerDisconnected(info),
        ).push(InputEventView::Control(ControlState { drive: None })),
{
}

/// The registry after controller `info` sends `control` and then
/// disconnects.
pub open spec fn spec_drive_then_disconnect(v: RegistryView, info: ControllerInfoView, control: ControlState) -> RegistryView {
    spec_lifecycle(spec_routed(v, spec_info_key(info), RoutedInputEvent::Control(control)), false, info)
}

/// A controller that drives and then disconnects leaves the robot stopped:
/// after its drive control come its disconnection and an idle control, in
/// that order, nobody holds the drive and the controller is no longer
/// known.
pub proof fn lemma_drive_then_disconnect_stops(v: RegistryView, info: ControllerInfoView, control: ControlState)
    requires
        spec_allows(v.selection, spec_info_key(info)),
        control.drive is Some,
    ensures
        spec_drive_then_disconnect(v, info, control).pending == v.pending.push(InputEventView::Control(control)).push(
            InputEventView::ControllerDisconnected(info),
        ).push(InputEventView::Control(spec_idle())),
        spec_drive_then_disconnect(v, info, control).control == spec_idle(),
        spec_drive_then_disconnect(v, info, control).last_source is None,
        spec_drive_then_disconnect(v, info, control).known == v.known.remove(spec_info_key(info)),
{
}

/// The control that drives nothing.
pub open spec fn spec_idle() -> ControlState {
    ControlState { drive: None }
}

/// A locked selection ignores every event from any other controller.
pub proof fn lemma_locked_selection_filters(v: RegistryView, k: ControllerKey, event: RoutedInputEvent)
    requires
        v.selection matches SelectionView::Locked(locked) && locked != k,
    ensures
        spec_routed(v, k, event) == v,
{
}

/// Under the open selection the latest control wins, and its controller
/// holds the drive exactly while the control drives.
pub proof fn lemma_latest_control_wins(v: RegistryView, k: ControllerKey, control: ControlState)
    requires
        v.selection is Any,
    ensures
        spec_routed(v, k, RoutedInputEvent::Control(control)).control == control,
        spec_routed(v, k, RoutedInputEvent::Control(control)).last_source == (if control.drive is Some {
            Some(k)
        } else {
            None
        }),
{
}

/// A controller that connects and then disconnects leaves the other
/// connected controllers as they were.
pub proof fn lemma_connect_then_disconnect(v: RegistryView, info: ControllerInfoView)
    requires
        !v.known.contains_key(spec_info_key(info)),
    ensures
        spec_lifecycle(spec_lifecycle(v, true, info), false, info).known == v.known,
{
    assert(v.known.insert(spec_info_key(info), info).remove(spec_info_key(info)) =~= v.known);
}

} // verus!
