//! Input sources the brain reads from, and a fixed script of events.

use vstd::prelude::*;

use std::collections::VecDeque;

use crate::host::input::{InputEvent, InputEventView, spec_event_views};
use crate::text::push_str;

verus! {

/// What every input backend offers the brain loop.
pub trait CommandInputSource {
    /// Usage text for this backend, if it has any.
    fn instructions(&self) -> (text: Option<String>) {
        None
    }

    /// The next input event, waiting as long as it takes.
    fn next_event(&mut self) -> (event: Result<InputEvent, String>);

    /// The next input event, waiting at most `timeout_ms` milliseconds.
    fn poll_event(&mut self, timeout_ms: u64) -> (event: Result<Option<InputEvent>, String>);

    /// Pause operator input while the link is down.
    fn suspend(&mut self) -> (result: Result<(), String>) {
        Ok(())
    }

    /// Resume operator input after the link is back.
    fn resume(&mut self) -> (result: Result<(), String>) {
        Ok(())
    }

    /// Extend any continuous control hold by `duration_ms` milliseconds.
    fn extend_active_control(&mut self, duration_ms: u64) -> (result: Result<(), String>) {
        Ok(())
    }
}

/// The message of a script that has run out.
pub open spec fn spec_exhausted_message() -> Seq<char> {
    "scripted input exhausted"@
}

/// A fixed list of input events, handed out front to back.
#[derive(Debug)]
pub struct ScriptedInput {
    events: VecDeque<InputEvent>,
}

impl ScriptedInput {
    /// The events still to come, in order.
    pub closed spec fn pending(&self) -> Seq<InputEventView> {
        spec_event_views(self.events@)
    }

    /// A script of `events`, first to last.
    pub fn new(events: Vec<InputEvent>) -> (input: Self)
        ensures
            input.pending() == spec_event_views(events@),
    {
        let mut queue: VecDeque<InputEvent> = VecDeque::new();
        let mut rest = events;
        while rest.len() > 0
            invariant
                rest@ + queue@ == events@,
            decreases rest.len(),
        {
            let ghost before = rest@;
            let ghost queued = queue@;
            let event = rest.pop().unwrap();
            queue.push_front(event);
            assert(rest@ + queue@ =~= before + queued);
        }
        assert(queue@ =~= events@);
        ScriptedInput { events: queue }
    }

    /// Take the next event off the front of the script.
    fn pop(&mut self) -> (event: Option<InputEvent>)
        ensures
            old(self).pending().len() == 0 ==> event is None && final(self).pending() == old(self).pending(),
            old(self).pending().len() > 0 ==> (event matches Some(e) && e@ == old(self).pending()[0]),
            old(self).pending().len() > 0 ==> final(self).pending() == old(self).pending().drop_first(),
    {
        let event = self.events.pop_front();
        proof {
            if event is Some {
                assert(spec_event_views(self.events@) =~= spec_event_views(old(self).events@).drop_first());
            }
        }
        event
    }
}

impl Default for ScriptedInput {
    fn default() -> (input: Self)
        ensures
            input.pending() == Seq::<InputEventView>::empty(),
    {
        let input = ScriptedInput { events: VecDeque::new() };
        assert(input.pending() =~= Seq::<InputEventView>::empty());
        input
    }
}

impl CommandInputSource for ScriptedInput {
    /// The next scripted event; an error once the script has run out.
    fn next_event(&mut self) -> (event: Result<InputEvent, String>)
        ensures
            old(self).pending().len() == 0 ==> (event matches Err(m) && m@ == spec_exhausted_message()),
            old(self).pending().len() == 0 ==> final(self).pending() == old(self).pending(),
            old(self).pending().len() > 0 ==> (event matches Ok(e) && e@ == old(self).pending()[0]),
            old(self).pending().len() > 0 ==> final(self).pending() == old(self).pending().drop_first(),
    {
        match self.pop() {
            Some(event) => Ok(event),
            None => {
                let mut message = String::new();
                push_str(&mut message, "scripted input exhausted");
                Err(message)
            },
        }
    }

    /// The next scripted event without waiting; nothing once the script has run out.
    fn poll_event(&mut self, timeout_ms: u64) -> (event: Result<Option<InputEvent>, String>)
        ensures
            old(self).pending().len() == 0 ==> event matches Ok(None),
            old(self).pending().len() == 0 ==> final(self).pending() == old(self).pending(),
            old(self).pending().len() > 0 ==> (event matches Ok(Some(e)) && e@ == old(self).pending()[0]),
            old(self).pending().len() > 0 ==> final(self).pending() == old(self).pending().drop_first(),
    {
        Ok(self.pop())
    }
}

} // verus!
