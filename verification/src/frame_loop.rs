//! The frame loop: what each event does to its state, and when it ends.
//!
//! The loop itself runs in the application, which owns the window. It asks
//! [`FrameLoop::next_action`] what to do. While the answer is
//! [`Action::RenderFrame`] it draws and presents one frame, collects the events
//! that the window has pending, and hands them to [`FrameLoop::finish_frame`],
//! which answers with the next action.

use crate::event::Event;
use crate::key::{Key, KeyState};
use crate::keyboard::{state_in, Keyboard};
use crate::window::WindowGeometry;
use vstd::prelude::*;

verus! {

/// The two states of the frame loop. It starts `Running`, and once it is
/// `Terminated` it stays so.
#[derive(Clone, Copy, Debug, PartialEq, Eq, Structural)]
pub enum LoopState {
    Running,
    Terminated,
}

/// What the application does next.
#[derive(Clone, Copy, Debug, PartialEq, Eq, Structural)]
pub enum Action {
    /// Draw and present one more frame, then hand in the pending events.
    RenderFrame,
    /// Leave the loop.
    Exit,
}

/// The frame loop as a mathematical value.
pub struct LoopModel {
    pub state: LoopState,
    pub geometry: WindowGeometry,
    /// The keys recorded so far, each with its last state.
    pub keys: Map<Key, KeyState>,
}

impl LoopModel {
    /// A running loop with the opening geometry and no key recorded.
    pub open spec fn initial() -> LoopModel {
        LoopModel {
            state: LoopState::Running,
            geometry: WindowGeometry::spec_initial(),
            keys: Map::empty(),
        }
    }
}

/// Whether the event is a keyboard event for `key`.
pub open spec fn names_key(event: Event, key: Key) -> bool {
    event matches Event::KeyboardInput(_, Some(named)) && named == key
}

/// The loop after one event. A close ends it, a resize replaces the geometry,
/// a keyboard event with a key records the key's state; a keyboard event
/// without a key, and every other event, changes nothing.
pub open spec fn after_event(m: LoopModel, event: Event) -> LoopModel {
    match event {
        Event::Closed => LoopModel {
            state: LoopState::Terminated,
            geometry: m.geometry,
            keys: m.keys,
        },
        Event::Resized(width, height) => LoopModel {
            state: m.state,
            geometry: WindowGeometry { width, height },
            keys: m.keys,
        },
        Event::KeyboardInput(state, Some(key)) => LoopModel {
            state: m.state,
            geometry: m.geometry,
            keys: m.keys.insert(key, state),
        },
        Event::KeyboardInput(_, None) => m,
        Event::Other => m,
    }
}

/// The loop after the events are drained: each is applied in order for as long
/// as the loop is running, so that nothing behind a close is looked at.
pub open spec fn after_drain(m: LoopModel, events: Seq<Event>) -> LoopModel
    decreases events.len(),
{
    if events.len() == 0 || m.state is Terminated {
        m
    } else {
        after_drain(after_event(m, events[0]), events.drop_first())
    }
}

/// The loop after the check that ends an iteration: it is terminated if
/// `Escape` is pressed.
pub open spec fn after_exit_check(m: LoopModel) -> LoopModel {
    if state_in(m.keys, Key::Escape) is Pressed {
        LoopModel { state: LoopState::Terminated, geometry: m.geometry, keys: m.keys }
    } else {
        m
    }
}

/// The loop after the part of an iteration that follows the frame: the
/// pending events are drained, then `Escape` is checked.
pub open spec fn after_frame(m: LoopModel, events: Seq<Event>) -> LoopModel {
    after_exit_check(after_drain(m, events))
}

/// What the application does next: one more frame while the loop is running.
pub open spec fn action_of(m: LoopModel) -> Action {
    if m.state is Running {
        Action::RenderFrame
    } else {
        Action::Exit
    }
}

/// The state of the frame loop: whether it is running, the geometry of the
/// window, and the keyboard tracker.
pub struct FrameLoop {
    state: LoopState,
    geometry: WindowGeometry,
    keyboard: Keyboard,
}

impl View for FrameLoop {
    type V = LoopModel;

    closed spec fn view(&self) -> LoopModel {
        LoopModel { state: self.state, geometry: self.geometry, keys: self.keyboard@ }
    }
}

impl FrameLoop {
    /// A running loop for a window of the opening size, with no key seen yet.
    pub fn new() -> (frame_loop: FrameLoop)
        ensures
            frame_loop@ == LoopModel::initial(),
    {
        FrameLoop {
            state: LoopState::Running,
            geometry: WindowGeometry::initial(),
            keyboard: Keyboard::new(),
        }
    }

    /// The state of the loop.
    pub fn state(&self) -> (state: LoopState)
        ensures
            state == self@.state,
    {
        self.state
    }

    /// Whether the loop is still running.
    pub fn is_running(&self) -> (running: bool)
        ensures
            running == (self@.state is Running),
    {
        match self.state {
            LoopState::Running => true,
            LoopState::Terminated => false,
        }
    }

    /// The geometry of the window as the last resize gave it.
    pub fn geometry(&self) -> (geometry: WindowGeometry)
        ensures
            geometry == self@.geometry,
    {
        self.geometry
    }

    /// The keyboard tracker.
    pub fn keyboard(&self) -> (keyboard: &Keyboard)
        ensures
            keyboard@ == self@.keys,
    {
        &self.keyboard
    }

    /// What the application does next.
    pub fn next_action(&self) -> (action: Action)
        ensures
            action == action_of(self@),
    {
        match self.state {
            LoopState::Running => Action::RenderFrame,
            LoopState::Terminated => Action::Exit,
        }
    }

    /// Applies one event to the loop.
    pub fn handle_event(&mut self, event: Event)
        ensures
            final(self)@ == after_event(old(self)@, event),
    {
        match event {
            Event::Closed => {
                self.state = LoopState::Terminated;
            },
            Event::Resized(width, height) => {
                self.geometry = WindowGeometry { width, height };
            },
            Event::KeyboardInput(state, key) => {
                match key {
                    Some(key) => self.keyboard.set_key_state(key, state),
                    None => (),
                }
            },
            Event::Other => (),
        }
    }

    /// Drains the pending events: applies them in order and stops behind the
    /// first close, leaving the events after it alone.
    pub fn drain_events(&mut self, events: &Vec<Event>)
        ensures
            final(self)@ == after_drain(old(self)@, events@),
    {
        let mut at: usize = 0;
        assert(events@.skip(0) =~= events@);
        while at < events.len() && self.is_running()
            invariant
                at <= events.len(),
                after_drain(self@, events@.skip(at as int)) == after_drain(old(self)@, events@),
            decreases events.len() - at,
        {
            assert(events@.skip(at as int).drop_first() =~= events@.skip(at as int + 1));
            self.handle_event(events[at]);
            at += 1;
        }
    }

    /// Ends an iteration: the loop is terminated if `Escape` is pressed.
    pub fn check_exit(&mut self)
        ensures
            final(self)@ == after_exit_check(old(self)@),
    {
        match self.keyboard.get_key_state(Key::Escape) {
            KeyState::Pressed => {
                self.state = LoopState::Terminated;
            },
            KeyState::Released => (),
        }
    }

    /// The part of an iteration that follows the frame: drains the pending
    /// events, checks `Escape`, and says what the application does next.
    pub fn finish_frame(&mut self, events: &Vec<Event>) -> (action: Action)
        ensures
            final(self)@ == after_frame(old(self)@, events@),
            action == action_of(final(self)@),
    {
        self.drain_events(events);
        self.check_exit();
        self.next_action()
    }
}

/// Terminated is absorbing: no batch of events changes a terminated loop, and
/// the application is told to leave.
pub proof fn lemma_terminated_is_absorbing(m: LoopModel, events: Seq<Event>)
    requires
        m.state is Terminated,
    ensures
        after_drain(m, events) == m,
        after_frame(m, events) == m,
        action_of(after_frame(m, events)) == Action::Exit,
{
}

/// Draining never restarts a loop: a loop that is running afterwards was
/// running before.
pub proof fn lemma_drain_never_restarts(m: LoopModel, events: Seq<Event>)
    ensures
        after_drain(m, events).state is Running ==> m.state is Running,
    decreases events.len(),
{
    if events.len() > 0 && m.state is Running {
        lemma_drain_never_restarts(after_event(m, events[0]), events.drop_first());
    }
}

/// A running loop is terminated by a drain exactly if a close is among the
/// events.
pub proof fn lemma_drain_ends_on_close(m: LoopModel, events: Seq<Event>)
    requires
        m.state is Running,
    ensures
        after_drain(m, events).state is Terminated <==> events.contains(Event::Closed),
    decreases events.len(),
{
    if events.len() > 0 {
        let rest = events.drop_first();
        let next = after_event(m, events[0]);
        assert forall|i: int| 0 <= i < rest.len() implies rest[i] == events[i + 1] by {}
        if events[0] == Event::Closed {
            assert(events.contains(Event::Closed));
        } else {
            lemma_drain_ends_on_close(next, rest);
            if rest.contains(Event::Closed) {
                let i = choose|i: int| 0 <= i < rest.len() && rest[i] == Event::Closed;
                assert(events[i + 1] == Event::Closed);
            }
            if events.contains(Event::Closed) {
                let i = choose|i: int| 0 <= i < events.len() && events[i] == Event::Closed;
                assert(rest[i - 1] == Event::Closed);
            }
        }
    }
}

/// Once a close is drained the loop is over: whatever the state before and
/// whatever else the batch holds, the loop is terminated, the application is
/// told to leave, and no later batch brings the loop back.
pub proof fn lemma_close_ends_the_loop(m: LoopModel, events: Seq<Event>, later: Seq<Event>)
    requires
        events.contains(Event::Closed),
    ensures
        after_drain(m, events).state is Terminated,
        after_frame(m, events).state is Terminated,
        action_of(after_frame(m, events)) == Action::Exit,
        after_frame(after_frame(m, events), later) == after_frame(m, events),
{
    if m.state is Running {
        lemma_drain_ends_on_close(m, events);
    }
    lemma_terminated_is_absorbing(after_frame(m, events), later);
}

/// The events behind a close are left alone: draining a batch with a close at
/// `at` is draining the batch up to and with that close.
pub proof fn lemma_drain_stops_at_close(m: LoopModel, events: Seq<Event>, at: int)
    requires
        0 <= at < events.len(),
        events[at] == Event::Closed,
    ensures
        after_drain(m, events) == after_drain(m, events.take(at + 1)),
    decreases at,
{
    let head = events.take(at + 1);
    if m.state is Running {
        assert(head[0] == events[0]);
        let next = after_event(m, events[0]);
        assert(after_drain(m, events) == after_drain(next, events.drop_first()));
        assert(after_drain(m, head) == after_drain(next, head.drop_first()));
        if at == 0 {
            lemma_terminated_is_absorbing(next, events.drop_first());
            lemma_terminated_is_absorbing(next, head.drop_first());
        } else {
            assert(events.drop_first().take(at) =~= head.drop_first());
            lemma_drain_stops_at_close(next, events.drop_first(), at - 1);
        }
    }
}

/// If `Escape` is pressed when the events are drained, the loop is over: it
/// is terminated and the application is told to leave before another frame.
pub proof fn lemma_escape_ends_the_loop(m: LoopModel, events: Seq<Event>)
    requires
        state_in(after_drain(m, events).keys, Key::Escape) is Pressed,
    ensures
        after_frame(m, events).state is Terminated,
        action_of(after_frame(m, events)) == Action::Exit,
{
}

/// A running loop ends with an iteration exactly if a close was among the
/// events or `Escape` is pressed once they are drained. Nothing else ends it.
pub proof fn lemma_loop_ends_only_on_close_or_escape(m: LoopModel, events: Seq<Event>)
    requires
        m.state is Running,
    ensures
        after_frame(m, events).state is Terminated <==> (events.contains(Event::Closed) || state_in(
            after_drain(m, events).keys,
            Key::Escape,
        ) is Pressed),
        action_of(after_frame(m, events)) == Action::Exit <==> (events.contains(Event::Closed)
            || state_in(after_drain(m, events).keys, Key::Escape) is Pressed),
{
    lemma_drain_ends_on_close(m, events);
}

/// A resize sets the geometry to the size it brings, whatever the geometry
/// was, and touches neither the keys nor the state of the loop.
pub proof fn lemma_resize_sets_geometry(m: LoopModel, width: u32, height: u32)
    ensures
        after_event(m, Event::Resized(width, height)).geometry == (WindowGeometry { width, height }),
        after_event(m, Event::Resized(width, height)).keys == m.keys,
        after_event(m, Event::Resized(width, height)).state == m.state,
        forall|key: Key|
            state_in(#[trigger] after_event(m, Event::Resized(width, height)).keys, key)
                == state_in(m.keys, key),
{
}

/// The geometry stays positive as long as every resize brings a positive
/// width and a positive height.
pub proof fn lemma_positive_sizes_keep_geometry_positive(m: LoopModel, events: Seq<Event>)
    requires
        m.geometry.is_positive(),
        forall|i: int|
            0 <= i < events.len() ==> (#[trigger] events[i] matches Event::Resized(width, height)
                ==> width > 0 && height > 0),
    ensures
        after_drain(m, events).geometry.is_positive(),
        after_frame(m, events).geometry.is_positive(),
    decreases events.len(),
{
    if events.len() > 0 && m.state is Running {
        let rest = events.drop_first();
        assert forall|i: int| 0 <= i < rest.len() implies (#[trigger] rest[i] matches Event::Resized(
            width,
            height,
        ) ==> width > 0 && height > 0) by {
            assert(rest[i] == events[i + 1]);
        }
        lemma_positive_sizes_keep_geometry_positive(after_event(m, events[0]), rest);
    }
}

/// Only a keyboard event that names a key changes that key's state: a drain
/// without one leaves the state of `key` as it was.
pub proof fn lemma_drain_keeps_unnamed_keys(m: LoopModel, events: Seq<Event>, key: Key)
    requires
        forall|i: int| 0 <= i < events.len() ==> !names_key(#[trigger] events[i], key),
    ensures
        state_in(after_drain(m, events).keys, key) == state_in(m.keys, key),
    decreases events.len(),
{
    if events.len() > 0 && m.state is Running {
        let rest = events.drop_first();
        assert forall|i: int| 0 <= i < rest.len() implies !names_key(#[trigger] rest[i], key) by {
            assert(rest[i] == events[i + 1]);
        }
        lemma_drain_keeps_unnamed_keys(after_event(m, events[0]), rest, key);
        assert(!names_key(events[0], key));
    }
}

} // verus!
