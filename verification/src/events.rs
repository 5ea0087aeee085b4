//! The events the loop distinguishes and its dispatch decisions.
//!
//! The driver layer translates what the windowing system delivers into
//! these plain events, steps the state through `step`, and performs the
//! action each step asks for (request a redraw, or render one frame and
//! feed the outcome back through `State::after_render`).

use vstd::prelude::*;

use crate::size::Size;
use crate::state::{Mode, State};

verus! {

/// Whether a key was pressed or released.
#[derive(Clone, Copy, Debug, PartialEq, Eq, Structural)]
pub enum KeyState {
    Pressed,
    Released,
}

/// The keys the dispatcher distinguishes: Escape ends the loop when
/// released, every other key is ignored.
#[derive(Clone, Copy, Debug, PartialEq, Eq, Structural)]
pub enum Key {
    Escape,
    Other,
}

/// The window events the loop distinguishes.
#[derive(Clone, Copy, Debug, PartialEq, Eq, Structural)]
pub enum WindowEvent {
    CloseRequested,
    Keyboard { state: KeyState, key: Key },
    Resized(Size),
    CursorMoved { x: u32, y: u32 },
    Other,
}

/// Whether the loop carries on or ends.
#[derive(Clone, Copy, Debug, PartialEq, Eq, Structural)]
pub enum Flow {
    Continue,
    Exit,
}

/// A loop-level event: a window event, the redraw signal, or the signal
/// that all pending events were processed.
#[derive(Clone, Copy, Debug, PartialEq, Eq, Structural)]
pub enum Event {
    Window(WindowEvent),
    RedrawRequested,
    MainEventsCleared,
    Other,
}

/// The outside work one loop step asks for.
#[derive(Clone, Copy, Debug, PartialEq, Eq, Structural)]
pub enum Action {
    Idle,
    RequestRedraw,
    Render,
}

/// Whether a window event, when the input handler did not consume it,
/// ends the loop: a close request or a released Escape key.
pub open spec fn spec_quit_event(event: WindowEvent) -> bool {
    ||| event == WindowEvent::CloseRequested
    ||| event == (WindowEvent::Keyboard { state: KeyState::Released, key: Key::Escape })
}

/// The dispatch of one window event: the input handler runs first and a
/// consumed event goes no further; otherwise a quit event ends the loop, a
/// resize updates the state, and everything else is ignored.
pub open spec fn spec_window_step(s: State, event: WindowEvent) -> (State, Flow) {
    if s.spec_consumes(event) {
        (s.spec_input(event), Flow::Continue)
    } else if spec_quit_event(event) {
        (s, Flow::Exit)
    } else {
        match event {
            WindowEvent::Resized(new_size) => (s.spec_resize(new_size), Flow::Continue),
            _ => (s, Flow::Continue),
        }
    }
}

/// One loop step: a window event is dispatched; the redraw signal asks
/// for one frame after the no-op update; the events-cleared signal asks
/// for exactly one redraw; anything else is ignored.
pub open spec fn spec_step(s: State, event: Event) -> (State, Flow, Action) {
    match event {
        Event::Window(w) => (spec_window_step(s, w).0, spec_window_step(s, w).1, Action::Idle),
        Event::RedrawRequested => (s, Flow::Continue, Action::Render),
        Event::MainEventsCleared => (s, Flow::Continue, Action::RequestRedraw),
        Event::Other => (s, Flow::Continue, Action::Idle),
    }
}

/// Dispatches one window event; see `spec_window_step`. The loop ends
/// exactly on an unconsumed close request or released Escape key.
pub fn handle_window_event(state: &mut State, event: &WindowEvent) -> (flow: Flow)
    requires
        old(state).wf(),
    ensures
        final(state).wf(),
        (*final(state), flow) == spec_window_step(*old(state), *event),
        flow == Flow::Exit <==> !old(state).spec_consumes(*event) && spec_quit_event(*event),
{
    if state.input(event) {
        return Flow::Continue;
    }
    match event {
        WindowEvent::CloseRequested => Flow::Exit,
        WindowEvent::Keyboard { state: key_state, key } => match (key_state, key) {
            (KeyState::Released, Key::Escape) => Flow::Exit,
            _ => Flow::Continue,
        },
        WindowEvent::Resized(new_size) => {
            state.resize(*new_size);
            Flow::Continue
        },
        _ => Flow::Continue,
    }
}

/// Performs one loop step; see `spec_step`.
pub fn step(state: &mut State, event: &Event) -> (r: (Flow, Action))
    requires
        old(state).wf(),
    ensures
        final(state).wf(),
        (*final(state), r.0, r.1) == spec_step(*old(state), *event),
{
    match event {
        Event::Window(w) => {
            let flow = handle_window_event(state, w);
            (flow, Action::Idle)
        },
        Event::RedrawRequested => {
            state.update();
            (Flow::Continue, Action::Render)
        },
        Event::MainEventsCleared => (Flow::Continue, Action::RequestRedraw),
        Event::Other => (Flow::Continue, Action::Idle),
    }
}

} // verus!
