use render_window::events::{
    handle_window_event, step, Action, Event, Flow, Key, KeyState, WindowEvent,
};
use render_window::pipeline::{Inputs, Topology};
use render_window::size::Size;
use render_window::state::{Mode, State, SurfaceError};

fn fresh(mode: Mode) -> State {
    State::new(mode, Size::new(640, 480), Inputs::for_topology(Topology::PointList))
}

#[test]
fn close_request_exits() {
    let mut st = fresh(Mode::Primitive);
    assert_eq!(handle_window_event(&mut st, &WindowEvent::CloseRequested), Flow::Exit);
}

#[test]
fn released_escape_exits() {
    let mut st = fresh(Mode::Primitive);
    let ev = WindowEvent::Keyboard { state: KeyState::Released, key: Key::Escape };
    assert_eq!(handle_window_event(&mut st, &ev), Flow::Exit);
}

#[test]
fn pressed_escape_is_ignored() {
    let mut st = fresh(Mode::Primitive);
    let ev = WindowEvent::Keyboard { state: KeyState::Pressed, key: Key::Escape };
    assert_eq!(handle_window_event(&mut st, &ev), Flow::Continue);
}

#[test]
fn other_keys_are_ignored() {
    let mut st = fresh(Mode::CursorColor);
    let before = st;
    let ev = WindowEvent::Keyboard { state: KeyState::Released, key: Key::Other };
    assert_eq!(handle_window_event(&mut st, &ev), Flow::Continue);
    assert_eq!(st, before);
}

#[test]
fn resize_event_updates_the_state() {
    let mut st = fresh(Mode::Primitive);
    let flow = handle_window_event(&mut st, &WindowEvent::Resized(Size::new(320, 240)));
    assert_eq!(flow, Flow::Continue);
    assert_eq!(st.size, Size { width: 320, height: 240 });
    assert_eq!(st.config.width, 320);
}

#[test]
fn minimised_resize_event_is_a_no_op() {
    let mut st = fresh(Mode::Primitive);
    let before = st;
    let flow = handle_window_event(&mut st, &WindowEvent::Resized(Size::new(0, 0)));
    assert_eq!(flow, Flow::Continue);
    assert_eq!(st, before);
}

#[test]
fn consumed_cursor_movement_goes_no_further() {
    let mut st = fresh(Mode::CursorColor);
    let flow = handle_window_event(&mut st, &WindowEvent::CursorMoved { x: 320, y: 240 });
    assert_eq!(flow, Flow::Continue);
    assert_eq!(st.background.r.num, 320);
    assert_eq!(st.background.r.den, 640);
}

#[test]
fn events_cleared_requests_one_redraw() {
    let mut st = fresh(Mode::Primitive);
    let (flow, action) = step(&mut st, &Event::MainEventsCleared);
    assert_eq!(flow, Flow::Continue);
    assert_eq!(action, Action::RequestRedraw);
}

#[test]
fn redraw_request_renders_one_frame() {
    let mut st = fresh(Mode::Primitive);
    let before = st;
    let (flow, action) = step(&mut st, &Event::RedrawRequested);
    assert_eq!(flow, Flow::Continue);
    assert_eq!(action, Action::Render);
    assert_eq!(st, before);
}

#[test]
fn unrelated_events_are_ignored() {
    let mut st = fresh(Mode::Primitive);
    let before = st;
    let (flow, action) = step(&mut st, &Event::Other);
    assert_eq!(flow, Flow::Continue);
    assert_eq!(action, Action::Idle);
    assert_eq!(st, before);
}

#[test]
fn window_events_dispatch_through_step() {
    let mut st = fresh(Mode::Primitive);
    let (flow, action) = step(&mut st, &Event::Window(WindowEvent::CloseRequested));
    assert_eq!(flow, Flow::Exit);
    assert_eq!(action, Action::Idle);
}

#[test]
fn lost_frame_then_fatal_frame() {
    // One loop pass hits a lost surface: the frame is skipped and the
    // surface reconfigured at the stored size. The next pass runs out of
    // memory: the loop ends.
    let mut st = fresh(Mode::Primitive);
    st.resize(Size::new(512, 256));

    let (_, action) = step(&mut st, &Event::RedrawRequested);
    assert_eq!(action, Action::Render);
    let rx = st.after_render(&Err(SurfaceError::Lost));
    assert_eq!(rx.flow, Flow::Continue);
    assert_eq!(rx.reconfigure, Some(Size { width: 512, height: 256 }));

    let (_, action) = step(&mut st, &Event::RedrawRequested);
    assert_eq!(action, Action::Render);
    let rx = st.after_render(&Err(SurfaceError::OutOfMemory));
    assert_eq!(rx.flow, Flow::Exit);
}
