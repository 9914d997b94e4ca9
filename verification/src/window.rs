//! Window-event decisions.
//!
//! The event loop at the unverified edge receives window-system events and
//! performs actions (rendering, tearing down, requesting redraws); which
//! action follows from which event, and how the interactive state changes,
//! is decided here. Events arrive reduced to plain values.

use vstd::prelude::*;

verus! {

/// A window-system event, reduced to what the viewer decides on.
#[derive(Clone, Copy, Debug, PartialEq, Eq, Structural)]
pub enum WindowEvent {
    /// The window asks for a frame.
    RedrawRequested,
    /// The user asked to close the window.
    CloseRequested,
    /// The surface changed to the given size in pixels.
    Resized { width: u32, height: u32 },
    /// The pointer moved to the given horizontal pixel coordinate (may be
    /// negative when the pointer is captured left of the surface).
    CursorMoved { x: i64 },
    /// A mouse button changed state.
    MouseInput { left_button: bool, pressed: bool },
    /// Anything else the window system reports.
    Other,
}

/// What the event loop must do in response to an event.
#[derive(Clone, Copy, Debug, PartialEq, Eq, Structural)]
pub enum Action {
    /// Record and submit a frame.
    RenderFrame,
    /// Destroy the renderer and leave the event loop.
    DestroyAndExit,
    /// Re-apply interactive state (bar fraction, rebuild check), then request
    /// a redraw.
    UpdateAndRedraw,
    /// Request a redraw only.
    RedrawOnly,
    /// Nothing.
    Ignore,
}

/// The interactive window state the decisions depend on.
#[derive(Clone, Copy, Debug, PartialEq, Eq, Structural)]
pub struct WindowState {
    /// The surface currently has zero area; no frames are rendered.
    pub minimized: bool,
    /// The left mouse button is held: bar dragging is active.
    pub mouse_left_pressed: bool,
    /// The last reported horizontal pointer position in pixels.
    pub last_mouse_x: i64,
}

/// The window state after an event: a resize records whether the surface is
/// minimized (zero area), pointer motion records the new coordinate, and a
/// mouse event records whether the left button is now held. Other events
/// leave the state unchanged.
pub open spec fn next_window_state(s: WindowState, e: WindowEvent) -> WindowState {
    match e {
        WindowEvent::Resized { width, height } => WindowState {
            minimized: width == 0 && height == 0,
            ..s
        },
        WindowEvent::CursorMoved { x } => WindowState { last_mouse_x: x, ..s },
        WindowEvent::MouseInput { left_button, pressed } => WindowState {
            mouse_left_pressed: left_button && pressed,
            ..s
        },
        _ => s,
    }
}

/// The action an event demands: a redraw request renders unless the window
/// is minimized or the loop is exiting; a close request tears down; a resize
/// to zero area only requests a redraw, any other resize and any pointer or
/// button event re-applies interactive state first.
pub open spec fn event_action(s: WindowState, e: WindowEvent, exiting: bool) -> Action {
    match e {
        WindowEvent::RedrawRequested => if !s.minimized && !exiting {
            Action::RenderFrame
        } else {
            Action::Ignore
        },
        WindowEvent::CloseRequested => Action::DestroyAndExit,
        WindowEvent::Resized { width, height } => if width == 0 && height == 0 {
            Action::RedrawOnly
        } else {
            Action::UpdateAndRedraw
        },
        WindowEvent::CursorMoved { .. } => Action::UpdateAndRedraw,
        WindowEvent::MouseInput { .. } => Action::UpdateAndRedraw,
        WindowEvent::Other => Action::Ignore,
    }
}

/// Apply one window-system event: advance the interactive state and return
/// the action the event loop must perform. The decision reads the state as it
/// was when the event arrived.
pub fn handle_window_event(state: &mut WindowState, event: &WindowEvent, exiting: bool) -> (a:
    Action)
    ensures
        *final(state) == next_window_state(*old(state), *event),
        a == event_action(*old(state), *event, exiting),
{
    match *event {
        WindowEvent::RedrawRequested => {
            if !state.minimized && !exiting {
                Action::RenderFrame
            } else {
                Action::Ignore
            }
        },
        WindowEvent::CloseRequested => Action::DestroyAndExit,
        WindowEvent::Resized { width, height } => {
            if width == 0 && height == 0 {
                state.minimized = true;
                Action::RedrawOnly
            } else {
                state.minimized = false;
                Action::UpdateAndRedraw
            }
        },
        WindowEvent::CursorMoved { x } => {
            state.last_mouse_x = x;
            Action::UpdateAndRedraw
        },
        WindowEvent::MouseInput { left_button, pressed } => {
            state.mouse_left_pressed = left_button && pressed;
            Action::UpdateAndRedraw
        },
        WindowEvent::Other => Action::Ignore,
    }
}

} // verus!
