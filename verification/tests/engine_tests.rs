use frame_comp::comparator::Extent2D;
use frame_comp::engine::FrameEngine;
use frame_comp::window::{handle_window_event, Action, WindowEvent, WindowState};

fn extent(width: u32, height: u32) -> Extent2D {
    Extent2D { width, height }
}

#[test]
fn no_frame_before_first_rebuild() {
    let engine = FrameEngine::new(extent(1820, 1090), 20);
    assert!(engine.resized);
    assert!(engine.begin_frame().is_none());
}

#[test]
fn rebuild_clears_flag_and_installs_handles() {
    let mut engine = FrameEngine::new(extent(1820, 1090), 20);
    engine.rebuild(0x1000, vec![0x2000, 0x3000]);
    assert!(!engine.resized);
    assert_eq!(engine.render_pass, Some(0x1000));
    assert_eq!(engine.comparators, vec![0x2000, 0x3000]);
    assert_eq!(engine.generation, 1);
    let (handle, bar) = engine.begin_frame().unwrap();
    assert_eq!(handle, 0x1000);
    assert_eq!(bar.den, 1820);
}

#[test]
fn resize_discards_handles_until_rebuilt() {
    let mut engine = FrameEngine::new(extent(1820, 1090), 20);
    engine.rebuild(0x1000, vec![0x2000]);
    assert!(engine.begin_frame().is_some());

    engine.mark_resized(extent(800, 600));
    // The old handles are stale: no frame may be recorded against them.
    assert!(engine.resized);
    assert!(engine.begin_frame().is_none());

    engine.rebuild(0x4000, vec![0x5000]);
    // The flag is cleared exactly once per successful rebuild, and the prior
    // render-pass and comparator handles are replaced.
    assert!(!engine.resized);
    assert_eq!(engine.render_pass, Some(0x4000));
    assert_eq!(engine.comparators, vec![0x5000]);
    assert_eq!(engine.generation, 2);
    let (handle, _) = engine.begin_frame().unwrap();
    assert_eq!(handle, 0x4000);
}

#[test]
fn drag_inside_window_moves_bar() {
    let mut engine = FrameEngine::new(extent(1024, 768), 20);
    engine.update_bar(512, true);
    assert_eq!(engine.bar.num, 512);
    assert_eq!(engine.bar.den, 1024);
}

#[test]
fn drag_near_edges_is_rejected() {
    let mut engine = FrameEngine::new(extent(1024, 768), 20);
    let before = engine.bar;
    engine.update_bar(5, true); // inside the 10px left margin
    assert_eq!(engine.bar, before);
    engine.update_bar(1020, true); // inside the 10px right margin
    assert_eq!(engine.bar, before);
    engine.update_bar(-50, true); // left of the surface entirely
    assert_eq!(engine.bar, before);
    engine.update_bar(10, true); // exactly on the margin: accepted
    assert_eq!(engine.bar.num, 10);
}

#[test]
fn pointer_without_drag_keeps_bar() {
    let mut engine = FrameEngine::new(extent(1024, 768), 20);
    let before = engine.bar;
    engine.update_bar(512, false);
    assert_eq!(engine.bar, before);
}

#[test]
fn redraw_renders_unless_minimized_or_exiting() {
    let mut s = WindowState { minimized: false, mouse_left_pressed: false, last_mouse_x: 20 };
    assert_eq!(
        handle_window_event(&mut s, &WindowEvent::RedrawRequested, false),
        Action::RenderFrame
    );
    assert_eq!(
        handle_window_event(&mut s, &WindowEvent::RedrawRequested, true),
        Action::Ignore
    );
    s.minimized = true;
    assert_eq!(
        handle_window_event(&mut s, &WindowEvent::RedrawRequested, false),
        Action::Ignore
    );
}

#[test]
fn zero_size_resize_minimizes() {
    let mut s = WindowState { minimized: false, mouse_left_pressed: false, last_mouse_x: 20 };
    let a = handle_window_event(&mut s, &WindowEvent::Resized { width: 0, height: 0 }, false);
    assert!(s.minimized);
    assert_eq!(a, Action::RedrawOnly);
    let a = handle_window_event(&mut s, &WindowEvent::Resized { width: 800, height: 600 }, false);
    assert!(!s.minimized);
    assert_eq!(a, Action::UpdateAndRedraw);
}

#[test]
fn cursor_and_button_events_update_state() {
    let mut s = WindowState { minimized: false, mouse_left_pressed: false, last_mouse_x: 20 };
    let a = handle_window_event(&mut s, &WindowEvent::CursorMoved { x: 333 }, false);
    assert_eq!(s.last_mouse_x, 333);
    assert_eq!(a, Action::UpdateAndRedraw);
    let a = handle_window_event(
        &mut s,
        &WindowEvent::MouseInput { left_button: true, pressed: true },
        false,
    );
    assert!(s.mouse_left_pressed);
    assert_eq!(a, Action::UpdateAndRedraw);
    let a = handle_window_event(
        &mut s,
        &WindowEvent::MouseInput { left_button: true, pressed: false },
        false,
    );
    assert!(!s.mouse_left_pressed);
    assert_eq!(a, Action::UpdateAndRedraw);
}

#[test]
fn close_tears_down() {
    let mut s = WindowState { minimized: false, mouse_left_pressed: false, last_mouse_x: 20 };
    assert_eq!(
        handle_window_event(&mut s, &WindowEvent::CloseRequested, false),
        Action::DestroyAndExit
    );
}
