use surface_clear::color::Rgba;
use surface_clear::dispatcher::{
    after_render, DispatchAction, DispatchEvent, EventDispatcher, FrameOutcome,
};
use surface_clear::manager::{Extent, PointerButton, PressState};

fn initial() -> Rgba {
    Rgba { r: 100, g: 200, b: 300, a: 1000 }
}

fn alternate() -> Rgba {
    Rgba { r: 200, g: 300, b: 400, a: 1000 }
}

fn left_press() -> DispatchEvent {
    DispatchEvent::MouseInput { state: PressState::Pressed, button: PointerButton::Left }
}

#[test]
fn events_before_resume_are_dropped() {
    let mut d = EventDispatcher::new();
    assert!(!d.is_ready());
    let events = [
        DispatchEvent::CloseRequested,
        DispatchEvent::Resized { width: 800, height: 600 },
        DispatchEvent::KeyboardInput,
        left_press(),
        DispatchEvent::RedrawRequested,
        DispatchEvent::Other,
    ];
    for event in events {
        assert_eq!(d.window_event(event), DispatchAction::Ignore);
        assert!(!d.is_ready());
        assert!(!d.exit_requested);
    }
}

#[test]
fn first_resume_installs_manager_once() {
    let mut d = EventDispatcher::default();
    d.resumed(800, 600);
    assert!(d.is_ready());
    let installed = d.manager;
    d.resumed(123, 456);
    assert_eq!(d.manager, installed);
}

#[test]
fn resume_clamps_zero_reported_size() {
    let mut d = EventDispatcher::new();
    d.resumed(0, 0);
    let m = d.manager.unwrap();
    assert_eq!(m.size, Extent { width: 1, height: 1 });
    assert_eq!(m.config, Extent { width: 1, height: 1 });
}

#[test]
fn zero_dimension_resize_never_reaches_manager() {
    let mut d = EventDispatcher::new();
    d.resumed(800, 600);
    let before = d.manager;
    assert_eq!(
        d.window_event(DispatchEvent::Resized { width: 0, height: 600 }),
        DispatchAction::Ignore,
    );
    assert_eq!(d.manager, before);
    assert_eq!(
        d.window_event(DispatchEvent::Resized { width: 800, height: 0 }),
        DispatchAction::Ignore,
    );
    assert_eq!(d.manager, before);
    assert_eq!(
        d.window_event(DispatchEvent::Resized { width: 0, height: 0 }),
        DispatchAction::Ignore,
    );
    assert_eq!(d.manager, before);
}

#[test]
fn nonzero_resize_reaches_manager() {
    let mut d = EventDispatcher::new();
    d.resumed(800, 600);
    assert_eq!(
        d.window_event(DispatchEvent::Resized { width: 1024, height: 768 }),
        DispatchAction::Ignore,
    );
    let m = d.manager.unwrap();
    assert_eq!(m.size, Extent { width: 1024, height: 768 });
    assert!(m.size_changed);
}

#[test]
fn redraw_requests_frame_with_current_color() {
    let mut d = EventDispatcher::new();
    d.resumed(800, 600);
    assert_eq!(
        d.window_event(DispatchEvent::RedrawRequested),
        DispatchAction::RenderFrame { clear_color: initial() },
    );
    d.window_event(left_press());
    assert_eq!(
        d.window_event(DispatchEvent::RedrawRequested),
        DispatchAction::RenderFrame { clear_color: alternate() },
    );
}

#[test]
fn close_signals_exit_exactly_once() {
    let mut d = EventDispatcher::new();
    d.resumed(800, 600);
    assert_eq!(d.window_event(DispatchEvent::CloseRequested), DispatchAction::Exit);
    assert!(d.exit_requested);
    assert_eq!(d.window_event(DispatchEvent::CloseRequested), DispatchAction::Ignore);
    assert_eq!(d.window_event(DispatchEvent::RedrawRequested), DispatchAction::Ignore);
    assert_eq!(d.window_event(left_press()), DispatchAction::Ignore);
    assert!(d.exit_requested);
}

#[test]
fn apply_pending_resize_reports_new_size_once() {
    let mut d = EventDispatcher::new();
    d.resumed(800, 600);
    assert_eq!(d.apply_pending_resize(), None);
    d.window_event(DispatchEvent::Resized { width: 1024, height: 768 });
    assert_eq!(d.apply_pending_resize(), Some(Extent { width: 1024, height: 768 }));
    assert_eq!(d.apply_pending_resize(), None);
    let m = d.manager.unwrap();
    assert_eq!(m.config, Extent { width: 1024, height: 768 });
    assert!(!m.size_changed);
}

#[test]
fn apply_pending_resize_without_manager_is_a_noop() {
    let mut d = EventDispatcher::new();
    assert_eq!(d.apply_pending_resize(), None);
    assert!(!d.is_ready());
}

#[test]
fn suspend_changes_nothing() {
    let mut d = EventDispatcher::new();
    d.resumed(800, 600);
    let manager_before = d.manager;
    d.suspended();
    assert_eq!(d.manager, manager_before);
    assert!(!d.exit_requested);
}

#[test]
fn after_render_reports_only_lost_and_always_redraws() {
    let outcomes = [
        FrameOutcome::Presented,
        FrameOutcome::SurfaceLost,
        FrameOutcome::SurfaceOutdated,
        FrameOutcome::OutOfMemory,
        FrameOutcome::OtherFailure,
    ];
    for outcome in outcomes {
        let follow_up = after_render(outcome);
        assert_eq!(follow_up.report_lost, outcome == FrameOutcome::SurfaceLost);
        assert!(follow_up.request_redraw);
    }
}

#[test]
fn full_session_scenario() {
    // resume, resize(800,600), redraw, mouse-left-press, redraw,
    // resize(0,0), redraw, close: two differently colored frames, the
    // zero-size resize skipped, a third frame in the second color, then a
    // clean exit.
    let mut d = EventDispatcher::new();
    d.resumed(100, 100);
    assert_eq!(
        d.window_event(DispatchEvent::Resized { width: 800, height: 600 }),
        DispatchAction::Ignore,
    );
    assert_eq!(d.apply_pending_resize(), Some(Extent { width: 800, height: 600 }));
    assert_eq!(
        d.window_event(DispatchEvent::RedrawRequested),
        DispatchAction::RenderFrame { clear_color: initial() },
    );
    assert_eq!(d.window_event(left_press()), DispatchAction::Ignore);
    assert_eq!(
        d.window_event(DispatchEvent::RedrawRequested),
        DispatchAction::RenderFrame { clear_color: alternate() },
    );
    assert_eq!(
        d.window_event(DispatchEvent::Resized { width: 0, height: 0 }),
        DispatchAction::Ignore,
    );
    assert_eq!(d.apply_pending_resize(), None);
    let m = d.manager.unwrap();
    assert_eq!(m.config, Extent { width: 800, height: 600 });
    assert_eq!(
        d.window_event(DispatchEvent::RedrawRequested),
        DispatchAction::RenderFrame { clear_color: alternate() },
    );
    assert_eq!(d.window_event(DispatchEvent::CloseRequested), DispatchAction::Exit);
    assert_eq!(d.window_event(DispatchEvent::RedrawRequested), DispatchAction::Ignore);
}
