use nightmare_engine::event_loop::{
    EventLoopState, LoopAction, LoopEvent, RenderOutcome, WindowInput,
};
use nightmare_engine::events::{EventKind, WindowEventPlugin};

fn main_window(input: WindowInput) -> LoopEvent {
    LoopEvent::Window { main_window: true, input }
}

#[test]
fn window_event_plugin_registers_all_window_events() {
    let mut registry = vec![EventKind::OnWindowCreated];
    WindowEventPlugin.setup(&mut registry);
    assert_eq!(registry.len(), 18);
    assert_eq!(registry[0], EventKind::OnWindowCreated);
    assert_eq!(registry[1], EventKind::OnWindowResized);
    assert_eq!(registry[17], EventKind::OnMouseButton);
    assert_eq!(registry.iter().filter(|k| **k == EventKind::OnWindowResized).count(), 2);
    assert!(!registry[1..].contains(&EventKind::OnWindowMoved));
}

#[test]
fn first_frame_clock_starts_once() {
    let mut s = EventLoopState::new(800, 600);
    let redraw = LoopEvent::RedrawRequested { main_window: true };
    assert_eq!(
        s.handle_event(redraw),
        vec![LoopAction::StartFrameClock, LoopAction::UpdateDeltaTime, LoopAction::RenderFrame]
    );
    assert!(!s.first_frame_pending);
    assert_eq!(s.handle_event(redraw), vec![LoopAction::UpdateDeltaTime, LoopAction::RenderFrame]);
    assert_eq!(s.handle_event(redraw), vec![LoopAction::UpdateDeltaTime, LoopAction::RenderFrame]);
}

#[test]
fn other_windows_are_ignored() {
    let mut s = EventLoopState::new(800, 600);
    let before = s;
    let ev = LoopEvent::Window { main_window: false, input: WindowInput::CloseRequested };
    assert!(s.handle_event(ev).is_empty());
    assert!(s.handle_event(LoopEvent::RedrawRequested { main_window: false }).is_empty());
    assert_eq!(s, before);
}

#[test]
fn close_request_sends_event_and_exits() {
    let mut s = EventLoopState::new(800, 600);
    assert_eq!(
        s.handle_event(main_window(WindowInput::CloseRequested)),
        vec![LoopAction::Send(EventKind::OnWindowCloseRequested), LoopAction::Exit]
    );
}

#[test]
fn resize_reconfigures_only_nonzero_sizes() {
    let mut s = EventLoopState::new(800, 600);
    assert_eq!(
        s.handle_event(main_window(WindowInput::Resized { width: 1024, height: 768 })),
        vec![
            LoopAction::ResizeSurface { width: 1024, height: 768 },
            LoopAction::Send(EventKind::OnWindowResized),
        ]
    );
    assert_eq!((s.surface_width, s.surface_height), (1024, 768));
    // minimised: the surface keeps its size, the event is still sent
    assert_eq!(
        s.handle_event(main_window(WindowInput::Resized { width: 0, height: 768 })),
        vec![LoopAction::Send(EventKind::OnWindowResized)]
    );
    assert_eq!((s.surface_width, s.surface_height), (1024, 768));
    assert_eq!(
        s.handle_event(main_window(WindowInput::ScaleFactorChanged { width: 640, height: 0 })),
        vec![LoopAction::Send(EventKind::OnWindowScaleFactorChanged)]
    );
    assert_eq!(
        s.handle_event(main_window(WindowInput::ScaleFactorChanged { width: 640, height: 480 })),
        vec![
            LoopAction::ResizeSurface { width: 640, height: 480 },
            LoopAction::Send(EventKind::OnWindowScaleFactorChanged),
        ]
    );
}

#[test]
fn input_events_are_forwarded() {
    let mut s = EventLoopState::new(1, 1);
    let cases = [
        (WindowInput::KeyboardInput { has_keycode: true }, vec![LoopAction::Send(EventKind::OnKeyboardInput)]),
        (WindowInput::KeyboardInput { has_keycode: false }, vec![]),
        (WindowInput::Focused, vec![LoopAction::Send(EventKind::OnWindowFocused)]),
        (WindowInput::HoveredFile, vec![LoopAction::Send(EventKind::OnFileDragAndDrop)]),
        (WindowInput::DroppedFile, vec![LoopAction::Send(EventKind::OnFileDragAndDrop)]),
        (WindowInput::CursorEntered, vec![LoopAction::Send(EventKind::OnCursorEntered)]),
        (WindowInput::CursorLeft, vec![LoopAction::Send(EventKind::OnCursorLeft)]),
        (WindowInput::ReceivedCharacter, vec![LoopAction::Send(EventKind::OnReceivedCharacter)]),
        (WindowInput::MouseInput, vec![LoopAction::Send(EventKind::OnMouseButton)]),
        (WindowInput::MouseWheel, vec![LoopAction::Send(EventKind::OnMouseWheel)]),
        (WindowInput::Other, vec![]),
    ];
    for (input, expected) in cases {
        assert_eq!(s.handle_event(main_window(input)), expected);
    }
    assert_eq!(s.handle_event(LoopEvent::MouseMotion), vec![LoopAction::Send(EventKind::OnMouseMotion)]);
}

#[test]
fn loop_lifecycle_events() {
    let mut s = EventLoopState::new(1, 1);
    assert_eq!(s.handle_event(LoopEvent::NewEvents), vec![LoopAction::UpdateApp]);
    assert_eq!(s.handle_event(LoopEvent::MainEventsCleared), vec![LoopAction::RequestRedraw]);
    assert_eq!(
        s.handle_event(LoopEvent::LoopDestroyed),
        vec![LoopAction::Send(EventKind::ExitSequence), LoopAction::UpdateApp]
    );
    assert!(s.handle_event(LoopEvent::RedrawEventsCleared).is_empty());
    assert!(s.handle_event(LoopEvent::Other).is_empty());
}

#[test]
fn frame_outcomes() {
    let mut s = EventLoopState::new(320, 200);
    let tail = [LoopAction::Send(EventKind::OnRedrawRequested), LoopAction::UpdateCameraBuffer];
    assert_eq!(s.finish_frame(RenderOutcome::Presented), tail.to_vec());
    let mut lost = vec![LoopAction::ResizeSurface { width: 320, height: 200 }];
    lost.extend(tail);
    assert_eq!(s.finish_frame(RenderOutcome::Lost), lost);
    assert_eq!(s.finish_frame(RenderOutcome::Outdated), lost);
    let mut oom = vec![LoopAction::Exit];
    oom.extend(tail);
    assert_eq!(s.finish_frame(RenderOutcome::OutOfMemory), oom);
    let mut timeout = vec![LoopAction::WarnSurfaceTimeout];
    timeout.extend(tail);
    assert_eq!(s.finish_frame(RenderOutcome::Timeout), timeout);
    assert_eq!((s.surface_width, s.surface_height), (320, 200));
}

#[test]
fn lost_zero_surface_is_not_resized() {
    let mut s = EventLoopState::new(0, 0);
    assert_eq!(
        s.finish_frame(RenderOutcome::Lost),
        vec![LoopAction::Send(EventKind::OnRedrawRequested), LoopAction::UpdateCameraBuffer]
    );
}

#[test]
fn exit_requests_are_read_once() {
    let mut s = EventLoopState::new(10, 10);
    assert_eq!(s.unread_exit_requests, 0);
    s.send_exit_app();
    s.send_exit_app();
    assert_eq!(s.unread_exit_requests, 2);
    // other events neither read nor drop the requests
    assert_eq!(s.handle_event(LoopEvent::NewEvents), vec![LoopAction::UpdateApp]);
    assert_eq!(s.unread_exit_requests, 2);
    assert_eq!(s.handle_event(LoopEvent::RedrawEventsCleared), vec![LoopAction::Exit]);
    assert_eq!(s.unread_exit_requests, 0);
    // a second check finds nothing to read
    assert!(s.handle_event(LoopEvent::RedrawEventsCleared).is_empty());
    s.send_exit_app();
    assert_eq!(s.handle_event(LoopEvent::RedrawEventsCleared), vec![LoopAction::Exit]);
}

#[test]
fn exit_request_count_saturates() {
    let mut s = EventLoopState::new(10, 10);
    s.unread_exit_requests = u64::MAX;
    s.send_exit_app();
    assert_eq!(s.unread_exit_requests, u64::MAX);
    assert_eq!(s.handle_event(LoopEvent::RedrawEventsCleared), vec![LoopAction::Exit]);
}
