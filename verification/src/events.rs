//! The engine's window events and the plugin that registers them.
use vstd::prelude::*;

verus! {

/// An event that is sent when the window event loop is destroyed.
#[derive(Debug, Clone, Copy, PartialEq, Eq, Structural)]
pub struct ExitSequence;

/// Reader in loop that will end the event loop.
#[derive(Debug, Clone, Copy, PartialEq, Eq, Structural)]
pub struct ExitApp;

/// An event that is sent when a frame has been rendered,
/// inside of the redraw request of the event loop.
#[derive(Debug, Clone, Copy, PartialEq, Eq, Structural)]
pub struct OnRedrawRequested;

/// The event types of the window layer, each naming one event struct
/// (the structs whose fields hold floating-point or windowing-system values
/// live with the window backend).
#[derive(Debug, Clone, Copy, PartialEq, Eq, Structural)]
pub enum EventKind {
    OnWindowResized,
    OnWindowCreated,
    ExitSequence,
    OnWindowCloseRequested,
    OnWindowClosed,
    OnCursorMoved,
    OnCursorEntered,
    OnCursorLeft,
    OnWindowFocused,
    OnFileDragAndDrop,
    OnWindowMoved,
    OnReceivedCharacter,
    OnWindowScaleFactorChanged,
    OnKeyboardInput,
    ExitApp,
    OnRedrawRequested,
    OnMouseMotion,
    OnMouseButton,
    OnMouseWheel,
}

/// The event types that `WindowEventPlugin::setup` registers, in order
/// (the window-resized event is registered twice).
pub open spec fn window_event_kinds() -> Seq<EventKind> {
    seq![
        EventKind::OnWindowResized,
        EventKind::ExitApp,
        EventKind::OnRedrawRequested,
        EventKind::OnWindowCloseRequested,
        EventKind::ExitSequence,
        EventKind::OnWindowResized,
        EventKind::OnWindowScaleFactorChanged,
        EventKind::OnFileDragAndDrop,
        EventKind::OnCursorMoved,
        EventKind::OnCursorEntered,
        EventKind::OnCursorLeft,
        EventKind::OnReceivedCharacter,
        EventKind::OnWindowFocused,
        EventKind::OnKeyboardInput,
        EventKind::OnMouseMotion,
        EventKind::OnMouseWheel,
        EventKind::OnMouseButton,
    ]
}

/// Registers the window events with the application.
pub struct WindowEventPlugin;

impl WindowEventPlugin {
    /// Appends to the application's event registry every window event type
    /// that the event loop sends (see `window_event_kinds`).
    pub fn setup(&self, registry: &mut Vec<EventKind>)
        ensures
            final(registry)@ == old(registry)@ + window_event_kinds(),
    {
        registry.push(EventKind::OnWindowResized);
        registry.push(EventKind::ExitApp);
        registry.push(EventKind::OnRedrawRequested);
        registry.push(EventKind::OnWindowCloseRequested);
        registry.push(EventKind::ExitSequence);
        registry.push(EventKind::OnWindowResized);
        registry.push(EventKind::OnWindowScaleFactorChanged);
        registry.push(EventKind::OnFileDragAndDrop);
        registry.push(EventKind::OnCursorMoved);
        registry.push(EventKind::OnCursorEntered);
        registry.push(EventKind::OnCursorLeft);
        registry.push(EventKind::OnReceivedCharacter);
        registry.push(EventKind::OnWindowFocused);
        registry.push(EventKind::OnKeyboardInput);
        registry.push(EventKind::OnMouseMotion);
        registry.push(EventKind::OnMouseWheel);
        registry.push(EventKind::OnMouseButton);
    }
}

} // verus!
