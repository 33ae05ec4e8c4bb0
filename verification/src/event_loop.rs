//! The decisions of the renderer's main loop.
//!
//! The windowing system delivers events one at a time; for each, the loop
//! decides what the application must do (update, send an engine event,
//! resize the surface, render, exit). The windowing and GPU work itself is
//! done by the caller, which reports back how rendering a frame went.
use vstd::prelude::*;
use crate::events::{EventKind, window_event_kinds};

verus! {

/// A window event, reduced to what the loop decides on.
#[derive(Debug, Clone, Copy, PartialEq, Eq, Structural)]
pub enum WindowInput {
    CloseRequested,
    /// A key changed state; `has_keycode` tells whether the key is known.
    KeyboardInput { has_keycode: bool },
    /// The window's client area now has this physical size.
    Resized { width: u32, height: u32 },
    /// The scale factor changed and the client area now has this size.
    ScaleFactorChanged { width: u32, height: u32 },
    Focused,
    HoveredFile,
    DroppedFile,
    CursorEntered,
    CursorLeft,
    ReceivedCharacter,
    MouseInput,
    MouseWheel,
    /// Any window event that the loop does not act upon.
    Other,
}

/// An event of the windowing system's loop.
#[derive(Debug, Clone, Copy, PartialEq, Eq, Structural)]
pub enum LoopEvent {
    /// A new batch of events begins.
    NewEvents,
    /// The loop is being torn down.
    LoopDestroyed,
    /// All pending events have been handled.
    MainEventsCleared,
    /// An event of a window; `main_window` tells whether it is the engine's window.
    Window { main_window: bool, input: WindowInput },
    /// Raw mouse motion.
    MouseMotion,
    /// A window should be redrawn.
    RedrawRequested { main_window: bool },
    /// All redraws are done: the unread `ExitApp` requests are checked.
    RedrawEventsCleared,
    /// Any other loop event.
    Other,
}

/// How rendering a frame went.
#[derive(Debug, Clone, Copy, PartialEq, Eq, Structural)]
pub enum RenderOutcome {
    /// The frame was rendered and presented.
    Presented,
    /// The surface was lost.
    Lost,
    /// The surface is outdated and must be reconfigured.
    Outdated,
    /// The system is out of memory.
    OutOfMemory,
    /// Acquiring the next frame timed out.
    Timeout,
}

/// What the application must do.
#[derive(Debug, Clone, Copy, PartialEq, Eq, Structural)]
pub enum LoopAction {
    /// Run one update of the application's systems.
    UpdateApp,
    /// Send an engine event of this kind, built from the event at hand.
    Send(EventKind),
    /// Ask the window to be redrawn.
    RequestRedraw,
    /// Reconfigure the surface, the depth texture and the projection for this size.
    ResizeSurface { width: u32, height: u32 },
    /// Leave the loop.
    Exit,
    /// Record the time of the first frame.
    StartFrameClock,
    /// Record the time since the last frame as the delta time.
    UpdateDeltaTime,
    /// Render a frame and report the outcome to `finish_frame`.
    RenderFrame,
    /// Warn that acquiring a frame timed out.
    WarnSurfaceTimeout,
    /// Upload the camera uniform to its buffer.
    UpdateCameraBuffer,
}

/// The state that the loop keeps between events.
#[derive(Debug, Clone, Copy, PartialEq, Eq, Structural)]
pub struct EventLoopState {
    /// No frame has been drawn yet.
    pub first_frame_pending: bool,
    /// Width of the render surface.
    pub surface_width: u32,
    /// Height of the render surface.
    pub surface_height: u32,
    /// `ExitApp` requests sent since the loop last checked for them.
    pub unread_exit_requests: u64,
}

/// The surface is reconfigured only for a size without a zero side; a
/// zero-sized window (a minimised one) keeps the old surface.
pub open spec fn resize_actions(width: u32, height: u32) -> Seq<LoopAction> {
    if width > 0 && height > 0 {
        seq![LoopAction::ResizeSurface { width, height }]
    } else {
        Seq::<LoopAction>::empty()
    }
}

/// The surface size after a request to resize it.
pub open spec fn resized(s: EventLoopState, width: u32, height: u32) -> EventLoopState {
    if width > 0 && height > 0 {
        EventLoopState { surface_width: width, surface_height: height, ..s }
    } else {
        s
    }
}

/// What the loop does for an event of the engine's window.
pub open spec fn window_actions(input: WindowInput) -> Seq<LoopAction> {
    match input {
        WindowInput::CloseRequested => seq![
            LoopAction::Send(EventKind::OnWindowCloseRequested),
            LoopAction::Exit,
        ],
        WindowInput::KeyboardInput { has_keycode } => if has_keycode {
            seq![LoopAction::Send(EventKind::OnKeyboardInput)]
        } else {
            Seq::<LoopAction>::empty()
        },
        WindowInput::Resized { width, height } => resize_actions(width, height) + seq![
            LoopAction::Send(EventKind::OnWindowResized),
        ],
        WindowInput::ScaleFactorChanged { width, height } => resize_actions(width, height) + seq![
            LoopAction::Send(EventKind::OnWindowScaleFactorChanged),
        ],
        WindowInput::Focused => seq![LoopAction::Send(EventKind::OnWindowFocused)],
        WindowInput::HoveredFile => seq![LoopAction::Send(EventKind::OnFileDragAndDrop)],
        WindowInput::DroppedFile => seq![LoopAction::Send(EventKind::OnFileDragAndDrop)],
        WindowInput::CursorEntered => seq![LoopAction::Send(EventKind::OnCursorEntered)],
        WindowInput::CursorLeft => seq![LoopAction::Send(EventKind::OnCursorLeft)],
        WindowInput::ReceivedCharacter => seq![LoopAction::Send(EventKind::OnReceivedCharacter)],
        WindowInput::MouseInput => seq![LoopAction::Send(EventKind::OnMouseButton)],
        WindowInput::MouseWheel => seq![LoopAction::Send(EventKind::OnMouseWheel)],
        WindowInput::Other => Seq::<LoopAction>::empty(),
    }
}

/// The state after an event of the engine's window.
pub open spec fn window_next(s: EventLoopState, input: WindowInput) -> EventLoopState {
    match input {
        WindowInput::Resized { width, height } => resized(s, width, height),
        WindowInput::ScaleFactorChanged { width, height } => resized(s, width, height),
        _ => s,
    }
}

/// What the loop does for an event.
pub open spec fn event_actions(s: EventLoopState, e: LoopEvent) -> Seq<LoopAction> {
    match e {
        LoopEvent::NewEvents => seq![LoopAction::UpdateApp],
        LoopEvent::LoopDestroyed => seq![
            LoopAction::Send(EventKind::ExitSequence),
            LoopAction::UpdateApp,
        ],
        LoopEvent::MainEventsCleared => seq![LoopAction::RequestRedraw],
        LoopEvent::Window { main_window, input } => if main_window {
            window_actions(input)
        } else {
            Seq::<LoopAction>::empty()
        },
        LoopEvent::MouseMotion => seq![LoopAction::Send(EventKind::OnMouseMotion)],
        LoopEvent::RedrawRequested { main_window } => if main_window {
            (if s.first_frame_pending {
                seq![LoopAction::StartFrameClock]
            } else {
                Seq::<LoopAction>::empty()
            }) + seq![LoopAction::UpdateDeltaTime, LoopAction::RenderFrame]
        } else {
            Seq::<LoopAction>::empty()
        },
        LoopEvent::RedrawEventsCleared => if s.unread_exit_requests > 0 {
            seq![LoopAction::Exit]
        } else {
            Seq::<LoopAction>::empty()
        },
        LoopEvent::Other => Seq::<LoopAction>::empty(),
    }
}

/// The state after an event.
pub open spec fn event_next(s: EventLoopState, e: LoopEvent) -> EventLoopState {
    match e {
        LoopEvent::Window { main_window, input } => if main_window {
            window_next(s, input)
        } else {
            s
        },
        LoopEvent::RedrawRequested { main_window } => if main_window {
            EventLoopState { first_frame_pending: false, ..s }
        } else {
            s
        },
        LoopEvent::RedrawEventsCleared => EventLoopState { unread_exit_requests: 0, ..s },
        _ => s,
    }
}

/// What the loop does once a frame has been rendered: a lost or outdated
/// surface is reconfigured at its current size, running out of memory ends
/// the loop, a timeout is only reported; then the frame is announced and the
/// camera buffer updated.
pub open spec fn frame_actions(s: EventLoopState, outcome: RenderOutcome) -> Seq<LoopAction> {
    (match outcome {
        RenderOutcome::Presented => Seq::<LoopAction>::empty(),
        RenderOutcome::Lost => resize_actions(s.surface_width, s.surface_height),
        RenderOutcome::Outdated => resize_actions(s.surface_width, s.surface_height),
        RenderOutcome::OutOfMemory => seq![LoopAction::Exit],
        RenderOutcome::Timeout => seq![LoopAction::WarnSurfaceTimeout],
    }) + seq![LoopAction::Send(EventKind::OnRedrawRequested), LoopAction::UpdateCameraBuffer]
}

fn resize_surface(state: &mut EventLoopState, actions: &mut Vec<LoopAction>, width: u32, height: u32)
    ensures
        *final(state) == resized(*old(state), width, height),
        final(actions)@ == old(actions)@ + resize_actions(width, height),
{
    if width > 0 && height > 0 {
        state.surface_width = width;
        state.surface_height = height;
        actions.push(LoopAction::ResizeSurface { width, height });
    }
}

fn single(action: LoopAction) -> (actions: Vec<LoopAction>)
    ensures
        actions@ == seq![action],
{
    let mut actions: Vec<LoopAction> = Vec::new();
    actions.push(action);
    actions
}

impl EventLoopState {
    /// The state of a loop whose window has a surface of the given size and
    /// has not drawn a frame yet.
    pub fn new(surface_width: u32, surface_height: u32) -> (s: Self)
        ensures
            s.first_frame_pending,
            s.surface_width == surface_width,
            s.surface_height == surface_height,
            s.unread_exit_requests == 0,
    {
        EventLoopState {
            first_frame_pending: true,
            surface_width,
            surface_height,
            unread_exit_requests: 0,
        }
    }

    /// Records that an `ExitApp` request was sent; the loop reads it at the
    /// next `RedrawEventsCleared`. (The count stops at `u64::MAX`, where it
    /// still asks to exit.)
    pub fn send_exit_app(&mut self)
        ensures
            *final(self) == (EventLoopState {
                unread_exit_requests: if old(self).unread_exit_requests < u64::MAX {
                    (old(self).unread_exit_requests + 1) as u64
                } else {
                    old(self).unread_exit_requests
                },
                ..*old(self)
            }),
            final(self).unread_exit_requests > 0,
    {
        if self.unread_exit_requests < u64::MAX {
            self.unread_exit_requests = self.unread_exit_requests + 1;
        }
    }

    fn handle_window_input(&mut self, input: WindowInput) -> (actions: Vec<LoopAction>)
        ensures
            actions@ == window_actions(input),
            *final(self) == window_next(*old(self), input),
    {
        match input {
            WindowInput::CloseRequested => {
                let mut actions = single(LoopAction::Send(EventKind::OnWindowCloseRequested));
                actions.push(LoopAction::Exit);
                actions
            },
            WindowInput::KeyboardInput { has_keycode } => {
                if has_keycode {
                    single(LoopAction::Send(EventKind::OnKeyboardInput))
                } else {
                    Vec::new()
                }
            },
            WindowInput::Resized { width, height } => {
                let mut actions: Vec<LoopAction> = Vec::new();
                resize_surface(self, &mut actions, width, height);
                actions.push(LoopAction::Send(EventKind::OnWindowResized));
                actions
            },
            WindowInput::ScaleFactorChanged { width, height } => {
                let mut actions: Vec<LoopAction> = Vec::new();
                resize_surface(self, &mut actions, width, height);
                actions.push(LoopAction::Send(EventKind::OnWindowScaleFactorChanged));
                actions
            },
            WindowInput::Focused => single(LoopAction::Send(EventKind::OnWindowFocused)),
            WindowInput::HoveredFile => single(LoopAction::Send(EventKind::OnFileDragAndDrop)),
            WindowInput::DroppedFile => single(LoopAction::Send(EventKind::OnFileDragAndDrop)),
            WindowInput::CursorEntered => single(LoopAction::Send(EventKind::OnCursorEntered)),
            WindowInput::CursorLeft => single(LoopAction::Send(EventKind::OnCursorLeft)),
            WindowInput::ReceivedCharacter => single(
                LoopAction::Send(EventKind::OnReceivedCharacter),
            ),
            WindowInput::MouseInput => single(LoopAction::Send(EventKind::OnMouseButton)),
            WindowInput::MouseWheel => single(LoopAction::Send(EventKind::OnMouseWheel)),
            WindowInput::Other => Vec::new(),
        }
    }

    /// Decides what to do for one event of the windowing system's loop.
    pub fn handle_event(&mut self, event: LoopEvent) -> (actions: Vec<LoopAction>)
        ensures
            actions@ == event_actions(*old(self), event),
            *final(self) == event_next(*old(self), event),
    {
        match event {
            LoopEvent::NewEvents => single(LoopAction::UpdateApp),
            LoopEvent::LoopDestroyed => {
                let mut actions = single(LoopAction::Send(EventKind::ExitSequence));
                actions.push(LoopAction::UpdateApp);
                actions
            },
            LoopEvent::MainEventsCleared => single(LoopAction::RequestRedraw),
            LoopEvent::Window { main_window, input } => {
                if main_window {
                    self.handle_window_input(input)
                } else {
                    Vec::new()
                }
            },
            LoopEvent::MouseMotion => single(LoopAction::Send(EventKind::OnMouseMotion)),
            LoopEvent::RedrawRequested { main_window } => {
                if main_window {
                    let mut actions: Vec<LoopAction> = Vec::new();
                    if self.first_frame_pending {
                        actions.push(LoopAction::StartFrameClock);
                        self.first_frame_pending = false;
                    }
                    actions.push(LoopAction::UpdateDeltaTime);
                    actions.push(LoopAction::RenderFrame);
                    actions
                } else {
                    Vec::new()
                }
            },
            LoopEvent::RedrawEventsCleared => {
                let exit = self.unread_exit_requests > 0;
                self.unread_exit_requests = 0;
                if exit {
                    single(LoopAction::Exit)
                } else {
                    Vec::new()
                }
            },
            LoopEvent::Other => Vec::new(),
        }
    }

    /// Decides what to do once a frame asked for by `RenderFrame` has been rendered.
    pub fn finish_frame(&mut self, outcome: RenderOutcome) -> (actions: Vec<LoopAction>)
        ensures
            actions@ == frame_actions(*old(self), outcome),
            *final(self) == *old(self),
    {
        let mut actions: Vec<LoopAction> = Vec::new();
        match outcome {
            RenderOutcome::Presented => {},
            RenderOutcome::Lost | RenderOutcome::Outdated => {
                let (w, h) = (self.surface_width, self.surface_height);
                resize_surface(self, &mut actions, w, h);
            },
            RenderOutcome::OutOfMemory => {
                actions.push(LoopAction::Exit);
            },
            RenderOutcome::Timeout => {
                actions.push(LoopAction::WarnSurfaceTimeout);
            },
        }
        actions.push(LoopAction::Send(EventKind::OnRedrawRequested));
        actions.push(LoopAction::UpdateCameraBuffer);
        actions
    }
}


/// The state and the actions after a whole sequence of loop events.
pub open spec fn run_events(s: EventLoopState, events: Seq<LoopEvent>) -> (EventLoopState, Seq<
    LoopAction,
>)
    decreases events.len(),
{
    if events.len() == 0 {
        (s, Seq::<LoopAction>::empty())
    } else {
        let rest = run_events(event_next(s, events[0]), events.drop_first());
        (rest.0, event_actions(s, events[0]) + rest.1)
    }
}

/// How many times the actions start the frame clock.
pub open spec fn frame_clock_starts(actions: Seq<LoopAction>) -> nat
    decreases actions.len(),
{
    if actions.len() == 0 {
        0
    } else {
        (if actions[0] is StartFrameClock {
            1nat
        } else {
            0nat
        }) + frame_clock_starts(actions.drop_first())
    }
}

/// Some event of the sequence asks to redraw the engine's window.
pub open spec fn has_main_redraw(events: Seq<LoopEvent>) -> bool {
    exists|i: int|
        0 <= i < events.len() && #[trigger] events[i] == (LoopEvent::RedrawRequested {
            main_window: true,
        })
}

proof fn lemma_frame_clock_starts_add(a: Seq<LoopAction>, b: Seq<LoopAction>)
    ensures
        frame_clock_starts(a + b) == frame_clock_starts(a) + frame_clock_starts(b),
    decreases a.len(),
{
    if a.len() > 0 {
        assert((a + b).drop_first() =~= a.drop_first() + b);
        lemma_frame_clock_starts_add(a.drop_first(), b);
    } else {
        assert(a + b =~= b);
    }
}

proof fn lemma_event_frame_clock_starts(s: EventLoopState, e: LoopEvent)
    ensures
        frame_clock_starts(event_actions(s, e)) == (if s.first_frame_pending && e == (
        LoopEvent::RedrawRequested { main_window: true }) {
            1nat
        } else {
            0nat
        }),
        event_next(s, e).first_frame_pending == (s.first_frame_pending && e != (
        LoopEvent::RedrawRequested { main_window: true })),
{
    reveal_with_fuel(frame_clock_starts, 4);
    match e {
        LoopEvent::Window { main_window, input } => {
            if main_window {
                match input {
                    WindowInput::Resized { width, height } => {
                        lemma_frame_clock_starts_add(
                            resize_actions(width, height),
                            seq![LoopAction::Send(EventKind::OnWindowResized)],
                        );
                    },
                    WindowInput::ScaleFactorChanged { width, height } => {
                        lemma_frame_clock_starts_add(
                            resize_actions(width, height),
                            seq![LoopAction::Send(EventKind::OnWindowScaleFactorChanged)],
                        );
                    },
                    _ => {},
                }
            }
        },
        LoopEvent::RedrawRequested { main_window } => {
            if main_window {
                let head = if s.first_frame_pending {
                    seq![LoopAction::StartFrameClock]
                } else {
                    Seq::<LoopAction>::empty()
                };
                lemma_frame_clock_starts_add(
                    head,
                    seq![LoopAction::UpdateDeltaTime, LoopAction::RenderFrame],
                );
            }
        },
        _ => {},
    }
}

/// Over any run of the loop, the time of the first frame is recorded once:
/// at the first redraw of the engine's window, and never again; a loop that
/// never redraws its window never records it.
pub proof fn lemma_frame_clock_starts_once(s: EventLoopState, events: Seq<LoopEvent>)
    ensures
        frame_clock_starts(run_events(s, events).1) == (if s.first_frame_pending
            && has_main_redraw(events) {
            1nat
        } else {
            0nat
        }),
        run_events(s, events).0.first_frame_pending == (s.first_frame_pending
            && !has_main_redraw(events)),
    decreases events.len(),
{
    let redraw = LoopEvent::RedrawRequested { main_window: true };
    if events.len() > 0 {
        let e = events[0];
        let rest = events.drop_first();
        let s1 = event_next(s, e);
        lemma_event_frame_clock_starts(s, e);
        lemma_frame_clock_starts_once(s1, rest);
        lemma_frame_clock_starts_add(event_actions(s, e), run_events(s1, rest).1);
        if has_main_redraw(events) && e != redraw {
            let i = choose|i: int| 0 <= i < events.len() && #[trigger] events[i] == redraw;
            assert(rest[i - 1] == redraw);
        }
        if has_main_redraw(rest) {
            let i = choose|i: int| 0 <= i < rest.len() && #[trigger] rest[i] == redraw;
            assert(events[i + 1] == redraw);
        }
        if e == redraw {
            assert(events[0] == redraw);
        }
    } else {
        reveal_with_fuel(frame_clock_starts, 1);
    }
}

/// Every engine event that the loop sends is one that `WindowEventPlugin`
/// registers.
pub proof fn lemma_sent_events_are_registered(s: EventLoopState, e: LoopEvent, outcome: RenderOutcome)
    ensures
        forall|k: EventKind|
            #[trigger] event_actions(s, e).contains(LoopAction::Send(k))
                ==> window_event_kinds().contains(k),
        forall|k: EventKind|
            #[trigger] frame_actions(s, outcome).contains(LoopAction::Send(k))
                ==> window_event_kinds().contains(k),
{
    let kinds = window_event_kinds();
    assert(kinds[0] == EventKind::OnWindowResized);
    assert(kinds[2] == EventKind::OnRedrawRequested);
    assert(kinds[3] == EventKind::OnWindowCloseRequested);
    assert(kinds[4] == EventKind::ExitSequence);
    assert(kinds[6] == EventKind::OnWindowScaleFactorChanged);
    assert(kinds[7] == EventKind::OnFileDragAndDrop);
    assert(kinds[9] == EventKind::OnCursorEntered);
    assert(kinds[10] == EventKind::OnCursorLeft);
    assert(kinds[11] == EventKind::OnReceivedCharacter);
    assert(kinds[12] == EventKind::OnWindowFocused);
    assert(kinds[13] == EventKind::OnKeyboardInput);
    assert(kinds[14] == EventKind::OnMouseMotion);
    assert(kinds[15] == EventKind::OnMouseWheel);
    assert(kinds[16] == EventKind::OnMouseButton);
    assert forall|k: EventKind| #[trigger]
        event_actions(s, e).contains(LoopAction::Send(k)) implies kinds.contains(k) by {
        let a = event_actions(s, e);
        let i = choose|i: int| 0 <= i < a.len() && a[i] == LoopAction::Send(k);
        match e {
            LoopEvent::Window { main_window, input } => {
                match input {
                    WindowInput::Resized { width, height } => {
                        if width > 0 && height > 0 {
                            assert(i == 1);
                        } else {
                            assert(i == 0);
                        }
                    },
                    WindowInput::ScaleFactorChanged { width, height } => {
                        if width > 0 && height > 0 {
                            assert(i == 1);
                        } else {
                            assert(i == 0);
                        }
                    },
                    _ => {},
                }
            },
            LoopEvent::RedrawRequested { main_window } => {
                assert(a[i] is StartFrameClock || a[i] is UpdateDeltaTime || a[i] is RenderFrame);
            },
            _ => {},
        }
    }
    assert forall|k: EventKind| #[trigger]
        frame_actions(s, outcome).contains(LoopAction::Send(k)) implies kinds.contains(k) by {
        let a = frame_actions(s, outcome);
        let i = choose|i: int| 0 <= i < a.len() && a[i] == LoopAction::Send(k);
        assert(a[a.len() - 2] == LoopAction::Send(EventKind::OnRedrawRequested));
        assert(a[a.len() - 1] == LoopAction::UpdateCameraBuffer);
        assert(i == a.len() - 2);
    }
}

/// The render surface never gets a zero side: every resize the loop asks for
/// has two positive sides, and a surface that starts with positive sides
/// keeps them through any event or frame.
pub proof fn lemma_surface_never_zero(s: EventLoopState, e: LoopEvent, outcome: RenderOutcome)
    ensures
        forall|w: u32, h: u32|
            #[trigger] event_actions(s, e).contains(LoopAction::ResizeSurface { width: w, height: h })
                ==> w > 0 && h > 0,
        forall|w: u32, h: u32|
            #[trigger] frame_actions(s, outcome).contains(
                LoopAction::ResizeSurface { width: w, height: h },
            ) ==> w > 0 && h > 0,
        s.surface_width > 0 && s.surface_height > 0 ==> event_next(s, e).surface_width > 0
            && event_next(s, e).surface_height > 0,
{
    assert forall|w: u32, h: u32| #[trigger]
        event_actions(s, e).contains(
            LoopAction::ResizeSurface { width: w, height: h },
        ) implies w > 0 && h > 0 by {
        let a = event_actions(s, e);
        let i = choose|i: int|
            0 <= i < a.len() && a[i] == LoopAction::ResizeSurface { width: w, height: h };
        match e {
            LoopEvent::RedrawRequested { main_window } => {
                assert(a[i] is StartFrameClock || a[i] is UpdateDeltaTime || a[i] is RenderFrame);
            },
            _ => {},
        }
    }
    assert forall|w: u32, h: u32| #[trigger]
        frame_actions(s, outcome).contains(
            LoopAction::ResizeSurface { width: w, height: h },
        ) implies w > 0 && h > 0 by {
        let a = frame_actions(s, outcome);
        let i = choose|i: int|
            0 <= i < a.len() && a[i] == LoopAction::ResizeSurface { width: w, height: h };
        assert(a[a.len() - 2] == LoopAction::Send(EventKind::OnRedrawRequested));
        assert(a[a.len() - 1] == LoopAction::UpdateCameraBuffer);
    }
}

/// The loop is left exactly when the engine's window is asked to close, when
/// an `ExitApp` request is unread as the redraws are done, or when rendering
/// runs out of memory.
pub proof fn lemma_exit_conditions(s: EventLoopState, e: LoopEvent, outcome: RenderOutcome)
    ensures
        event_actions(s, e).contains(LoopAction::Exit) <==> (e == (LoopEvent::Window {
            main_window: true,
            input: WindowInput::CloseRequested,
        }) || (e == LoopEvent::RedrawEventsCleared && s.unread_exit_requests > 0)),
        frame_actions(s, outcome).contains(LoopAction::Exit) <==> outcome
            == RenderOutcome::OutOfMemory,
{
    let a = event_actions(s, e);
    if a.contains(LoopAction::Exit) {
        let i = choose|i: int| 0 <= i < a.len() && a[i] == LoopAction::Exit;
        match e {
            LoopEvent::RedrawRequested { main_window } => {
                assert(a[i] is StartFrameClock || a[i] is UpdateDeltaTime || a[i] is RenderFrame);
            },
            LoopEvent::Window { main_window, input } => {
                match input {
                    WindowInput::Resized { width, height } => {
                        if width > 0 && height > 0 {
                            assert(i == 0 || i == 1);
                        }
                    },
                    WindowInput::ScaleFactorChanged { width, height } => {
                        if width > 0 && height > 0 {
                            assert(i == 0 || i == 1);
                        }
                    },
                    _ => {},
                }
            },
            _ => {},
        }
    }
    if e == (LoopEvent::Window { main_window: true, input: WindowInput::CloseRequested }) {
        assert(a[1] == LoopAction::Exit);
    }
    if e == LoopEvent::RedrawEventsCleared && s.unread_exit_requests > 0 {
        assert(a[0] == LoopAction::Exit);
    }
    let f = frame_actions(s, outcome);
    if f.contains(LoopAction::Exit) {
        let i = choose|i: int| 0 <= i < f.len() && f[i] == LoopAction::Exit;
        assert(f[f.len() - 2] == LoopAction::Send(EventKind::OnRedrawRequested));
        assert(f[f.len() - 1] == LoopAction::UpdateCameraBuffer);
    }
    if outcome == RenderOutcome::OutOfMemory {
        assert(f[0] == LoopAction::Exit);
    }
}

/// Events of other windows change nothing and ask for nothing.
pub proof fn lemma_other_windows_ignored(s: EventLoopState, input: WindowInput)
    ensures
        event_actions(s, LoopEvent::Window { main_window: false, input }) =~= Seq::<
            LoopAction,
        >::empty(),
        event_next(s, LoopEvent::Window { main_window: false, input }) == s,
        event_actions(s, LoopEvent::RedrawRequested { main_window: false }) =~= Seq::<
            LoopAction,
        >::empty(),
        event_next(s, LoopEvent::RedrawRequested { main_window: false }) == s,
{
}

/// Checking for exit requests reads them all: after `RedrawEventsCleared`
/// none is left unread, so a request asks to exit once; and no other event
/// reads or drops a request.
pub proof fn lemma_exit_requests_read_once(s: EventLoopState, e: LoopEvent)
    ensures
        event_next(s, LoopEvent::RedrawEventsCleared).unread_exit_requests == 0,
        event_actions(
            event_next(s, LoopEvent::RedrawEventsCleared),
            LoopEvent::RedrawEventsCleared,
        ) =~= Seq::<LoopAction>::empty(),
        e != LoopEvent::RedrawEventsCleared ==> event_next(s, e).unread_exit_requests
            == s.unread_exit_requests,
{
}

/// The loop's record of the surface size is the size it last asked the
/// surface to be: after an event or a frame that asks to resize the surface
/// to `w` x `h`, the recorded size is `w` x `h`; an event or frame that asks
/// for no resize leaves the recorded size as it was.
pub proof fn lemma_surface_size_follows_resizes(
    s: EventLoopState,
    e: LoopEvent,
    outcome: RenderOutcome,
)
    ensures
        forall|w: u32, h: u32|
            #[trigger] event_actions(s, e).contains(LoopAction::ResizeSurface { width: w, height: h })
                ==> event_next(s, e).surface_width == w && event_next(s, e).surface_height == h,
        (forall|w: u32, h: u32|
            !(#[trigger] event_actions(s, e).contains(
                LoopAction::ResizeSurface { width: w, height: h },
            ))) ==> event_next(s, e).surface_width == s.surface_width && event_next(
            s,
            e,
        ).surface_height == s.surface_height,
        forall|w: u32, h: u32|
            #[trigger] frame_actions(s, outcome).contains(
                LoopAction::ResizeSurface { width: w, height: h },
            ) ==> w == s.surface_width && h == s.surface_height,
{
    assert forall|w: u32, h: u32| #[trigger]
        event_actions(s, e).contains(
            LoopAction::ResizeSurface { width: w, height: h },
        ) implies event_next(s, e).surface_width == w && event_next(s, e).surface_height == h by {
        let a = event_actions(s, e);
        let i = choose|i: int|
            0 <= i < a.len() && a[i] == LoopAction::ResizeSurface { width: w, height: h };
        match e {
            LoopEvent::RedrawRequested { main_window } => {
                assert(a[i] is StartFrameClock || a[i] is UpdateDeltaTime || a[i] is RenderFrame);
            },
            LoopEvent::Window { main_window, input } => {
                match input {
                    WindowInput::Resized { width, height } => {
                        if !(width > 0 && height > 0) {
                            assert(a[i] == LoopAction::Send(EventKind::OnWindowResized));
                        }
                    },
                    WindowInput::ScaleFactorChanged { width, height } => {
                        if !(width > 0 && height > 0) {
                            assert(a[i] == LoopAction::Send(EventKind::OnWindowScaleFactorChanged));
                        }
                    },
                    _ => {},
                }
            },
            _ => {},
        }
    }
    if forall|w: u32, h: u32|
        !(#[trigger] event_actions(s, e).contains(
            LoopAction::ResizeSurface { width: w, height: h },
        )) {
        match e {
            LoopEvent::Window { main_window, input } => {
                if main_window {
                    match input {
                        WindowInput::Resized { width, height } => {
                            if width > 0 && height > 0 {
                                let a = event_actions(s, e);
                                assert(a[0] == LoopAction::ResizeSurface { width, height });
                                assert(a.contains(LoopAction::ResizeSurface { width, height }));
                            }
                        },
                        WindowInput::ScaleFactorChanged { width, height } => {
                            if width > 0 && height > 0 {
                                let a = event_actions(s, e);
                                assert(a[0] == LoopAction::ResizeSurface { width, height });
                                assert(a.contains(LoopAction::ResizeSurface { width, height }));
                            }
                        },
                        _ => {},
                    }
                }
            },
            _ => {},
        }
    }
    assert forall|w: u32, h: u32| #[trigger]
        frame_actions(s, outcome).contains(
            LoopAction::ResizeSurface { width: w, height: h },
        ) implies w == s.surface_width && h == s.surface_height by {
        let a = frame_actions(s, outcome);
        let i = choose|i: int|
            0 <= i < a.len() && a[i] == LoopAction::ResizeSurface { width: w, height: h };
        assert(a[a.len() - 2] == LoopAction::Send(EventKind::OnRedrawRequested));
        assert(a[a.len() - 1] == LoopAction::UpdateCameraBuffer);
    }
}

} // verus!
