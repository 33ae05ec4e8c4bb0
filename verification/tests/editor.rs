use nightmare_engine::editor::{
    mouse_motion, on_keyboard_pressed, on_mouse_button, BasicWindow, CursorAction, EditorCommand,
    EditorUIState, MouseButton, MouseValues, MoveAmounts, NodeHandle, OnKeyboardInput,
    OnMouseButton, UiMessage,
};
use nightmare_engine::input::Key;

fn no_amounts() -> MoveAmounts {
    MoveAmounts {
        amount_forward: false,
        amount_backward: false,
        amount_left: false,
        amount_right: false,
        amount_up: false,
        amount_down: false,
    }
}

#[test]
fn keyboard_sets_amounts_and_escape_exits() {
    let mut a = no_amounts();
    let events = vec![OnKeyboardInput::new(Key::W, true), OnKeyboardInput::new(Key::Escape, true)];
    assert_eq!(on_keyboard_pressed(&mut a, &events), vec![EditorCommand::Exit]);
    assert!(a.amount_forward);
}

#[test]
fn keyboard_release_does_not_drop_older_events() {
    let mut a = no_amounts();
    a.amount_forward = true;
    // oldest first: Escape pressed, then W released
    let events = vec![OnKeyboardInput::new(Key::Escape, true), OnKeyboardInput::new(Key::W, false)];
    assert_eq!(on_keyboard_pressed(&mut a, &events), vec![EditorCommand::Exit]);
    assert!(!a.amount_forward);
}

#[test]
fn keyboard_handles_every_event_newest_first() {
    let mut a = no_amounts();
    a.amount_forward = true;
    // newest first: Z is reported, the W release clears forward, the older
    // A press sets left; a released Z gives no command
    let events = vec![
        OnKeyboardInput::new(Key::Z, false),
        OnKeyboardInput::new(Key::A, true),
        OnKeyboardInput::new(Key::W, false),
        OnKeyboardInput::new(Key::Z, true),
    ];
    assert_eq!(on_keyboard_pressed(&mut a, &events), vec![EditorCommand::ReportZ]);
    assert!(!a.amount_forward);
    assert!(a.amount_left);
}

#[test]
fn keyboard_oldest_event_of_a_key_decides_its_amount() {
    let mut a = no_amounts();
    let events = vec![OnKeyboardInput::new(Key::D, true), OnKeyboardInput::new(Key::Right, false)];
    assert!(on_keyboard_pressed(&mut a, &events).is_empty());
    assert!(a.amount_right);
}

#[test]
fn keyboard_batches_split() {
    let older = vec![OnKeyboardInput::new(Key::Escape, true), OnKeyboardInput::new(Key::S, true)];
    let newer = vec![OnKeyboardInput::new(Key::S, false), OnKeyboardInput::new(Key::Z, true)];
    let mut whole = no_amounts();
    let mut all = older.clone();
    all.extend(newer.iter().copied());
    let commands = on_keyboard_pressed(&mut whole, &all);
    let mut parts = no_amounts();
    let mut split = on_keyboard_pressed(&mut parts, &newer);
    split.extend(on_keyboard_pressed(&mut parts, &older));
    assert_eq!(commands, split);
    assert_eq!(commands, vec![EditorCommand::ReportZ, EditorCommand::Exit]);
    assert_eq!(whole, parts);
    assert!(whole.amount_backward);
}

#[test]
fn keyboard_bindings_of_the_editor() {
    let mut a = no_amounts();
    let events = vec![
        OnKeyboardInput::new(Key::Up, true),
        OnKeyboardInput::new(Key::S, true),
        OnKeyboardInput::new(Key::Left, true),
        OnKeyboardInput::new(Key::Right, true),
        OnKeyboardInput::new(Key::E, true),
        OnKeyboardInput::new(Key::Q, true),
        OnKeyboardInput::new(Key::Space, true),
    ];
    assert!(on_keyboard_pressed(&mut a, &events).is_empty());
    assert!(a.amount_forward && a.amount_backward && a.amount_left);
    assert!(a.amount_right && a.amount_up && a.amount_down);
}

#[test]
fn keyboard_no_events() {
    let mut a = no_amounts();
    assert!(on_keyboard_pressed(&mut a, &vec![]).is_empty());
    assert_eq!(a, no_amounts());
}

#[test]
fn mouse_buttons_oldest_event_decides_right_button() {
    let mut v = MouseValues { is_right_mouse_pressed: false };
    let events = vec![
        OnMouseButton { pressed: true, button: MouseButton::Right },
        OnMouseButton { pressed: true, button: MouseButton::Left },
        OnMouseButton { pressed: false, button: MouseButton::Left },
        OnMouseButton { pressed: true, button: MouseButton::Left },
    ];
    assert_eq!(on_mouse_button(&mut v, &events), 2);
    assert!(v.is_right_mouse_pressed);

    let events = vec![
        OnMouseButton { pressed: true, button: MouseButton::Middle },
        OnMouseButton { pressed: true, button: MouseButton::Right },
    ];
    assert_eq!(on_mouse_button(&mut v, &events), 0);
    assert!(!v.is_right_mouse_pressed);

    assert_eq!(on_mouse_button(&mut v, &vec![]), 0);
    assert!(!v.is_right_mouse_pressed);
}

#[test]
fn cursor_follows_right_button() {
    let held = MouseValues { is_right_mouse_pressed: true };
    assert_eq!(mouse_motion(&held, 801, 600), CursorAction::HideAndCenter { x: 400, y: 300 });
    let free = MouseValues { is_right_mouse_pressed: false };
    assert_eq!(mouse_motion(&free, 801, 600), CursorAction::Show);
}

#[test]
fn basic_window_reports_clicks_of_its_button() {
    let window = NodeHandle { index: 1, generation: 1 };
    let button = NodeHandle { index: 2, generation: 1 };
    let mut w = BasicWindow::new(window, button);
    assert!(w.handle_ui_message(&UiMessage { is_button_click: true, destination: button }));
    assert!(!w.handle_ui_message(&UiMessage { is_button_click: false, destination: button }));
    assert!(!w.handle_ui_message(&UiMessage { is_button_click: true, destination: window }));
    let stale = NodeHandle { index: 2, generation: 0 };
    assert!(!w.handle_ui_message(&UiMessage { is_button_click: true, destination: stale }));
    assert_eq!(w.window, window);
}

#[test]
fn editor_ui_starts_with_diagnostics_shown() {
    let s = EditorUIState::new();
    assert_eq!(s.widget_diagnostic, ("Diagnostics Window".to_string(), true));
    assert_eq!(s.widget_file_explorer, ("File Explorer".to_string(), false));
}
