//! The editor's input handling and user-interface state.
use vstd::prelude::*;
use crate::input::Key;

verus! {

/// A keyboard event of the engine: a key and whether it went down.
#[derive(Debug, Clone, Copy, PartialEq, Eq, Structural)]
pub struct OnKeyboardInput {
    pub key: Key,
    pub pressed: bool,
}

impl OnKeyboardInput {
    pub fn new(key: Key, pressed: bool) -> (e: Self)
        ensures
            e.key == key,
            e.pressed == pressed,
    {
        OnKeyboardInput { key, pressed }
    }
}

/// Which of the free-fly camera's movement amounts are at full strength (a
/// held key gives an amount of one, a released key an amount of zero).
#[derive(Debug, Clone, Copy, PartialEq, Eq, Structural)]
pub struct MoveAmounts {
    pub amount_forward: bool,
    pub amount_backward: bool,
    pub amount_left: bool,
    pub amount_right: bool,
    pub amount_up: bool,
    pub amount_down: bool,
}

/// What the editor does for a key press besides moving the camera.
#[derive(Debug, Clone, Copy, PartialEq, Eq, Structural)]
pub enum EditorCommand {
    /// Report that Z was pressed.
    ReportZ,
    /// Report Escape and send `ExitApp`.
    Exit,
}

/// The amounts after a keyboard event: W/Up drive forward, S/Down backward,
/// A/Left left, D/Right right, E up and Q down.
pub open spec fn amounts_after(a: MoveAmounts, e: OnKeyboardInput) -> MoveAmounts {
    match e.key {
        Key::W | Key::Up => MoveAmounts { amount_forward: e.pressed, ..a },
        Key::S | Key::Down => MoveAmounts { amount_backward: e.pressed, ..a },
        Key::A | Key::Left => MoveAmounts { amount_left: e.pressed, ..a },
        Key::D | Key::Right => MoveAmounts { amount_right: e.pressed, ..a },
        Key::E => MoveAmounts { amount_up: e.pressed, ..a },
        Key::Q => MoveAmounts { amount_down: e.pressed, ..a },
        _ => a,
    }
}

/// The command of a pressed key.
pub open spec fn key_command(key: Key) -> Seq<EditorCommand> {
    match key {
        Key::Z => seq![EditorCommand::ReportZ],
        Key::Escape => seq![EditorCommand::Exit],
        _ => Seq::<EditorCommand>::empty(),
    }
}

/// The commands of an event: those of its key when it is a press, none for
/// a release.
pub open spec fn event_commands(e: OnKeyboardInput) -> Seq<EditorCommand> {
    if e.pressed {
        key_command(e.key)
    } else {
        Seq::<EditorCommand>::empty()
    }
}

/// The keyboard events of a frame are handled newest first, every one of
/// them: each sets its movement amount, and a press also gives the command of
/// its key.
pub open spec fn keyboard_run(a: MoveAmounts, events: Seq<OnKeyboardInput>) -> (MoveAmounts, Seq<
    EditorCommand,
>)
    decreases events.len(),
{
    if events.len() == 0 {
        (a, Seq::<EditorCommand>::empty())
    } else {
        let e = events.last();
        let rest = keyboard_run(amounts_after(a, e), events.drop_last());
        (rest.0, event_commands(e) + rest.1)
    }
}

fn apply_key(amounts: &mut MoveAmounts, e: OnKeyboardInput)
    ensures
        *final(amounts) == amounts_after(*old(amounts), e),
{
    match e.key {
        Key::W | Key::Up => amounts.amount_forward = e.pressed,
        Key::S | Key::Down => amounts.amount_backward = e.pressed,
        Key::A | Key::Left => amounts.amount_left = e.pressed,
        Key::D | Key::Right => amounts.amount_right = e.pressed,
        Key::E => amounts.amount_up = e.pressed,
        Key::Q => amounts.amount_down = e.pressed,
        _ => {},
    }
}

/// Handles all the keyboard events of a frame, in the order of
/// `keyboard_run`, and returns the commands of the pressed keys, newest first.
pub fn on_keyboard_pressed(amounts: &mut MoveAmounts, events: &Vec<OnKeyboardInput>) -> (commands:
    Vec<EditorCommand>)
    ensures
        (*final(amounts), commands@) == keyboard_run(*old(amounts), events@),
{
    let mut commands: Vec<EditorCommand> = Vec::new();
    let mut i: usize = events.len();
    assert(events@.take(i as int) =~= events@);
    while i > 0
        invariant
            i <= events.len(),
            keyboard_run(*old(amounts), events@) == (keyboard_run(
                *amounts,
                events@.take(i as int),
            ).0, commands@ + keyboard_run(*amounts, events@.take(i as int)).1),
        decreases i,
    {
        let e = events[i - 1];
        let ghost before = *amounts;
        let ghost prefix = events@.take(i as int);
        assert(prefix.last() == e);
        assert(prefix.drop_last() =~= events@.take(i - 1));
        apply_key(amounts, e);
        let ghost old_commands = commands@;
        if e.pressed {
            match e.key {
                Key::Z => commands.push(EditorCommand::ReportZ),
                Key::Escape => commands.push(EditorCommand::Exit),
                _ => {},
            }
        }
        assert(commands@ =~= old_commands + event_commands(e));
        assert(old_commands + (event_commands(e) + keyboard_run(*amounts, events@.take(i - 1)).1)
            =~= commands@ + keyboard_run(*amounts, events@.take(i - 1)).1);
        i -= 1;
    }
    assert(commands@ + Seq::<EditorCommand>::empty() =~= commands@);
    commands
}

/// Handling a frame's events is handling the newer ones and then, from the
/// amounts they leave, the older ones: no event, a release included, keeps
/// the events older than it from being handled.
pub proof fn lemma_keyboard_run_split(
    a: MoveAmounts,
    older: Seq<OnKeyboardInput>,
    newer: Seq<OnKeyboardInput>,
)
    ensures
        keyboard_run(a, older + newer).0 == keyboard_run(keyboard_run(a, newer).0, older).0,
        keyboard_run(a, older + newer).1 == keyboard_run(a, newer).1 + keyboard_run(
            keyboard_run(a, newer).0,
            older,
        ).1,
    decreases newer.len(),
{
    if newer.len() == 0 {
        assert(older + newer =~= older);
        assert(Seq::<EditorCommand>::empty() + keyboard_run(a, older).1 =~= keyboard_run(
            a,
            older,
        ).1);
    } else {
        let e = newer.last();
        let a1 = amounts_after(a, e);
        assert((older + newer).last() == e);
        assert((older + newer).drop_last() =~= older + newer.drop_last());
        lemma_keyboard_run_split(a1, older, newer.drop_last());
        let mid = keyboard_run(a1, newer.drop_last());
        assert(event_commands(e) + (mid.1 + keyboard_run(mid.0, older).1) =~= (event_commands(e)
            + mid.1) + keyboard_run(mid.0, older).1);
    }
}

/// A press of Escape.
pub open spec fn escape_press() -> OnKeyboardInput {
    OnKeyboardInput { key: Key::Escape, pressed: true }
}

/// The frame's commands ask to exit exactly when one of its events is a press
/// of Escape, whatever other presses and releases come with it.
pub proof fn lemma_escape_press_exits(a: MoveAmounts, events: Seq<OnKeyboardInput>)
    ensures
        keyboard_run(a, events).1.contains(EditorCommand::Exit) <==> (exists|i: int|
            0 <= i < events.len() && #[trigger] events[i] == escape_press()),
    decreases events.len(),
{
    let escape = escape_press();
    if events.len() > 0 {
        let e = events.last();
        let rest = events.drop_last();
        let a1 = amounts_after(a, e);
        lemma_escape_press_exits(a1, rest);
        let cmds = keyboard_run(a, events).1;
        let head = event_commands(e);
        let tail = keyboard_run(a1, rest).1;
        assert(cmds == head + tail);
        if cmds.contains(EditorCommand::Exit) {
            let k = choose|k: int| 0 <= k < cmds.len() && cmds[k] == EditorCommand::Exit;
            if k < head.len() {
                assert(e == escape);
                assert(events[events.len() - 1] == escape);
            } else {
                assert(tail[k - head.len()] == EditorCommand::Exit);
                assert(tail.contains(EditorCommand::Exit));
                let i = choose|i: int| 0 <= i < rest.len() && #[trigger] rest[i] == escape;
                assert(events[i] == escape);
            }
        }
        if exists|i: int| 0 <= i < events.len() && #[trigger] events[i] == escape {
            let i = choose|i: int| 0 <= i < events.len() && #[trigger] events[i] == escape;
            if i == events.len() - 1 {
                assert(head == seq![EditorCommand::Exit]);
                assert(cmds[0] == EditorCommand::Exit);
            } else {
                assert(rest[i] == escape);
                let k = choose|k: int| 0 <= k < tail.len() && tail[k] == EditorCommand::Exit;
                assert(cmds[head.len() + k] == EditorCommand::Exit);
            }
        }
    }
}

/// The editor's key bindings: a frame of one event sets exactly the amount
/// that the key drives to whether the key went down, and leaves the others:
/// W and Up drive forward, S and Down backward, A and Left left, D and Right
/// right, E up and Q down; Z, Escape and the other keys drive none.
pub proof fn lemma_keyboard_bindings(a: MoveAmounts, key: Key, pressed: bool)
    ensures
        ({
            let r = keyboard_run(a, seq![OnKeyboardInput { key, pressed }]).0;
            &&& (key == Key::W || key == Key::Up) ==> r == (MoveAmounts {
                amount_forward: pressed,
                ..a
            })
            &&& (key == Key::S || key == Key::Down) ==> r == (MoveAmounts {
                amount_backward: pressed,
                ..a
            })
            &&& (key == Key::A || key == Key::Left) ==> r == (MoveAmounts {
                amount_left: pressed,
                ..a
            })
            &&& (key == Key::D || key == Key::Right) ==> r == (MoveAmounts {
                amount_right: pressed,
                ..a
            })
            &&& key == Key::E ==> r == (MoveAmounts { amount_up: pressed, ..a })
            &&& key == Key::Q ==> r == (MoveAmounts { amount_down: pressed, ..a })
            &&& (key == Key::Z || key == Key::Escape || key == Key::Space || key == Key::LShift
                || key == Key::Other) ==> r == a
        }),
{
    let e = OnKeyboardInput { key, pressed };
    let evs = seq![e];
    assert(evs.last() == e);
    assert(evs.drop_last() =~= Seq::<OnKeyboardInput>::empty());
    assert(keyboard_run(amounts_after(a, e), evs.drop_last()) == (
    amounts_after(a, e),
    Seq::<EditorCommand>::empty(),
    ));
    assert(event_commands(e) + Seq::<EditorCommand>::empty() =~= event_commands(e));
    assert(keyboard_run(a, evs) == (amounts_after(a, e), event_commands(e)));
}

/// A frame of one event reports Z for a press of Z, asks to exit for a press
/// of Escape, and reports nothing for a release or for any other key.
pub proof fn lemma_keyboard_commands(a: MoveAmounts, key: Key, pressed: bool)
    ensures
        ({
            let c = keyboard_run(a, seq![OnKeyboardInput { key, pressed }]).1;
            &&& (pressed && key == Key::Z) ==> c == seq![EditorCommand::ReportZ]
            &&& (pressed && key == Key::Escape) ==> c == seq![EditorCommand::Exit]
            &&& !(pressed && (key == Key::Z || key == Key::Escape)) ==> c.len() == 0
        }),
{
    let e = OnKeyboardInput { key, pressed };
    let evs = seq![e];
    assert(evs.last() == e);
    assert(evs.drop_last() =~= Seq::<OnKeyboardInput>::empty());
    assert(keyboard_run(amounts_after(a, e), evs.drop_last()) == (
    amounts_after(a, e),
    Seq::<EditorCommand>::empty(),
    ));
    assert(event_commands(e) + Seq::<EditorCommand>::empty() =~= event_commands(e));
    assert(keyboard_run(a, evs) == (amounts_after(a, e), event_commands(e)));
}

/// A mouse button.
#[derive(Debug, Clone, Copy, PartialEq, Eq, Structural)]
pub enum MouseButton {
    Left,
    Right,
    Middle,
    Other,
}

/// A mouse button event: which button, and whether it went down.
#[derive(Debug, Clone, Copy, PartialEq, Eq, Structural)]
pub struct OnMouseButton {
    pub pressed: bool,
    pub button: MouseButton,
}

/// The editor's memory of the mouse.
#[derive(Debug, Clone, Copy, PartialEq, Eq, Structural)]
pub struct MouseValues {
    pub is_right_mouse_pressed: bool,
}

/// The event is a press of the right button.
pub open spec fn is_right_press(e: OnMouseButton) -> bool {
    e.button == MouseButton::Right && e.pressed
}

/// The event is a press of the left button.
pub open spec fn is_left_press(e: OnMouseButton) -> bool {
    e.button == MouseButton::Left && e.pressed
}

/// How many of the events press the left button.
pub open spec fn left_presses(events: Seq<OnMouseButton>) -> nat
    decreases events.len(),
{
    if events.len() == 0 {
        0
    } else {
        left_presses(events.drop_last()) + if is_left_press(events.last()) {
            1nat
        } else {
            0nat
        }
    }
}

proof fn lemma_left_presses_bound(events: Seq<OnMouseButton>)
    ensures
        left_presses(events) <= events.len(),
    decreases events.len(),
{
    if events.len() > 0 {
        lemma_left_presses_bound(events.drop_last());
    }
}

/// Handles the mouse button events of a frame, newest first. Every event
/// sets whether the right button is held, so the oldest event of the frame
/// decides it; every press of the left button asks for a batch of meshes to
/// be spawned. Returns the number of batches.
pub fn on_mouse_button(mouse_values: &mut MouseValues, events: &Vec<OnMouseButton>) -> (spawns: usize)
    ensures
        final(mouse_values).is_right_mouse_pressed == if events.len() == 0 {
            old(mouse_values).is_right_mouse_pressed
        } else {
            is_right_press(events@[0])
        },
        events.len() > 0 ==> (final(mouse_values).is_right_mouse_pressed <==> (events@[0].button
            == MouseButton::Right && events@[0].pressed)),
        spawns == left_presses(events@),
{
    let mut spawns: usize = 0;
    let mut i: usize = events.len();
    assert(events@.take(i as int) =~= events@);
    proof {
        lemma_left_presses_bound(events@);
    }
    while i > 0
        invariant
            i <= events.len(),
            spawns + left_presses(events@.take(i as int)) == left_presses(events@),
            left_presses(events@) <= events.len(),
            i < events.len() ==> mouse_values.is_right_mouse_pressed == is_right_press(events@[i as int]),
            i == events.len() ==> mouse_values.is_right_mouse_pressed == old(mouse_values).is_right_mouse_pressed,
        decreases i,
    {
        let e = events[i - 1];
        let ghost prefix = events@.take(i as int);
        assert(prefix.last() == e);
        assert(prefix.drop_last() =~= events@.take(i - 1));
        mouse_values.is_right_mouse_pressed = e.button == MouseButton::Right && e.pressed;
        if e.button == MouseButton::Left && e.pressed {
            spawns += 1;
        }
        i -= 1;
    }
    assert(events@.take(0) =~= Seq::<OnMouseButton>::empty());
    spawns
}

/// Only a press of the right button is recorded as the right button held:
/// a release, or any event of another button, records it as not held.
pub proof fn lemma_right_button_held(e: OnMouseButton)
    ensures
        is_right_press(e) ==> e.pressed && e.button == MouseButton::Right,
        !e.pressed ==> !is_right_press(e),
        e.button != MouseButton::Right ==> !is_right_press(e),
        e.pressed && e.button == MouseButton::Right ==> is_right_press(e),
        is_left_press(e) ==> e.pressed && e.button == MouseButton::Left,
        e.pressed && e.button == MouseButton::Left ==> is_left_press(e),
{
}

/// What the editor does with the cursor when the mouse moves.
#[derive(Debug, Clone, Copy, PartialEq, Eq, Structural)]
pub enum CursorAction {
    /// Hide the cursor and put it back at this point (the window's centre):
    /// the mouse steers the camera.
    HideAndCenter { x: u32, y: u32 },
    /// Show the cursor.
    Show,
}

/// While the right button is held, mouse motion steers the camera and the
/// cursor is hidden and kept at the centre of the window's client area of
/// the given size; otherwise the cursor is shown.
pub fn mouse_motion(mouse_values: &MouseValues, width: u32, height: u32) -> (action: CursorAction)
    ensures
        action == if mouse_values.is_right_mouse_pressed {
            CursorAction::HideAndCenter { x: width / 2, y: height / 2 }
        } else {
            CursorAction::Show
        },
{
    if mouse_values.is_right_mouse_pressed {
        CursorAction::HideAndCenter { x: width / 2, y: height / 2 }
    } else {
        CursorAction::Show
    }
}

/// A handle of a user-interface node: its slot and the generation of the
/// node that occupies the slot.
#[derive(Debug, Clone, Copy, PartialEq, Eq, Structural)]
pub struct NodeHandle {
    pub index: u32,
    pub generation: u32,
}

/// A user-interface message, reduced to what the editor's windows look at.
#[derive(Debug, Clone, Copy, PartialEq, Eq, Structural)]
pub struct UiMessage {
    /// The message reports a click of a button.
    pub is_button_click: bool,
    /// The node that the message is for.
    pub destination: NodeHandle,
}

/// The editor's light settings window, with its "Generate Lightmap" button.
pub struct BasicWindow {
    pub window: NodeHandle,
    button: NodeHandle,
}

impl BasicWindow {
    /// The window built from the handles of its window node and its button.
    pub fn new(window: NodeHandle, button: NodeHandle) -> (w: Self)
        ensures
            w.window_node() == window,
            w.button() == button,
    {
        BasicWindow { window, button }
    }

    /// The handle of the window node.
    pub closed spec fn window_node(&self) -> NodeHandle {
        self.window
    }

    /// The handle of the window's button.
    pub closed spec fn button(&self) -> NodeHandle {
        self.button
    }

    /// Returns whether the message is a click of this window's button (which
    /// the editor reports as "button pressed!").
    pub fn handle_ui_message(&mut self, message: &UiMessage) -> (pressed: bool)
        ensures
            pressed == (message.is_button_click && message.destination == old(self).button()),
            final(self).window_node() == old(self).window_node(),
            final(self).button() == old(self).button(),
    {
        message.is_button_click && message.destination == self.button
    }
}

/// The state of the editor's user interface: each widget window has a title
/// and is shown or hidden.
pub struct EditorUIState {
    pub widget_diagnostic: (String, bool),
    pub widget_file_explorer: (String, bool),
}

impl EditorUIState {
    /// The diagnostics window is shown, the file explorer hidden.
    pub fn new() -> (s: Self)
        ensures
            s.widget_diagnostic.0@ == "Diagnostics Window"@,
            s.widget_diagnostic.1,
            s.widget_file_explorer.0@ == "File Explorer"@,
            !s.widget_file_explorer.1,
    {
        EditorUIState {
            widget_diagnostic: ("Diagnostics Window".to_owned(), true),
            widget_file_explorer: ("File Explorer".to_owned(), false),
        }
    }
}

} // verus!
