//! Keyboard input of the cameras: which key drives which movement.
use vstd::prelude::*;

verus! {

/// The keys that the engine reacts to; every other key is `Other`.
#[derive(Debug, Clone, Copy, PartialEq, Eq, Structural)]
pub enum Key {
    W,
    A,
    S,
    D,
    Q,
    E,
    Z,
    Up,
    Down,
    Left,
    Right,
    Space,
    LShift,
    Escape,
    Other,
}

/// A window event as the camera controllers see it.
#[derive(Debug, Clone, Copy, PartialEq, Eq, Structural)]
pub enum InputEvent {
    /// A key changed state; `keycode` is `None` for a key the system could not name.
    KeyboardInput { pressed: bool, keycode: Option<Key> },
    /// Any other window event.
    Other,
}

/// Which keys move a camera up and down; the other movements are bound to
/// W/Up (forward), S/Down (backward), A/Left (left) and D/Right (right).
#[derive(Debug, Clone, Copy, PartialEq, Eq, Structural)]
pub enum UpDownBinding {
    /// Space moves up, left shift moves down (the look-at camera of the renderer).
    SpaceShift,
    /// Q moves up, E moves down (the look-at camera of the camera module).
    QE,
}

/// One of the six movements of a camera.
#[derive(Debug, Clone, Copy, PartialEq, Eq, Structural)]
pub enum Movement {
    Up,
    Down,
    Forward,
    Backward,
    Left,
    Right,
}

/// Which movement keys are held down.
#[derive(Debug, Clone, Copy, PartialEq, Eq, Structural)]
pub struct MovementKeys {
    pub is_up_pressed: bool,
    pub is_down_pressed: bool,
    pub is_forward_pressed: bool,
    pub is_backward_pressed: bool,
    pub is_left_pressed: bool,
    pub is_right_pressed: bool,
}

/// The movement that `key` drives under `binding`, if any.
pub open spec fn movement_of(key: Key, binding: UpDownBinding) -> Option<Movement> {
    match key {
        Key::Space => if binding == UpDownBinding::SpaceShift {
            Some(Movement::Up)
        } else {
            None
        },
        Key::LShift => if binding == UpDownBinding::SpaceShift {
            Some(Movement::Down)
        } else {
            None
        },
        Key::Q => if binding == UpDownBinding::QE {
            Some(Movement::Up)
        } else {
            None
        },
        Key::E => if binding == UpDownBinding::QE {
            Some(Movement::Down)
        } else {
            None
        },
        Key::W | Key::Up => Some(Movement::Forward),
        Key::S | Key::Down => Some(Movement::Backward),
        Key::A | Key::Left => Some(Movement::Left),
        Key::D | Key::Right => Some(Movement::Right),
        _ => None,
    }
}

/// `keys` with the flag of movement `m` set to `held`.
pub open spec fn with_movement(keys: MovementKeys, m: Movement, held: bool) -> MovementKeys {
    match m {
        Movement::Up => MovementKeys { is_up_pressed: held, ..keys },
        Movement::Down => MovementKeys { is_down_pressed: held, ..keys },
        Movement::Forward => MovementKeys { is_forward_pressed: held, ..keys },
        Movement::Backward => MovementKeys { is_backward_pressed: held, ..keys },
        Movement::Left => MovementKeys { is_left_pressed: held, ..keys },
        Movement::Right => MovementKeys { is_right_pressed: held, ..keys },
    }
}

/// The movement that an event drives, if any.
pub open spec fn event_movement(event: InputEvent, binding: UpDownBinding) -> Option<Movement> {
    match event {
        InputEvent::KeyboardInput { pressed, keycode } => match keycode {
            Some(key) => movement_of(key, binding),
            None => None,
        },
        InputEvent::Other => None,
    }
}

/// The keys after an event.
pub open spec fn keys_after(keys: MovementKeys, event: InputEvent, binding: UpDownBinding) -> MovementKeys {
    match event {
        InputEvent::KeyboardInput { pressed, keycode } => match event_movement(event, binding) {
            Some(m) => with_movement(keys, m, pressed),
            None => keys,
        },
        InputEvent::Other => keys,
    }
}

impl MovementKeys {
    /// No key held.
    pub fn new() -> (keys: Self)
        ensures
            !keys.is_up_pressed && !keys.is_down_pressed && !keys.is_forward_pressed
                && !keys.is_backward_pressed && !keys.is_left_pressed && !keys.is_right_pressed,
    {
        MovementKeys {
            is_up_pressed: false,
            is_down_pressed: false,
            is_forward_pressed: false,
            is_backward_pressed: false,
            is_left_pressed: false,
            is_right_pressed: false,
        }
    }

    /// Records a key press or release of a movement key. Returns whether the
    /// event was a movement key of this binding (and so was consumed).
    pub fn process_events(&mut self, event: &InputEvent, binding: UpDownBinding) -> (consumed: bool)
        ensures
            consumed == event_movement(*event, binding) is Some,
            *final(self) == keys_after(*old(self), *event, binding),
    {
        match event {
            InputEvent::KeyboardInput { pressed, keycode: Some(key) } => {
                let is_pressed = *pressed;
                match key {
                    Key::Space if binding == UpDownBinding::SpaceShift => {
                        self.is_up_pressed = is_pressed;
                        true
                    },
                    Key::LShift if binding == UpDownBinding::SpaceShift => {
                        self.is_down_pressed = is_pressed;
                        true
                    },
                    Key::Q if binding == UpDownBinding::QE => {
                        self.is_up_pressed = is_pressed;
                        true
                    },
                    Key::E if binding == UpDownBinding::QE => {
                        self.is_down_pressed = is_pressed;
                        true
                    },
                    Key::W | Key::Up => {
                        self.is_forward_pressed = is_pressed;
                        true
                    },
                    Key::A | Key::Left => {
                        self.is_left_pressed = is_pressed;
                        true
                    },
                    Key::S | Key::Down => {
                        self.is_backward_pressed = is_pressed;
                        true
                    },
                    Key::D | Key::Right => {
                        self.is_right_pressed = is_pressed;
                        true
                    },
                    _ => false,
                }
            },
            _ => false,
        }
    }
}

/// Releasing a movement key undoes pressing it: a press followed by the
/// release of the same key leaves that movement not held and every other
/// movement as it was.
pub proof fn lemma_release_undoes_press(keys: MovementKeys, key: Key, binding: UpDownBinding)
    requires
        movement_of(key, binding) is Some,
    ensures
        keys_after(
            keys_after(keys, InputEvent::KeyboardInput { pressed: true, keycode: Some(key) }, binding),
            InputEvent::KeyboardInput { pressed: false, keycode: Some(key) },
            binding,
        ) == with_movement(keys, movement_of(key, binding).unwrap(), false),
{
}

/// Handling an event a second time changes nothing.
pub proof fn lemma_process_events_idempotent(keys: MovementKeys, event: InputEvent, binding: UpDownBinding)
    ensures
        keys_after(keys_after(keys, event, binding), event, binding) == keys_after(keys, event, binding),
{
}

/// The bindings of the camera keys, under either scheme: W and the Up arrow
/// move forward, S and Down backward, A and Left left, D and Right right;
/// Space and left shift move up and down under `SpaceShift`, Q and E under
/// `QE`; Z, Escape and other keys move nothing.
pub proof fn lemma_movement_bindings(b: UpDownBinding)
    ensures
        movement_of(Key::W, b) == Some(Movement::Forward),
        movement_of(Key::Up, b) == Some(Movement::Forward),
        movement_of(Key::S, b) == Some(Movement::Backward),
        movement_of(Key::Down, b) == Some(Movement::Backward),
        movement_of(Key::A, b) == Some(Movement::Left),
        movement_of(Key::Left, b) == Some(Movement::Left),
        movement_of(Key::D, b) == Some(Movement::Right),
        movement_of(Key::Right, b) == Some(Movement::Right),
        b == UpDownBinding::SpaceShift ==> movement_of(Key::Space, b) == Some(Movement::Up)
            && movement_of(Key::LShift, b) == Some(Movement::Down) && movement_of(Key::Q, b)
            is None && movement_of(Key::E, b) is None,
        b == UpDownBinding::QE ==> movement_of(Key::Q, b) == Some(Movement::Up) && movement_of(
            Key::E,
            b,
        ) == Some(Movement::Down) && movement_of(Key::Space, b) is None && movement_of(
            Key::LShift,
            b,
        ) is None,
        movement_of(Key::Z, b) is None,
        movement_of(Key::Escape, b) is None,
        movement_of(Key::Other, b) is None,
{
}

/// A key event of a bound key sets exactly the flag of its movement to
/// whether the key went down: e.g. pressing the Right arrow holds right, and
/// releasing Down releases backward, under either scheme; the other flags
/// stay as they were.
pub proof fn lemma_key_sets_its_flag(keys: MovementKeys, b: UpDownBinding, pressed: bool)
    ensures
        ({
            let after = |k: Key|
                keys_after(keys, InputEvent::KeyboardInput { pressed, keycode: Some(k) }, b);
            &&& after(Key::W) == (MovementKeys { is_forward_pressed: pressed, ..keys })
            &&& after(Key::Up) == (MovementKeys { is_forward_pressed: pressed, ..keys })
            &&& after(Key::S) == (MovementKeys { is_backward_pressed: pressed, ..keys })
            &&& after(Key::Down) == (MovementKeys { is_backward_pressed: pressed, ..keys })
            &&& after(Key::A) == (MovementKeys { is_left_pressed: pressed, ..keys })
            &&& after(Key::Left) == (MovementKeys { is_left_pressed: pressed, ..keys })
            &&& after(Key::D) == (MovementKeys { is_right_pressed: pressed, ..keys })
            &&& after(Key::Right) == (MovementKeys { is_right_pressed: pressed, ..keys })
        }),
{
}

/// Defines several possible options for camera movement. Used as abstraction
/// to stay away from window-system specific input methods.
#[allow(non_camel_case_types)]
#[derive(Debug, Clone, Copy, PartialEq, Eq, Structural)]
pub enum CameraMovement {
    FORWARD,
    BACKWARD,
    LEFT,
    RIGHT,
    UP,
    DOWN,
}

/// The camera vector along which a movement goes.
#[derive(Debug, Clone, Copy, PartialEq, Eq, Structural)]
pub enum CameraAxis {
    /// The camera's own front vector.
    Front,
    /// The camera's own right vector.
    Right,
    /// The world's up vector (not the camera's own up vector).
    WorldUp,
}

/// The axis of a movement and whether it goes along (`true`) or against it.
pub open spec fn spec_axis_and_sign(m: CameraMovement) -> (CameraAxis, bool) {
    match m {
        CameraMovement::FORWARD => (CameraAxis::Front, true),
        CameraMovement::BACKWARD => (CameraAxis::Front, false),
        CameraMovement::LEFT => (CameraAxis::Right, false),
        CameraMovement::RIGHT => (CameraAxis::Right, true),
        CameraMovement::UP => (CameraAxis::WorldUp, true),
        CameraMovement::DOWN => (CameraAxis::WorldUp, false),
    }
}

impl CameraMovement {
    /// The vector that the camera position moves along, and the sign: the
    /// position changes by `sign * axis * speed * dt`.
    pub fn axis_and_sign(&self) -> (r: (CameraAxis, bool))
        ensures
            r == spec_axis_and_sign(*self),
    {
        match self {
            CameraMovement::FORWARD => (CameraAxis::Front, true),
            CameraMovement::BACKWARD => (CameraAxis::Front, false),
            CameraMovement::LEFT => (CameraAxis::Right, false),
            CameraMovement::RIGHT => (CameraAxis::Right, true),
            CameraMovement::UP => (CameraAxis::WorldUp, true),
            CameraMovement::DOWN => (CameraAxis::WorldUp, false),
        }
    }
}

/// Opposite movements go along the same axis in opposite directions, so
/// one undoes the other.
pub proof fn lemma_opposite_movements_cancel()
    ensures
        spec_axis_and_sign(CameraMovement::FORWARD).0 == spec_axis_and_sign(
            CameraMovement::BACKWARD,
        ).0,
        spec_axis_and_sign(CameraMovement::FORWARD).1 != spec_axis_and_sign(
            CameraMovement::BACKWARD,
        ).1,
        spec_axis_and_sign(CameraMovement::LEFT).0 == spec_axis_and_sign(CameraMovement::RIGHT).0,
        spec_axis_and_sign(CameraMovement::LEFT).1 != spec_axis_and_sign(CameraMovement::RIGHT).1,
        spec_axis_and_sign(CameraMovement::UP).0 == spec_axis_and_sign(CameraMovement::DOWN).0,
        spec_axis_and_sign(CameraMovement::UP).1 != spec_axis_and_sign(CameraMovement::DOWN).1,
{
}

} // verus!
