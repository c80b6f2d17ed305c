use vstd::prelude::*;
use crate::event::{Action, Key, KEY_COUNT, MOUSE_BUTTON_COUNT, Modifiers, MouseButton, WindowEvent};

verus! {

/// The state of every key and every mouse button of a window.
pub struct InputState {
    key_states: Vec<Action>,
    button_states: Vec<Action>,
}

impl InputState {
    /// Whether the tables hold one state per key and per button.
    pub closed spec fn wf(&self) -> bool {
        &&& self.key_states@.len() == KEY_COUNT
        &&& self.button_states@.len() == MOUSE_BUTTON_COUNT
    }

    /// The state of `key`.
    pub closed spec fn key_state(&self, key: Key) -> Action {
        self.key_states@[key.spec_index()]
    }

    /// The state of `button`.
    pub closed spec fn button_state(&self, button: MouseButton) -> Action {
        self.button_states@[button.spec_index()]
    }

    /// Every key and every button released.
    pub fn new() -> (r: InputState)
        ensures
            r.wf(),
            forall|k: Key| #[trigger] r.key_state(k) == Action::Release,
            forall|b: MouseButton| #[trigger] r.button_state(b) == Action::Release,
    {
        let key_states = vec![Action::Release; KEY_COUNT];
        let button_states = vec![Action::Release; MOUSE_BUTTON_COUNT];
        InputState { key_states, button_states }
    }

    /// The state of a key.
    pub fn get_key(&self, key: Key) -> (r: Action)
        requires
            self.wf(),
        ensures
            r == self.key_state(key),
    {
        self.key_states[key.index()]
    }

    /// The state of a mouse button.
    pub fn get_mouse_button(&self, button: MouseButton) -> (r: Action)
        requires
            self.wf(),
        ensures
            r == self.button_state(button),
    {
        self.button_states[button.index()]
    }

    /// Records that `key` is now in the state `action`.
    pub fn set_key(&mut self, key: Key, action: Action)
        requires
            old(self).wf(),
        ensures
            final(self).wf(),
            final(self).key_state(key) == action,
            forall|k: Key| k != key ==> #[trigger] final(self).key_state(k) == old(self).key_state(k),
            forall|b: MouseButton| #[trigger] final(self).button_state(b) == old(self).button_state(b),
    {
        let i = key.index();
        self.key_states.set(i, action);
        proof {
            assert forall|k: Key| k != key implies #[trigger] self.key_state(k) == old(self).key_state(k) by {
                lemma_key_index_injective(k, key);
            }
        }
    }

    /// Records that `button` is now in the state `action`.
    pub fn set_mouse_button(&mut self, button: MouseButton, action: Action)
        requires
            old(self).wf(),
        ensures
            final(self).wf(),
            final(self).button_state(button) == action,
            forall|b: MouseButton| b != button ==> #[trigger] final(self).button_state(b) == old(self).button_state(b),
            forall|k: Key| #[trigger] final(self).key_state(k) == old(self).key_state(k),
    {
        let i = button.index();
        self.button_states.set(i, action);
    }

    /// Whether every mouse button is released.
    pub fn all_buttons_released(&self) -> (r: bool)
        requires
            self.wf(),
        ensures
            r == forall|b: MouseButton| #[trigger] self.button_state(b) == Action::Release,
    {
        let mut i: usize = 0;
        while i < MOUSE_BUTTON_COUNT
            invariant
                self.button_states@.len() == MOUSE_BUTTON_COUNT,
                i <= MOUSE_BUTTON_COUNT,
                forall|j: int| 0 <= j < i ==> self.button_states@[j] == Action::Release,
            decreases MOUSE_BUTTON_COUNT - i,
        {
            if self.button_states[i] != Action::Release {
                proof {
                    let b = button_at(i as int);
                    assert(self.button_state(b) != Action::Release);
                }
                return false;
            }
            i = i + 1;
        }
        true
    }
}

/// The button at position `i` of a per-button table.
spec fn button_at(i: int) -> MouseButton {
    if i == 0 {
        MouseButton::Button1
    } else if i == 1 {
        MouseButton::Button2
    } else if i == 2 {
        MouseButton::Button3
    } else if i == 3 {
        MouseButton::Button4
    } else if i == 4 {
        MouseButton::Button5
    } else if i == 5 {
        MouseButton::Button6
    } else if i == 6 {
        MouseButton::Button7
    } else {
        MouseButton::Button8
    }
}

proof fn lemma_key_index_injective(a: Key, b: Key)
    requires
        a != b,
    ensures
        a.spec_index() != b.spec_index(),
{
}

/// Whether a browser window is currently delivering its mouse events to the
/// canvas.
#[derive(Debug, Clone, Copy, PartialEq, Eq, Structural)]
pub enum MouseCaptureState {
    /// No button is held: events over the canvas are handled.
    NotCaptured,
    /// A button was pressed over the canvas: every mouse event is handled until
    /// all buttons are released.
    Captured,
    /// A button was pressed outside the canvas: mouse events are ignored until
    /// all buttons are released.
    OtherElement,
}

/// The mask of the five buttons that a browser reports in a mouse event's
/// `buttons` field.
pub const HELD_BUTTONS_MASK: u16 = 0b011111;

impl MouseCaptureState {
    /// Handles a mouse button press, made over the canvas or (when
    /// `outside_canvas`) over another element: returns the event to report, if
    /// any, and records the pressed button.
    pub fn mouse_down(
        &mut self,
        outside_canvas: bool,
        button: MouseButton,
        modifiers: Modifiers,
        input: &mut InputState,
    ) -> (e: Option<WindowEvent>)
        requires
            old(input).wf(),
        ensures
            final(input).wf(),
            (*old(self) == MouseCaptureState::OtherElement || (*old(self)
                == MouseCaptureState::NotCaptured && outside_canvas)) ==> {
                &&& e is None
                &&& *final(input) == *old(input)
                &&& *final(self) == MouseCaptureState::OtherElement
            },
            !(*old(self) == MouseCaptureState::OtherElement || (*old(self)
                == MouseCaptureState::NotCaptured && outside_canvas)) ==> {
                &&& e == Some(WindowEvent::MouseButton(button, Action::Press, modifiers))
                &&& *final(self) == MouseCaptureState::Captured
                &&& final(input).button_state(button) == Action::Press
                &&& forall|b: MouseButton| b != button ==> #[trigger] final(input).button_state(b)
                    == old(input).button_state(b)
                &&& forall|k: Key| #[trigger] final(input).key_state(k) == old(input).key_state(k)
            },
    {
        match *self {
            MouseCaptureState::NotCaptured => {
                if outside_canvas {
                    *self = MouseCaptureState::OtherElement;
                    return None;
                }
            },
            MouseCaptureState::Captured => {},
            MouseCaptureState::OtherElement => {
                return None;
            },
        }
        *self = MouseCaptureState::Captured;
        input.set_mouse_button(button, Action::Press);
        Some(WindowEvent::MouseButton(button, Action::Press, modifiers))
    }

    /// Handles a mouse button release, given the browser's mask of the buttons
    /// still held: returns the event to report, if any, and records the
    /// released button.
    pub fn mouse_up(
        &mut self,
        held_buttons: u16,
        button: MouseButton,
        modifiers: Modifiers,
        input: &mut InputState,
    ) -> (e: Option<WindowEvent>)
        requires
            old(input).wf(),
        ensures
            final(input).wf(),
            *old(self) == MouseCaptureState::NotCaptured ==> e is None && *final(input)
                == *old(input) && *final(self) == MouseCaptureState::NotCaptured,
            *old(self) == MouseCaptureState::OtherElement ==> e is None && *final(input)
                == *old(input) && *final(self) == if held_buttons & HELD_BUTTONS_MASK == 0 {
                MouseCaptureState::NotCaptured
            } else {
                MouseCaptureState::OtherElement
            },
            *old(self) == MouseCaptureState::Captured ==> {
                &&& e == Some(WindowEvent::MouseButton(button, Action::Release, modifiers))
                &&& final(input).button_state(button) == Action::Release
                &&& forall|b: MouseButton| b != button ==> #[trigger] final(input).button_state(b)
                    == old(input).button_state(b)
                &&& forall|k: Key| #[trigger] final(input).key_state(k) == old(input).key_state(k)
                &&& *final(self) == if forall|b: MouseButton| #[trigger] final(input).button_state(b)
                    == Action::Release {
                    MouseCaptureState::NotCaptured
                } else {
                    MouseCaptureState::Captured
                }
            },
    {
        match *self {
            MouseCaptureState::NotCaptured => {
                return None;
            },
            MouseCaptureState::Captured => {},
            MouseCaptureState::OtherElement => {
                if held_buttons & HELD_BUTTONS_MASK == 0 {
                    *self = MouseCaptureState::NotCaptured;
                }
                return None;
            },
        }
        input.set_mouse_button(button, Action::Release);
        if input.all_buttons_released() {
            *self = MouseCaptureState::NotCaptured;
        }
        Some(WindowEvent::MouseButton(button, Action::Release, modifiers))
    }

    /// Whether a mouse move, over the canvas or (when `outside_canvas`) over
    /// another element, is to be handled.
    pub fn mouse_move(&self, outside_canvas: bool) -> (handled: bool)
        ensures
            handled == (*self == MouseCaptureState::Captured || (*self
                == MouseCaptureState::NotCaptured && !outside_canvas)),
    {
        match *self {
            MouseCaptureState::NotCaptured => !outside_canvas,
            MouseCaptureState::Captured => true,
            MouseCaptureState::OtherElement => false,
        }
    }
}

} // verus!
