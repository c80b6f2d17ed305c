use vstd::prelude::*;
use crate::event::{Action, Key, Modifiers, MouseButton, TouchAction};

verus! {

/// The platform the library runs on, as far as the choice of the command
/// modifier goes.
#[derive(Debug, Clone, Copy, PartialEq, Eq, Structural)]
pub enum HostPlatform {
    /// A native build, for macOS or not.
    Native { macos: bool },
    /// A browser, on an Apple platform or not.
    Web { apple: bool },
}

/// Whether ⌘ (Super) is the platform's command modifier: on macOS, and on any
/// Apple platform reached through a browser. Everywhere else it is Ctrl.
pub fn command_is_super(platform: HostPlatform) -> (r: bool)
    ensures
        r == match platform {
            HostPlatform::Native { macos } => macos,
            HostPlatform::Web { apple } => apple,
        },
{
    match platform {
        HostPlatform::Native { macos } => macos,
        HostPlatform::Web { apple } => apple,
    }
}

/// The modifiers as the immediate-mode UI sees them.
#[derive(Debug, Clone, Copy, PartialEq, Eq, Structural)]
pub struct UiModifiers {
    pub alt: bool,
    pub ctrl: bool,
    pub shift: bool,
    /// The ⌘ key, on a platform where it is the command modifier.
    pub mac_cmd: bool,
    /// The platform's command modifier: ⌘ where it is Super, Ctrl elsewhere.
    pub command: bool,
}

/// The UI's view of the modifiers an event arrived with.
pub fn ui_modifiers(modifiers: Modifiers, command_is_super: bool) -> (r: UiModifiers)
    ensures
        r.alt == modifiers.alt,
        r.ctrl == modifiers.control,
        r.shift == modifiers.shift,
        r.mac_cmd == (command_is_super && modifiers.super_key),
        r.command == (if command_is_super { modifiers.super_key } else { modifiers.control }),
{
    let ctrl = modifiers.contains(Modifiers::control());
    let mac_cmd = command_is_super && modifiers.contains(Modifiers::super_());
    UiModifiers {
        alt: modifiers.contains(Modifiers::alt()),
        ctrl,
        shift: modifiers.contains(Modifiers::shift()),
        mac_cmd,
        command: if command_is_super { mac_cmd } else { ctrl },
    }
}

/// A pointer button of the UI.
#[derive(Debug, Clone, Copy, PartialEq, Eq, Structural)]
pub enum UiPointerButton {
    Primary,
    Secondary,
    Middle,
}

/// The UI's pointer button for a mouse button: the first three buttons are the
/// primary, secondary and middle ones; the UI ignores the others.
pub fn ui_pointer_button(button: MouseButton) -> (r: Option<UiPointerButton>)
    ensures
        r == match button {
            MouseButton::Button1 => Some(UiPointerButton::Primary),
            MouseButton::Button2 => Some(UiPointerButton::Secondary),
            MouseButton::Button3 => Some(UiPointerButton::Middle),
            _ => None,
        },
{
    match button {
        MouseButton::Button1 => Some(UiPointerButton::Primary),
        MouseButton::Button2 => Some(UiPointerButton::Secondary),
        MouseButton::Button3 => Some(UiPointerButton::Middle),
        _ => None,
    }
}

/// Whether a button event is a press (otherwise a release) for the UI.
pub fn is_press(action: Action) -> (r: bool)
    ensures
        r == (action == Action::Press),
{
    match action {
        Action::Press => true,
        Action::Release => false,
    }
}

/// What the UI's pointer does in response to a touch.
#[derive(Debug, Clone, Copy, PartialEq, Eq, Structural)]
pub enum PointerEvent {
    /// The pointer moved to the touch.
    Moved,
    /// The primary button was pressed at the touch.
    Pressed,
    /// The primary button was released at the touch.
    Released,
    /// The pointer left.
    Gone,
}

/// The pointer events of a touch `id` in phase `action` while the finger
/// `pointer` (if any) drives the pointer, and the finger that drives it after.
pub open spec fn touch_step(pointer: Option<u64>, id: u64, action: TouchAction) -> (Option<u64>, Seq<PointerEvent>) {
    match action {
        TouchAction::Start => if pointer is None {
            (Some(id), seq![PointerEvent::Moved, PointerEvent::Pressed])
        } else {
            (pointer, Seq::empty())
        },
        TouchAction::Move => if pointer == Some(id) {
            (pointer, seq![PointerEvent::Moved])
        } else {
            (pointer, Seq::empty())
        },
        TouchAction::End => if pointer == Some(id) {
            (None, seq![PointerEvent::Released, PointerEvent::Gone])
        } else {
            (pointer, Seq::empty())
        },
        TouchAction::Cancel => if pointer == Some(id) {
            (None, seq![PointerEvent::Gone])
        } else {
            (pointer, Seq::empty())
        },
    }
}

/// The finger that drives the UI's pointer: the first finger down becomes the
/// pointer, moved then pressed when it touches, released then gone when it
/// lifts, so widgets see what a mouse would produce. Other fingers only make
/// raw touches.
pub struct TouchPointer {
    pub pointer_touch_id: Option<u64>,
}

impl TouchPointer {
    /// No finger drives the pointer.
    pub fn new() -> (r: TouchPointer)
        ensures
            r.pointer_touch_id is None,
    {
        TouchPointer { pointer_touch_id: None }
    }

    /// The pointer events for touch `id` in phase `action`, in order.
    pub fn on_touch(&mut self, id: u64, action: TouchAction) -> (r: Vec<PointerEvent>)
        ensures
            (final(self).pointer_touch_id, r@) == touch_step(old(self).pointer_touch_id, id, action),
    {
        let mut r: Vec<PointerEvent> = Vec::new();
        let is_pointer = match self.pointer_touch_id {
            Some(p) => p == id,
            None => false,
        };
        match action {
            TouchAction::Start => {
                if self.pointer_touch_id.is_none() {
                    self.pointer_touch_id = Some(id);
                    r.push(PointerEvent::Moved);
                    r.push(PointerEvent::Pressed);
                }
            },
            TouchAction::Move => {
                if is_pointer {
                    r.push(PointerEvent::Moved);
                }
            },
            TouchAction::End => {
                if is_pointer {
                    self.pointer_touch_id = None;
                    r.push(PointerEvent::Released);
                    r.push(PointerEvent::Gone);
                }
            },
            TouchAction::Cancel => {
                if is_pointer {
                    self.pointer_touch_id = None;
                    r.push(PointerEvent::Gone);
                }
            },
        }
        assert(r@ =~= touch_step(old(self).pointer_touch_id, id, action).1);
        r
    }
}

/// Whether the pointer is down after `events`, starting up: each press finds it
/// up and each release or departure finds it down.
pub open spec fn pointer_balanced(down: bool, events: Seq<PointerEvent>) -> Option<bool>
    decreases events.len(),
{
    if events.len() == 0 {
        Some(down)
    } else {
        match events[0] {
            PointerEvent::Moved => pointer_balanced(down, events.drop_first()),
            PointerEvent::Pressed => if down {
                None
            } else {
                pointer_balanced(true, events.drop_first())
            },
            PointerEvent::Released => if down {
                pointer_balanced(down, events.drop_first())
            } else {
                None
            },
            PointerEvent::Gone => pointer_balanced(false, events.drop_first()),
        }
    }
}

/// The pointer events a touch makes keep the pointer consistent: a press only
/// while no finger drives it, a release only while one does, and the pointer is
/// down after the touch exactly when a finger drives it.
pub proof fn lemma_touch_pointer_consistent(pointer: Option<u64>, id: u64, action: TouchAction)
    ensures
        pointer_balanced(pointer is Some, touch_step(pointer, id, action).1)
            == Some(touch_step(pointer, id, action).0 is Some),
{
    reveal_with_fuel(pointer_balanced, 3);
    let events = touch_step(pointer, id, action).1;
    if events.len() == 2 {
        assert(events.drop_first().drop_first() =~= Seq::<PointerEvent>::empty());
    } else if events.len() == 1 {
        assert(events.drop_first() =~= Seq::<PointerEvent>::empty());
    }
}

/// A key the UI knows.
#[derive(Debug, Clone, Copy, PartialEq, Eq, Structural)]
pub enum EguiKey {
    A,
    B,
    C,
    D,
    E,
    F,
    G,
    H,
    I,
    J,
    K,
    L,
    M,
    N,
    O,
    P,
    Q,
    R,
    S,
    T,
    U,
    V,
    W,
    X,
    Y,
    Z,
    Escape,
    Tab,
    Backspace,
    Enter,
    Space,
    Insert,
    Delete,
    Home,
    End,
    PageUp,
    PageDown,
    ArrowLeft,
    ArrowUp,
    ArrowRight,
    ArrowDown,
}

/// The UI's key for a key of the library: the letters, the editing and
/// navigation keys; the UI has no counterpart for the others.
pub open spec fn ui_key_of(key: Key) -> Option<EguiKey> {
    match key {
        Key::A => Some(EguiKey::A),
        Key::B => Some(EguiKey::B),
        Key::C => Some(EguiKey::C),
        Key::D => Some(EguiKey::D),
        Key::E => Some(EguiKey::E),
        Key::F => Some(EguiKey::F),
        Key::G => Some(EguiKey::G),
        Key::H => Some(EguiKey::H),
        Key::I => Some(EguiKey::I),
        Key::J => Some(EguiKey::J),
        Key::K => Some(EguiKey::K),
        Key::L => Some(EguiKey::L),
        Key::M => Some(EguiKey::M),
        Key::N => Some(EguiKey::N),
        Key::O => Some(EguiKey::O),
        Key::P => Some(EguiKey::P),
        Key::Q => Some(EguiKey::Q),
        Key::R => Some(EguiKey::R),
        Key::S => Some(EguiKey::S),
        Key::T => Some(EguiKey::T),
        Key::U => Some(EguiKey::U),
        Key::V => Some(EguiKey::V),
        Key::W => Some(EguiKey::W),
        Key::X => Some(EguiKey::X),
        Key::Y => Some(EguiKey::Y),
        Key::Z => Some(EguiKey::Z),
        Key::Escape => Some(EguiKey::Escape),
        Key::Tab => Some(EguiKey::Tab),
        Key::Back => Some(EguiKey::Backspace),
        Key::Return => Some(EguiKey::Enter),
        Key::Space => Some(EguiKey::Space),
        Key::Insert => Some(EguiKey::Insert),
        Key::Delete => Some(EguiKey::Delete),
        Key::Home => Some(EguiKey::Home),
        Key::End => Some(EguiKey::End),
        Key::PageUp => Some(EguiKey::PageUp),
        Key::PageDown => Some(EguiKey::PageDown),
        Key::Left => Some(EguiKey::ArrowLeft),
        Key::Up => Some(EguiKey::ArrowUp),
        Key::Right => Some(EguiKey::ArrowRight),
        Key::Down => Some(EguiKey::ArrowDown),
        _ => None,
    }
}

/// The library's key for a key of the UI.
pub open spec fn key_of_ui(e: EguiKey) -> Key {
    match e {
        EguiKey::A => Key::A,
        EguiKey::B => Key::B,
        EguiKey::C => Key::C,
        EguiKey::D => Key::D,
        EguiKey::E => Key::E,
        EguiKey::F => Key::F,
        EguiKey::G => Key::G,
        EguiKey::H => Key::H,
        EguiKey::I => Key::I,
        EguiKey::J => Key::J,
        EguiKey::K => Key::K,
        EguiKey::L => Key::L,
        EguiKey::M => Key::M,
        EguiKey::N => Key::N,
        EguiKey::O => Key::O,
        EguiKey::P => Key::P,
        EguiKey::Q => Key::Q,
        EguiKey::R => Key::R,
        EguiKey::S => Key::S,
        EguiKey::T => Key::T,
        EguiKey::U => Key::U,
        EguiKey::V => Key::V,
        EguiKey::W => Key::W,
        EguiKey::X => Key::X,
        EguiKey::Y => Key::Y,
        EguiKey::Z => Key::Z,
        EguiKey::Escape => Key::Escape,
        EguiKey::Tab => Key::Tab,
        EguiKey::Backspace => Key::Back,
        EguiKey::Enter => Key::Return,
        EguiKey::Space => Key::Space,
        EguiKey::Insert => Key::Insert,
        EguiKey::Delete => Key::Delete,
        EguiKey::Home => Key::Home,
        EguiKey::End => Key::End,
        EguiKey::PageUp => Key::PageUp,
        EguiKey::PageDown => Key::PageDown,
        EguiKey::ArrowLeft => Key::Left,
        EguiKey::ArrowUp => Key::Up,
        EguiKey::ArrowRight => Key::Right,
        EguiKey::ArrowDown => Key::Down,
    }
}

/// The translation to the UI's keys is one to one and onto: every key of the
/// UI comes from exactly one key of the library, `key_of_ui` of it. Keys named differently by the
/// two map by meaning: backspace, return and the arrows; the forward delete
/// key stays the forward delete key.
pub proof fn lemma_ui_keys_one_to_one()
    ensures
        forall|k1: Key, k2: Key|
            #[trigger] ui_key_of(k1) is Some && ui_key_of(k1) == #[trigger] ui_key_of(k2) ==> k1 == k2,
        forall|e: EguiKey| #[trigger] ui_key_of(key_of_ui(e)) == Some(e),
        ui_key_of(Key::Delete) == Some(EguiKey::Delete),
        ui_key_of(Key::Back) == Some(EguiKey::Backspace),
        ui_key_of(Key::Return) == Some(EguiKey::Enter),
        ui_key_of(Key::Left) == Some(EguiKey::ArrowLeft),
        ui_key_of(Key::Right) == Some(EguiKey::ArrowRight),
        ui_key_of(Key::Up) == Some(EguiKey::ArrowUp),
        ui_key_of(Key::Down) == Some(EguiKey::ArrowDown),
{
    assert forall|k: Key| #[trigger] ui_key_of(k) is Some implies key_of_ui(ui_key_of(k)->0) == k by {
    }
    assert forall|e: EguiKey| #[trigger] ui_key_of(key_of_ui(e)) == Some(e) by {
    }
}

/// The UI's key for a key of the library, if it has one.
pub fn translate_key_to_egui(key: Key) -> (r: Option<EguiKey>)
    ensures
        r == ui_key_of(key),
{
    match key {
        Key::A => Some(EguiKey::A),
        Key::B => Some(EguiKey::B),
        Key::C => Some(EguiKey::C),
        Key::D => Some(EguiKey::D),
        Key::E => Some(EguiKey::E),
        Key::F => Some(EguiKey::F),
        Key::G => Some(EguiKey::G),
        Key::H => Some(EguiKey::H),
        Key::I => Some(EguiKey::I),
        Key::J => Some(EguiKey::J),
        Key::K => Some(EguiKey::K),
        Key::L => Some(EguiKey::L),
        Key::M => Some(EguiKey::M),
        Key::N => Some(EguiKey::N),
        Key::O => Some(EguiKey::O),
        Key::P => Some(EguiKey::P),
        Key::Q => Some(EguiKey::Q),
        Key::R => Some(EguiKey::R),
        Key::S => Some(EguiKey::S),
        Key::T => Some(EguiKey::T),
        Key::U => Some(EguiKey::U),
        Key::V => Some(EguiKey::V),
        Key::W => Some(EguiKey::W),
        Key::X => Some(EguiKey::X),
        Key::Y => Some(EguiKey::Y),
        Key::Z => Some(EguiKey::Z),
        Key::Escape => Some(EguiKey::Escape),
        Key::Tab => Some(EguiKey::Tab),
        Key::Back => Some(EguiKey::Backspace),
        Key::Return => Some(EguiKey::Enter),
        Key::Space => Some(EguiKey::Space),
        Key::Insert => Some(EguiKey::Insert),
        Key::Delete => Some(EguiKey::Delete),
        Key::Home => Some(EguiKey::Home),
        Key::End => Some(EguiKey::End),
        Key::PageUp => Some(EguiKey::PageUp),
        Key::PageDown => Some(EguiKey::PageDown),
        Key::Left => Some(EguiKey::ArrowLeft),
        Key::Up => Some(EguiKey::ArrowUp),
        Key::Right => Some(EguiKey::ArrowRight),
        Key::Down => Some(EguiKey::ArrowDown),
        _ => None,
    }
}

/// The most passes a frame runs when the UI allows `max_passes`: at least the
/// first one.
pub open spec fn max_passes_bound(max_passes: u32) -> int {
    if max_passes < 1 {
        1
    } else {
        max_passes as int
    }
}

/// Counts the passes of the UI in a frame: the call that opened the frame's
/// pass reruns it while the UI asks to discard it, at most `max_passes` passes
/// in all.
pub struct PassCounter {
    pub opened: bool,
    pub passes: u32,
    pub max_passes: u32,
}

impl PassCounter {
    /// The first pass of a call, which opened the frame's pass or not.
    pub fn new(opened: bool, max_passes: u32) -> (r: PassCounter)
        ensures
            r == (PassCounter { opened, passes: 1, max_passes }),
    {
        PassCounter { opened, passes: 1, max_passes }
    }

    /// Whether to run another pass, the UI asking to discard this one or not;
    /// counts the pass to run.
    pub fn rerun(&mut self, will_discard: bool) -> (r: bool)
        ensures
            r == (old(self).opened && old(self).passes < old(self).max_passes && will_discard),
            final(self).passes == if r { old(self).passes + 1 } else { old(self).passes as int },
            final(self).opened == old(self).opened,
            final(self).max_passes == old(self).max_passes,
            1 <= old(self).passes <= max_passes_bound(old(self).max_passes) ==> 1 <= final(self).passes
                <= max_passes_bound(final(self).max_passes),
    {
        let r = self.opened && self.passes < self.max_passes && will_discard;
        if r {
            self.passes = self.passes + 1;
        }
        r
    }
}


/// The UI's input between passes: the events fed since the last pass opened,
/// oldest first, and whether a pass is open. Several UI calls in a frame share
/// one pass, opened by the first of them and closed when the frame renders.
pub struct UiPassState<E> {
    pending: Vec<E>,
    pass_active: bool,
}

impl<E> UiPassState<E> {
    /// The events waiting for the next pass, oldest first.
    pub closed spec fn pending(&self) -> Seq<E> {
        self.pending@
    }

    /// Whether a pass is open.
    pub closed spec fn active(&self) -> bool {
        self.pass_active
    }

    /// No pass open, no event waiting.
    pub fn new() -> (r: UiPassState<E>)
        ensures
            r.pending().len() == 0,
            !r.active(),
    {
        UiPassState { pending: Vec::new(), pass_active: false }
    }

    /// Feeds an event to the UI: it waits for the next pass.
    pub fn feed(&mut self, event: E)
        ensures
            final(self).pending() == old(self).pending().push(event),
            final(self).active() == old(self).active(),
    {
        self.pending.push(event);
    }

    /// Opens the frame's pass unless one is open: returns the events that
    /// waited, oldest first, for the pass that opens, or `None` when a pass
    /// was open already (its calls share it).
    pub fn open_pass(&mut self) -> (r: Option<Vec<E>>)
        ensures
            final(self).active(),
            old(self).active() ==> r is None && final(self).pending() == old(self).pending(),
            !old(self).active() ==> (r matches Some(events) && events@ == old(self).pending()
                && final(self).pending().len() == 0),
    {
        if self.pass_active {
            None
        } else {
            let mut events: Vec<E> = Vec::new();
            std::mem::swap(&mut events, &mut self.pending);
            self.pass_active = true;
            Some(events)
        }
    }

    /// Closes the frame's pass, if one is open, and says whether it was. The
    /// events fed meanwhile stay for the next pass.
    pub fn finish_pass(&mut self) -> (was_active: bool)
        ensures
            was_active == old(self).active(),
            !final(self).active(),
            final(self).pending() == old(self).pending(),
    {
        let was_active = self.pass_active;
        self.pass_active = false;
        was_active
    }
}

} // verus!
