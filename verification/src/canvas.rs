use vstd::prelude::*;
use crate::event::{Action, Key, Modifiers, MouseButton, WindowEvent};
use crate::input::InputState;
use crate::pixels::{at, lemma_at_bounds};
use crate::samples::NumSamples;

verus! {

/// Canvas options.
#[derive(Debug, Clone, PartialEq, Eq)]
pub struct CanvasSetup {
    /// Is vsync enabled?
    pub vsync: bool,
    /// Number of AA samples.
    pub samples: NumSamples,
    /// The id of the canvas element to use (in a browser). Defaults to
    /// `"canvas"`. If an element with this id exists in the page, it is used;
    /// otherwise a new canvas element with this id is created.
    pub canvas_id: String,
}

impl Default for CanvasSetup {
    fn default() -> (r: Self)
        ensures
            r.vsync,
            r.samples == NumSamples::Four,
            r.canvas_id@ == "canvas"@,
    {
        CanvasSetup { vsync: true, samples: NumSamples::Four, canvas_id: String::from_str("canvas") }
    }
}

/// An event as the windowing system delivers it to a canvas.
#[derive(Debug, Clone)]
pub enum PlatformEvent {
    /// The user asked to close the window.
    CloseRequested,
    /// The window's framebuffer was resized to the given physical size.
    Resized(u32, u32),
    /// A mouse button changed state.
    MouseInput(MouseButton, Action),
    /// A key changed state, typing the given characters (none for a release or
    /// a key that types nothing).
    KeyboardInput(Key, Action, Vec<char>),
    /// The held modifiers changed.
    ModifiersChanged(Modifiers),
    /// A file was dropped onto the window.
    DroppedFile(String),
}

/// The number of bytes of a pixel of the readback texture (RGBA).
pub const READBACK_BYTES_PER_PIXEL: usize = 4;

/// Whether `out` holds, as RGB with three bytes per pixel and the top row
/// first, the `w` x `h` rectangle at `(x, y)` of the RGBA image `rgba` whose rows
/// are `width` pixels long.
pub open spec fn is_rgb_rect_of(
    out: Seq<u8>,
    rgba: Seq<u8>,
    width: int,
    x: int,
    y: int,
    w: int,
    h: int,
) -> bool {
    &&& out.len() == w * h * 3
    &&& forall|r: int, c: int, ch: int|
        0 <= r < h && 0 <= c < w && 0 <= ch < 3 ==> #[trigger] out[at(r, c, w) * 3 + ch]
            == rgba[at(y + r, x + c, width) * 4 + ch]
}

/// What polling reads and changes of a canvas: its size, the modifiers held,
/// the state of each key and button, the events reported and the files
/// dropped.
#[verifier::ext_equal]
pub struct PollState {
    pub width: u32,
    pub height: u32,
    pub modifiers: Modifiers,
    pub keys: spec_fn(Key) -> Action,
    pub buttons: spec_fn(MouseButton) -> Action,
    pub events: Seq<WindowEvent>,
    pub dropped: Seq<String>,
}

/// The character events for the characters a key typed, in order.
pub open spec fn char_events(chars: Seq<char>) -> Seq<WindowEvent>
    decreases chars.len(),
{
    if chars.len() == 0 {
        Seq::empty()
    } else {
        char_events(chars.drop_last()).push(WindowEvent::Char(chars.last()))
    }
}

/// What handling one event from the windowing system does: a close request is
/// reported; a resize to a non-zero size changes the size and is reported (an
/// empty size, as when the window is minimized, is ignored); a button or key
/// change is recorded and reported with the modifiers held, and a key is
/// followed by the characters it typed; a change of modifiers is recorded; a
/// dropped file is queued.
pub open spec fn step(s: PollState, e: PlatformEvent) -> PollState {
    match e {
        PlatformEvent::CloseRequested => PollState { events: s.events.push(WindowEvent::Close), ..s },
        PlatformEvent::Resized(w, h) => if w > 0 && h > 0 {
            PollState {
                width: w,
                height: h,
                events: s.events.push(WindowEvent::FramebufferSize(w, h)),
                ..s
            }
        } else {
            s
        },
        PlatformEvent::MouseInput(b, a) => PollState {
            buttons: |x: MouseButton| if x == b { a } else { (s.buttons)(x) },
            events: s.events.push(WindowEvent::MouseButton(b, a, s.modifiers)),
            ..s
        },
        PlatformEvent::KeyboardInput(k, a, chars) => PollState {
            keys: |x: Key| if x == k { a } else { (s.keys)(x) },
            events: s.events.push(WindowEvent::Key(k, a, s.modifiers)) + char_events(chars@),
            ..s
        },
        PlatformEvent::ModifiersChanged(m) => PollState { modifiers: m, ..s },
        PlatformEvent::DroppedFile(path) => PollState { dropped: s.dropped.push(path), ..s },
    }
}

/// What handling the events `es`, oldest first, does to `s`.
pub open spec fn run(s: PollState, es: Seq<PlatformEvent>) -> PollState
    decreases es.len(),
{
    if es.len() == 0 {
        s
    } else {
        step(run(s, es.drop_last()), es.last())
    }
}

/// Polling takes the input state to the state the last event of each key or
/// button gave it: after the events `es` then a mouse-button event `(b, a)`,
/// button `b` is in state `a` (a release as well as a press) and every other
/// button is as `es` left it; likewise for a key event `(k, a)` and the keys.
/// Neither kind of event changes the size or the modifiers.
pub proof fn lemma_input_follows_last_event(
    s: PollState,
    es: Seq<PlatformEvent>,
    b: MouseButton,
    k: Key,
    a: Action,
    chars: Vec<char>,
)
    ensures
        ({
            let t = run(s, es.push(PlatformEvent::MouseInput(b, a)));
            &&& (t.buttons)(b) == a
            &&& forall|x: MouseButton| x != b ==> #[trigger] (t.buttons)(x) == (run(s, es).buttons)(x)
            &&& t.keys == run(s, es).keys
            &&& t.width == run(s, es).width && t.height == run(s, es).height
            &&& t.modifiers == run(s, es).modifiers
        }),
        ({
            let t = run(s, es.push(PlatformEvent::KeyboardInput(k, a, chars)));
            &&& (t.keys)(k) == a
            &&& forall|x: Key| x != k ==> #[trigger] (t.keys)(x) == (run(s, es).keys)(x)
            &&& t.buttons == run(s, es).buttons
            &&& t.width == run(s, es).width && t.height == run(s, es).height
            &&& t.modifiers == run(s, es).modifiers
        }),
{
    let e1 = PlatformEvent::MouseInput(b, a);
    let e2 = PlatformEvent::KeyboardInput(k, a, chars);
    assert(es.push(e1).drop_last() =~= es);
    assert(es.push(e2).drop_last() =~= es);
}

/// A press then a release of the same button, polled together, leave the
/// button released; the same for a key.
pub proof fn lemma_press_then_release(s: PollState, es: Seq<PlatformEvent>, b: MouseButton, k: Key, chars: Vec<char>)
    ensures
        (run(
            s,
            es.push(PlatformEvent::MouseInput(b, Action::Press)).push(PlatformEvent::MouseInput(b, Action::Release)),
        ).buttons)(b) == Action::Release,
        (run(
            s,
            es.push(PlatformEvent::KeyboardInput(k, Action::Press, chars)).push(
                PlatformEvent::KeyboardInput(k, Action::Release, chars),
            ),
        ).keys)(k) == Action::Release,
{
    lemma_input_follows_last_event(
        s,
        es.push(PlatformEvent::MouseInput(b, Action::Press)),
        b,
        k,
        Action::Release,
        chars,
    );
    lemma_input_follows_last_event(
        s,
        es.push(PlatformEvent::KeyboardInput(k, Action::Press, chars)),
        b,
        k,
        Action::Release,
        chars,
    );
}

/// The character at `j` of `chars`.
fn char_at(chars: &Vec<char>, j: usize) -> (c: char)
    requires
        j < chars.len(),
    ensures
        c == chars@[j as int],
{
    chars[j]
}

/// The character events for the characters of `chars`, in order.
fn typed_events(chars: &Vec<char>) -> (r: Vec<WindowEvent>)
    ensures
        r@ == char_events(chars@),
{
    let mut typed: Vec<WindowEvent> = Vec::new();
    let mut j: usize = 0;
    while j < chars.len()
        invariant
            j <= chars@.len(),
            typed@ == char_events(chars@.take(j as int)),
        decreases chars@.len() - j,
    {
        let c = char_at(chars, j);
        typed.push(WindowEvent::Char(c));
        assert(chars@.take(j as int + 1).drop_last() =~= chars@.take(j as int));
        j = j + 1;
    }
    assert(chars@.take(chars@.len() as int) =~= chars@);
    typed
}

/// The presentation settings of a canvas and its read-back image.
#[verifier::ext_equal]
pub struct CanvasSettings {
    /// The number of samples for multisample anti-aliasing.
    pub sample_count: u32,
    /// Whether presentation waits for the display's vertical sync.
    pub vsync: bool,
    /// The window title.
    pub title: Seq<char>,
    /// Whether the window is shown.
    pub visible: bool,
    /// Whether the cursor is confined to the window.
    pub cursor_grabbed: bool,
    /// Whether the cursor is hidden.
    pub cursor_hidden: bool,
    /// Whether the window is in borderless fullscreen.
    pub fullscreen: bool,
    /// Whether the on-screen keyboard is shown.
    pub keyboard_visible: bool,
    /// The RGBA bytes of the readback texture, top row first.
    pub readback: Seq<u8>,
    /// The width of the readback texture, in pixels.
    pub readback_width: u32,
    /// The height of the readback texture, in pixels.
    pub readback_height: u32,
    /// The RGB bytes, width and height of a readback in flight, if any.
    pub pending_readback: Option<(Seq<u8>, u32, u32)>,
}

/// A window for native applications, or a canvas for web applications: what it
/// knows of its size, presentation settings, input and read-back image. The
/// host windowing system feeds it events and carries out what its settings ask.
pub struct Canvas {
    width: u32,
    height: u32,
    sample_count: u32,
    vsync: bool,
    title: String,
    visible: bool,
    cursor_grabbed: bool,
    cursor_hidden: bool,
    fullscreen: bool,
    keyboard_visible: bool,
    modifiers: Modifiers,
    input: InputState,
    pending: Vec<PlatformEvent>,
    out_events: Vec<WindowEvent>,
    dropped_files: Vec<String>,
    readback: Vec<u8>,
    readback_width: u32,
    readback_height: u32,
    pending_readback: Option<(Vec<u8>, u32, u32)>,
}

impl Canvas {
    /// Whether the canvas's tables are consistent.
    pub closed spec fn wf(&self) -> bool {
        &&& self.input.wf()
        &&& self.readback@.len() == self.readback_width * self.readback_height * 4
    }

    /// The presentation settings and read-back image of the canvas.
    pub closed spec fn settings(&self) -> CanvasSettings {
        CanvasSettings {
            sample_count: self.sample_count,
            vsync: self.vsync,
            title: self.title@,
            visible: self.visible,
            cursor_grabbed: self.cursor_grabbed,
            cursor_hidden: self.cursor_hidden,
            fullscreen: self.fullscreen,
            keyboard_visible: self.keyboard_visible,
            readback: self.readback@,
            readback_width: self.readback_width,
            readback_height: self.readback_height,
            pending_readback: match &self.pending_readback {
                Some((bytes, w, h)) => Some((bytes@, *w, *h)),
                None => None,
            },
        }
    }

    /// The events delivered by the windowing system and not polled yet, oldest
    /// first.
    pub closed spec fn spec_pending(&self) -> Seq<PlatformEvent> {
        self.pending@
    }

    /// The state that polling reads and changes.
    pub closed spec fn poll_state(&self) -> PollState {
        PollState {
            width: self.width,
            height: self.height,
            modifiers: self.modifiers,
            keys: |k: Key| self.input.key_state(k),
            buttons: |b: MouseButton| self.input.button_state(b),
            events: self.out_events@,
            dropped: self.dropped_files@,
        }
    }

    /// Whether `self` and `other` agree on everything but the state that
    /// polling changes and the events waiting to be polled.
    pub open spec fn same_settings(&self, other: &Canvas) -> bool {
        self.settings() == other.settings()
    }

    /// Opens a canvas of the given size: a visible window, or a hidden one for
    /// off-screen rendering. Vsync and the number of samples come from
    /// `canvas_setup` (default: vsync on, four samples).
    pub fn open(width: u32, height: u32, canvas_setup: Option<CanvasSetup>, title: &str, visible: bool) -> (r: Canvas)
        ensures
            r.wf(),
            r.poll_state().width == width,
            r.poll_state().height == height,
            r.settings().vsync == (match canvas_setup {
                Some(s) => s.vsync,
                None => true,
            }),
            r.settings().sample_count == (match canvas_setup {
                Some(s) => s.samples.spec_count(),
                None => 4,
            }),
            r.settings().title == title@,
            r.settings().visible == visible,
            !r.settings().cursor_grabbed && !r.settings().cursor_hidden,
            !r.settings().fullscreen && !r.settings().keyboard_visible,
            r.poll_state().modifiers == Modifiers::empty_spec(),
            forall|k: Key| #[trigger] (r.poll_state().keys)(k) == Action::Release,
            forall|b: MouseButton| #[trigger] (r.poll_state().buttons)(b) == Action::Release,
            r.spec_pending().len() == 0,
            r.poll_state().events.len() == 0,
            r.poll_state().dropped.len() == 0,
            r.settings().readback.len() == 0,
            r.settings().readback_width == 0 && r.settings().readback_height == 0,
            r.settings().pending_readback is None,
    {
        let (vsync, samples) = match canvas_setup {
            Some(s) => (s.vsync, s.samples),
            None => (true, NumSamples::Four),
        };
        Canvas {
            width,
            height,
            sample_count: samples.count(),
            vsync,
            title: String::from_str(title),
            visible,
            cursor_grabbed: false,
            cursor_hidden: false,
            fullscreen: false,
            keyboard_visible: false,
            modifiers: Modifiers::empty(),
            input: InputState::new(),
            pending: Vec::new(),
            out_events: Vec::new(),
            dropped_files: Vec::new(),
            readback: Vec::new(),
            readback_width: 0,
            readback_height: 0,
            pending_readback: None,
        }
    }

    /// Hands the canvas an event from the windowing system, to be handled at
    /// the next poll.
    pub fn push_platform_event(&mut self, event: PlatformEvent)
        requires
            old(self).wf(),
        ensures
            final(self).wf(),
            final(self).spec_pending() == old(self).spec_pending().push(event),
            final(self).poll_state() == old(self).poll_state(),
            final(self).same_settings(old(self)),
    {
        self.pending.push(event);
        proof {
            assert(self.poll_state() =~= old(self).poll_state());
        }
    }

    fn handle_event(&mut self, event: &PlatformEvent)
        requires
            old(self).wf(),
        ensures
            final(self).wf(),
            final(self).poll_state() == step(old(self).poll_state(), *event),
            final(self).spec_pending() == old(self).spec_pending(),
            final(self).same_settings(old(self)),
    {
        let ghost s0 = self.poll_state();
        match event {
            PlatformEvent::CloseRequested => {
                self.out_events.push(WindowEvent::Close);
                assert(self.poll_state() =~= step(s0, *event));
            },
            PlatformEvent::Resized(w, h) => {
                if *w > 0 && *h > 0 {
                    self.width = *w;
                    self.height = *h;
                    self.out_events.push(WindowEvent::FramebufferSize(*w, *h));
                }
                assert(self.poll_state() =~= step(s0, *event));
            },
            PlatformEvent::MouseInput(b, a) => {
                self.input.set_mouse_button(*b, *a);
                self.out_events.push(WindowEvent::MouseButton(*b, *a, self.modifiers));
                let ghost s1 = step(s0, *event);
                assert(self.poll_state().keys =~= s1.keys);
                assert(self.poll_state().buttons =~= s1.buttons);
                assert(self.poll_state() =~= s1);
            },
            PlatformEvent::KeyboardInput(k, a, chars) => {
                self.input.set_key(*k, *a);
                self.out_events.push(WindowEvent::Key(*k, *a, self.modifiers));
                let mut typed = typed_events(chars);
                self.out_events.append(&mut typed);
                let ghost s1 = step(s0, *event);
                assert(self.poll_state().keys =~= s1.keys);
                assert(self.poll_state().buttons =~= s1.buttons);
                assert(self.poll_state() =~= s1);
            },
            PlatformEvent::ModifiersChanged(m) => {
                self.modifiers = *m;
                assert(self.poll_state() =~= step(s0, *event));
            },
            PlatformEvent::DroppedFile(path) => {
                self.dropped_files.push(path.clone());
                assert(self.poll_state() =~= step(s0, *event));
            },
        }
    }

    /// Handles every event the windowing system delivered since the last
    /// call, oldest first: the state of keys and buttons, the modifiers and the
    /// size are updated, and the resulting window events are queued.
    pub fn poll_events(&mut self)
        requires
            old(self).wf(),
        ensures
            final(self).wf(),
            final(self).poll_state() == run(old(self).poll_state(), old(self).spec_pending()),
            final(self).spec_pending().len() == 0,
            final(self).same_settings(old(self)),
    {
        let mut events: Vec<PlatformEvent> = Vec::new();
        std::mem::swap(&mut events, &mut self.pending);
        let ghost s0 = old(self).poll_state();
        let ghost es = events@;
        assert(self.poll_state() =~= s0);
        let mut i: usize = 0;
        while i < events.len()
            invariant
                self.wf(),
                events@ == es,
                i <= es.len(),
                self.poll_state() == run(s0, es.take(i as int)),
                self.spec_pending().len() == 0,
                self.same_settings(old(self)),
            decreases es.len() - i,
        {
            self.handle_event(&events[i]);
            proof {
                assert(es.take(i as int + 1).drop_last() =~= es.take(i as int));
            }
            i = i + 1;
        }
        proof {
            assert(es.take(es.len() as int) =~= es);
        }
    }

    /// Takes the window events queued by polling, oldest first.
    pub fn take_events(&mut self) -> (r: Vec<WindowEvent>)
        requires
            old(self).wf(),
        ensures
            final(self).wf(),
            r@ == old(self).poll_state().events,
            final(self).poll_state() == (PollState { events: Seq::empty(), ..old(self).poll_state() }),
            final(self).spec_pending() == old(self).spec_pending(),
            final(self).same_settings(old(self)),
    {
        let mut r: Vec<WindowEvent> = Vec::new();
        std::mem::swap(&mut r, &mut self.out_events);
        proof {
            assert(self.poll_state() =~= (PollState { events: Seq::empty(), ..old(self).poll_state() }));
        }
        r
    }

    /// Resizes the canvas render targets.
    pub fn resize(&mut self, width: u32, height: u32)
        requires
            old(self).wf(),
        ensures
            final(self).wf(),
            final(self).poll_state() == (PollState { width, height, ..old(self).poll_state() }),
            final(self).spec_pending() == old(self).spec_pending(),
            final(self).same_settings(old(self)),
    {
        self.width = width;
        self.height = height;
        assert(self.poll_state() =~= (PollState { width, height, ..old(self).poll_state() }));
    }

    /// The size of the window, in physical pixels.
    pub fn size(&self) -> (r: (u32, u32))
        ensures
            r == (self.poll_state().width, self.poll_state().height),
    {
        (self.width, self.height)
    }

    /// The number of samples for multisample anti-aliasing.
    pub fn sample_count(&self) -> (r: u32)
        ensures
            r == self.settings().sample_count,
    {
        self.sample_count
    }

    /// Sets the number of samples for multisample anti-aliasing. Takes effect on
    /// the next rendered frame.
    pub fn set_samples(&mut self, samples: NumSamples)
        ensures
            final(self).settings() == (CanvasSettings { sample_count: samples.spec_count(), ..old(self).settings() }),
            final(self).poll_state() == old(self).poll_state(),
            final(self).spec_pending() == old(self).spec_pending(),
            final(self).wf() == old(self).wf(),
    {
        self.sample_count = samples.count();
        assert(self.settings() =~= (CanvasSettings { sample_count: samples.spec_count(), ..old(self).settings() }));
        assert(self.poll_state() =~= old(self).poll_state());
    }

    /// Whether vsync is enabled.
    pub fn vsync(&self) -> (r: bool)
        ensures
            r == self.settings().vsync,
    {
        self.vsync
    }

    /// Enables or disables vsync.
    pub fn set_vsync(&mut self, enabled: bool)
        ensures
            final(self).settings() == (CanvasSettings { vsync: enabled, ..old(self).settings() }),
            final(self).poll_state() == old(self).poll_state(),
            final(self).spec_pending() == old(self).spec_pending(),
            final(self).wf() == old(self).wf(),
    {
        self.vsync = enabled;
        assert(self.settings() =~= (CanvasSettings { vsync: enabled, ..old(self).settings() }));
        assert(self.poll_state() =~= old(self).poll_state());
    }

    /// The window title.
    pub fn title(&self) -> (r: &str)
        ensures
            r@ == self.settings().title,
    {
        self.title.as_str()
    }

    /// Sets the window title.
    pub fn set_title(&mut self, title: &str)
        ensures
            final(self).settings() == (CanvasSettings { title: title@, ..old(self).settings() }),
            final(self).poll_state() == old(self).poll_state(),
            final(self).spec_pending() == old(self).spec_pending(),
            final(self).wf() == old(self).wf(),
    {
        self.title = String::from_str(title);
        assert(self.settings() =~= (CanvasSettings { title: title@, ..old(self).settings() }));
        assert(self.poll_state() =~= old(self).poll_state());
    }

    /// Confines the cursor to the window, or releases it.
    pub fn set_cursor_grab(&mut self, grab: bool)
        ensures
            final(self).settings() == (CanvasSettings { cursor_grabbed: grab, ..old(self).settings() }),
            final(self).poll_state() == old(self).poll_state(),
            final(self).spec_pending() == old(self).spec_pending(),
            final(self).wf() == old(self).wf(),
    {
        self.cursor_grabbed = grab;
        assert(self.settings() =~= (CanvasSettings { cursor_grabbed: grab, ..old(self).settings() }));
        assert(self.poll_state() =~= old(self).poll_state());
    }

    /// Whether the cursor is confined to the window.
    pub fn is_cursor_grabbed(&self) -> (r: bool)
        ensures
            r == self.settings().cursor_grabbed,
    {
        self.cursor_grabbed
    }

    /// Enters or leaves borderless fullscreen on the current monitor.
    pub fn set_fullscreen(&mut self, fullscreen: bool)
        ensures
            final(self).settings() == (CanvasSettings { fullscreen, ..old(self).settings() }),
            final(self).poll_state() == old(self).poll_state(),
            final(self).spec_pending() == old(self).spec_pending(),
            final(self).wf() == old(self).wf(),
    {
        self.fullscreen = fullscreen;
        assert(self.settings() =~= (CanvasSettings { fullscreen, ..old(self).settings() }));
        assert(self.poll_state() =~= old(self).poll_state());
    }

    /// Whether the window is in borderless fullscreen.
    pub fn is_fullscreen(&self) -> (r: bool)
        ensures
            r == self.settings().fullscreen,
    {
        self.fullscreen
    }

    /// Shows or hides the platform's on-screen keyboard.
    pub fn set_keyboard_visible(&mut self, visible: bool)
        ensures
            final(self).settings() == (CanvasSettings { keyboard_visible: visible, ..old(self).settings() }),
            final(self).poll_state() == old(self).poll_state(),
            final(self).spec_pending() == old(self).spec_pending(),
            final(self).wf() == old(self).wf(),
    {
        self.keyboard_visible = visible;
        assert(self.settings() =~= (CanvasSettings { keyboard_visible: visible, ..old(self).settings() }));
        assert(self.poll_state() =~= old(self).poll_state());
    }

    /// Whether the on-screen keyboard is shown.
    pub fn is_keyboard_visible(&self) -> (r: bool)
        ensures
            r == self.settings().keyboard_visible,
    {
        self.keyboard_visible
    }

    /// Hides the cursor, or shows it again.
    pub fn hide_cursor(&mut self, hide: bool)
        ensures
            final(self).settings() == (CanvasSettings { cursor_hidden: hide, ..old(self).settings() }),
            final(self).poll_state() == old(self).poll_state(),
            final(self).spec_pending() == old(self).spec_pending(),
            final(self).wf() == old(self).wf(),
    {
        self.cursor_hidden = hide;
        assert(self.settings() =~= (CanvasSettings { cursor_hidden: hide, ..old(self).settings() }));
        assert(self.poll_state() =~= old(self).poll_state());
    }

    /// Whether the cursor is hidden.
    pub fn is_cursor_hidden(&self) -> (r: bool)
        ensures
            r == self.settings().cursor_hidden,
    {
        self.cursor_hidden
    }

    /// Hides the window.
    pub fn hide_window(&mut self)
        ensures
            final(self).settings() == (CanvasSettings { visible: false, ..old(self).settings() }),
            final(self).poll_state() == old(self).poll_state(),
            final(self).spec_pending() == old(self).spec_pending(),
            final(self).wf() == old(self).wf(),
    {
        self.visible = false;
        assert(self.settings() =~= (CanvasSettings { visible: false, ..old(self).settings() }));
        assert(self.poll_state() =~= old(self).poll_state());
    }

    /// Shows the window.
    pub fn show(&mut self)
        ensures
            final(self).settings() == (CanvasSettings { visible: true, ..old(self).settings() }),
            final(self).poll_state() == old(self).poll_state(),
            final(self).spec_pending() == old(self).spec_pending(),
            final(self).wf() == old(self).wf(),
    {
        self.visible = true;
        assert(self.settings() =~= (CanvasSettings { visible: true, ..old(self).settings() }));
        assert(self.poll_state() =~= old(self).poll_state());
    }

    /// Whether the window is shown.
    pub fn is_visible(&self) -> (r: bool)
        ensures
            r == self.settings().visible,
    {
        self.visible
    }

    /// Takes the files dropped onto the window since the last call, in drop
    /// order.
    pub fn take_dropped_files(&mut self) -> (r: Vec<String>)
        requires
            old(self).wf(),
        ensures
            final(self).wf(),
            r@ == old(self).poll_state().dropped,
            final(self).poll_state() == (PollState { dropped: Seq::empty(), ..old(self).poll_state() }),
            final(self).spec_pending() == old(self).spec_pending(),
            final(self).same_settings(old(self)),
    {
        let mut r: Vec<String> = Vec::new();
        std::mem::swap(&mut r, &mut self.dropped_files);
        assert(self.poll_state() =~= (PollState { dropped: Seq::empty(), ..old(self).poll_state() }));
        r
    }

    /// The state of a mouse button.
    pub fn get_mouse_button(&self, button: MouseButton) -> (r: Action)
        requires
            self.wf(),
        ensures
            r == (self.poll_state().buttons)(button),
    {
        self.input.get_mouse_button(button)
    }

    /// The state of a key.
    pub fn get_key(&self, key: Key) -> (r: Action)
        requires
            self.wf(),
        ensures
            r == (self.poll_state().keys)(key),
    {
        self.input.get_key(key)
    }

    /// Replaces the readback texture by the `width` x `height` RGBA image
    /// `rgba`, top row first, as a copy of the rendered frame.
    pub fn copy_to_readback(&mut self, rgba: Vec<u8>, width: u32, height: u32)
        requires
            old(self).wf(),
            rgba@.len() == width * height * 4,
        ensures
            final(self).wf(),
            final(self).settings() == (CanvasSettings {
                readback: rgba@,
                readback_width: width,
                readback_height: height,
                ..old(self).settings()
            }),
            final(self).poll_state() == old(self).poll_state(),
            final(self).spec_pending() == old(self).spec_pending(),
    {
        self.readback = rgba;
        self.readback_width = width;
        self.readback_height = height;
        assert(self.settings() =~= (CanvasSettings {
            readback: rgba@,
            readback_width: width,
            readback_height: height,
            ..old(self).settings()
        }));
        assert(self.poll_state() =~= old(self).poll_state());
    }

    /// The RGB bytes of the `w` x `h` rectangle at `(x, y)` of the readback
    /// texture, top row first.
    fn rgb_rect(&self, x: usize, y: usize, w: usize, h: usize) -> (out: Vec<u8>)
        requires
            self.wf(),
            x + w <= self.readback_width,
            y + h <= self.readback_height,
        ensures
            is_rgb_rect_of(out@, self.readback@, self.readback_width as int, x as int, y as int, w as int, h as int),
    {
        let rw: usize = self.readback_width as usize;
        let rh: usize = self.readback_height as usize;
        let ghost src = self.readback@;
        let n: usize = self.readback.len();
        let mut out: Vec<u8> = Vec::new();
        let mut r: usize = 0;
        while r < h
            invariant
                x + w <= rw,
                y + h <= rh,
                src == self.readback@,
                src.len() == rw * rh * 4,
                n == src.len(),
                rw == self.readback_width,
                r <= h,
                out@.len() == at(r as int, 0, w as int) * 3,
                forall|r2: int, c2: int, ch: int|
                    0 <= r2 < r && 0 <= c2 < w && 0 <= ch < 3 ==> #[trigger] out@[at(r2, c2, w as int) * 3 + ch]
                        == src[at(y + r2, x + c2, rw as int) * 4 + ch],
            decreases h - r,
        {
            let mut c: usize = 0;
            while c < w
                invariant
                    x + w <= rw,
                    y + h <= rh,
                    src == self.readback@,
                    src.len() == rw * rh * 4,
                    n == src.len(),
                    rw == self.readback_width,
                    r < h,
                    c <= w,
                    out@.len() == at(r as int, c as int, w as int) * 3,
                    forall|r2: int, c2: int, ch: int|
                        0 <= r2 && 0 <= c2 < w && 0 <= ch < 3 && (r2 < r || (r2 == r && c2 < c))
                            ==> #[trigger] out@[at(r2, c2, w as int) * 3 + ch]
                            == src[at(y + r2, x + c2, rw as int) * 4 + ch],
                decreases w - c,
            {
                proof {
                    lemma_at_bounds(y + r, x + c, rw as int, rh as int);
                    lemma_at_bounds(r as int, c as int, w as int, h as int);
                }
                assert(((y + r) * rw + (x + c)) * 4 + 3 <= n) by (nonlinear_arith)
                    requires
                        at(y + r, x + c, rw as int) < rw * rh,
                        n == rw * rh * 4,
                        at(y + r, x + c, rw as int) == (y + r) * rw + (x + c),
                ;
                let base: usize = ((y + r) * rw + (x + c)) * 4;
                let ghost before = out@;
                out.push(self.readback[base]);
                out.push(self.readback[base + 1]);
                out.push(self.readback[base + 2]);
                proof {
                    assert forall|r2: int, c2: int, ch: int|
                        0 <= r2 && 0 <= c2 < w && 0 <= ch < 3 && (r2 < r || (r2 == r && c2 < c + 1))
                            implies #[trigger] out@[at(r2, c2, w as int) * 3 + ch]
                            == src[at(y + r2, x + c2, rw as int) * 4 + ch] by {
                        if r2 == r && c2 == c {
                        } else {
                            lemma_rect_before(r2, c2, r as int, c as int, w as int);
                        }
                    }
                }
                c = c + 1;
            }
            assert(at(r as int, w as int, w as int) == at(r as int + 1, 0, w as int)) by (nonlinear_arith);
            r = r + 1;
        }
        out
    }

    /// Reads the `width` x `height` rectangle at `(x, y)` of the readback
    /// texture into `out`, as RGB with three bytes per pixel, top row first.
    pub fn read_pixels(&self, out: &mut Vec<u8>, x: usize, y: usize, width: usize, height: usize)
        requires
            self.wf(),
            x + width <= self.settings().readback_width,
            y + height <= self.settings().readback_height,
        ensures
            is_rgb_rect_of(
                final(out)@,
                self.settings().readback,
                self.settings().readback_width as int,
                x as int,
                y as int,
                width as int,
                height as int,
            ),
    {
        *out = self.rgb_rect(x, y, width, height);
    }

    /// Starts a readback of the `width` x `height` rectangle at `(x, y)` of the
    /// readback texture, as it is now; complete it with
    /// [`Self::finish_read_pixels`]. A readback already in flight is replaced.
    pub fn begin_read_pixels(&mut self, x: usize, y: usize, width: usize, height: usize)
        requires
            old(self).wf(),
            x + width <= old(self).settings().readback_width,
            y + height <= old(self).settings().readback_height,
        ensures
            final(self).wf(),
            final(self).poll_state() == old(self).poll_state(),
            final(self).spec_pending() == old(self).spec_pending(),
            final(self).settings().pending_readback matches Some((bytes, w, h)) && w == width && h == height
                && is_rgb_rect_of(
                bytes,
                old(self).settings().readback,
                old(self).settings().readback_width as int,
                x as int,
                y as int,
                width as int,
                height as int,
            ),
            final(self).settings() == (CanvasSettings {
                pending_readback: final(self).settings().pending_readback,
                ..old(self).settings()
            }),
    {
        let bytes = self.rgb_rect(x, y, width, height);
        self.pending_readback = Some((bytes, width as u32, height as u32));
        assert(self.settings() =~= (CanvasSettings {
            pending_readback: self.settings().pending_readback,
            ..old(self).settings()
        }));
        assert(self.poll_state() =~= old(self).poll_state());
    }

    /// Completes a readback started by [`Self::begin_read_pixels`]: writes its
    /// RGB bytes into `out` and returns its `(width, height)`, or returns `None`
    /// and leaves `out` alone when no readback is in flight.
    pub fn finish_read_pixels(&mut self, out: &mut Vec<u8>) -> (r: Option<(u32, u32)>)
        requires
            old(self).wf(),
        ensures
            final(self).wf(),
            final(self).poll_state() == old(self).poll_state(),
            final(self).spec_pending() == old(self).spec_pending(),
            final(self).settings() == (CanvasSettings { pending_readback: None, ..old(self).settings() }),
            match old(self).settings().pending_readback {
                Some((bytes, w, h)) => r == Some((w, h)) && final(out)@ == bytes,
                None => r is None && final(out)@ == old(out)@,
            },
    {
        let mut taken: Option<(Vec<u8>, u32, u32)> = None;
        std::mem::swap(&mut taken, &mut self.pending_readback);
        assert(self.settings() =~= (CanvasSettings { pending_readback: None, ..old(self).settings() }));
        assert(self.poll_state() =~= old(self).poll_state());
        match taken {
            Some((bytes, w, h)) => {
                *out = bytes;
                Some((w, h))
            },
            None => None,
        }
    }
}

/// A position of the rectangle written before `(r, c)` comes before it.
proof fn lemma_rect_before(r2: int, c2: int, r: int, c: int, w: int)
    by (nonlinear_arith)
    requires
        0 <= r2,
        0 <= c2 < w,
        0 <= c < w,
        r2 < r || (r2 == r && c2 < c),
    ensures
        at(r2, c2, w) < at(r, c, w),
{
    if r2 < r {
        assert(r2 * w + w <= r * w);
    }
}

} // verus!
