use vstd::prelude::*;

verus! {

/// Nominal duration of one frame, in nanoseconds: the simulated clock
/// advances by exactly this step each loop iteration, one display refresh at
/// a sixtieth of a second.
pub const FRAME_STEP_NANOS: u64 = 16666667;

/// The key code of the designated cancel key: a press of it requests that
/// the event loop terminate.
pub const CANCEL_KEY: i32 = 256;

/// The framebuffer clear color. Each channel holds the bit pattern of an
/// IEEE-754 single-precision value, red, green, blue and alpha in turn;
/// the engine never interprets the bits, it hands them to the backend.
#[derive(Clone, Copy, PartialEq, Eq, Structural, Debug)]
pub struct ClearColor {
    pub r_bits: u32,
    pub g_bits: u32,
    pub b_bits: u32,
    pub a_bits: u32,
}

/// What happened to the key or button an input event reports.
#[derive(Clone, Copy, PartialEq, Eq, Structural, Debug)]
pub enum InputAction {
    Press,
    Release,
    Repeat,
}

/// One input event handed to the loop by the windowing backend. Scroll
/// offsets carry the bit patterns of IEEE-754 double-precision values; the
/// engine forwards them untouched.
#[derive(Clone, Copy, PartialEq, Eq, Structural, Debug)]
pub enum InputEvent {
    Key { key: i32, scancode: i32, action: InputAction, mods: i32 },
    MouseButton { button: i32, action: InputAction, mods: i32 },
    Scroll { x_offset_bits: u64, y_offset_bits: u64 },
    Other,
}

/// The states of the render/event loop.
#[derive(Clone, Copy, PartialEq, Eq, Structural, Debug)]
pub enum LoopState {
    Running,
    ClosePending,
    Closed,
}

/// How the loop routed one input event.
#[derive(Clone, Copy, PartialEq, Eq, Structural, Debug)]
pub enum DispatchOutcome {
    /// The event was a press of the cancel key: the loop will terminate at
    /// the next iteration boundary, and no per-key callback was invoked.
    CloseRequested,
    /// A registered per-key callback was invoked.
    KeyDelivered,
    /// A registered per-button callback was invoked.
    MouseButtonDelivered,
    /// The registered scroll callback was invoked.
    ScrollDelivered,
    /// No callback matched; the event was dropped silently.
    Dropped,
}

/// Per-frame scene logic plugged into a window: invoked synchronously once
/// per loop iteration with the current simulated timestamp in nanoseconds.
/// The implementor owns every graphics resource it uses and must rebind
/// whatever bindings it needs on each call.
pub trait Drawable {
    fn draw(&mut self, timestamp_nanos: u64);
}

/// A callback registered for one key; it may mutate its own captured state
/// across invocations.
pub trait KeyCallback {
    fn on_key(&mut self, key: i32, scancode: i32, action: InputAction, mods: i32);
}

/// A callback registered for one mouse button; it may mutate its own
/// captured state across invocations.
pub trait MouseButtonCallback {
    fn on_mouse_button(&mut self, button: i32, action: InputAction, mods: i32);
}

/// The single scroll callback; offsets are IEEE-754 double bit patterns.
pub trait ScrollCallback {
    fn on_scroll(&mut self, x_offset_bits: u64, y_offset_bits: u64);
}

/// The windowing/graphics side of one loop iteration, supplied by the
/// embedding program: clearing the framebuffer, presenting the finished
/// frame, and polling the native event queue.
pub trait RenderBackend {
    fn clear(&mut self, color: ClearColor);

    fn present(&mut self);

    fn poll_events(&mut self) -> Vec<InputEvent>;
}

/// No key occurs twice in a routing table's key sequence.
pub open spec fn keys_unique(s: Seq<i32>) -> bool {
    forall|k1: int, k2: int| 0 <= k1 < k2 < s.len() ==> s[k1] != s[k2]
}

/// Whether `e` is a press of the designated cancel key.
pub open spec fn is_cancel_press(e: InputEvent) -> bool {
    match e {
        InputEvent::Key { key, action, .. } => key == CANCEL_KEY && action == InputAction::Press,
        _ => false,
    }
}

/// A window: fixed surface size, a clear color, the simulated clock, the
/// loop state, a single owned drawable slot, and the event-routing tables.
/// The drawable slot is dynamically dispatched; the callback tables carry
/// one callback type each, which may itself be a boxed trait object.
pub struct Window<K: KeyCallback, M: MouseButtonCallback, S: ScrollCallback> {
    pub width: u32,
    pub height: u32,
    bg_col: ClearColor,
    current_ts_nanos: u64,
    state: LoopState,
    draw_object: Option<Box<dyn Drawable>>,
    key_event_callbacks: Vec<(i32, K)>,
    mouse_button_callbacks: Vec<(i32, M)>,
    scroll_callback: Option<S>,
}

/// Scans a routing table for the entry registered under `key`.
fn find_pos<T>(v: &Vec<(i32, T)>, key: i32) -> (pos: Option<usize>)
    ensures
        match pos {
            Some(p) => p < v@.len() && (#[trigger] v@[p as int]).0 == key,
            None => forall|j: int| 0 <= j < v@.len() ==> (#[trigger] v@[j]).0 != key,
        },
{
    let n = v.len();
    let mut k: usize = 0;
    while k < n
        invariant
            n == v@.len(),
            k <= n,
            forall|j: int| 0 <= j < k ==> (#[trigger] v@[j]).0 != key,
        decreases n - k,
    {
        if v[k].0 == key {
            return Some(k);
        }
        k += 1;
    }
    None
}

impl<K: KeyCallback, M: MouseButtonCallback, S: ScrollCallback> Window<K, M, S> {
    /// The surface width, fixed at creation.
    pub closed spec fn spec_width(self) -> u32 {
        self.width
    }

    /// The surface height, fixed at creation.
    pub closed spec fn spec_height(self) -> u32 {
        self.height
    }

    /// The current clear color.
    pub closed spec fn bg_col(self) -> ClearColor {
        self.bg_col
    }

    /// The simulated timestamp, in nanoseconds since the window was made.
    pub closed spec fn timestamp_nanos(self) -> u64 {
        self.current_ts_nanos
    }

    /// The state of the render/event loop.
    pub closed spec fn loop_state(self) -> LoopState {
        self.state
    }

    /// Whether the drawable slot is occupied.
    pub closed spec fn has_draw_object(self) -> bool {
        self.draw_object is Some
    }

    /// The keys with a registered callback, in registration order.
    pub closed spec fn key_table_keys(self) -> Seq<i32> {
        self.key_event_callbacks@.map_values(|e: (i32, K)| e.0)
    }

    /// The mouse buttons with a registered callback, in registration order.
    pub closed spec fn mouse_table_buttons(self) -> Seq<i32> {
        self.mouse_button_callbacks@.map_values(|e: (i32, M)| e.0)
    }

    /// Whether a callback is registered for `key`.
    pub open spec fn key_registered(self, key: i32) -> bool {
        self.key_table_keys().contains(key)
    }

    /// Whether a callback is registered for `button`.
    pub open spec fn mouse_registered(self, button: i32) -> bool {
        self.mouse_table_buttons().contains(button)
    }

    /// Whether the single scroll callback slot is occupied.
    pub closed spec fn has_scroll_callback(self) -> bool {
        self.scroll_callback is Some
    }

    /// Each routing table holds at most one callback per key or button.
    pub open spec fn wf(self) -> bool {
        keys_unique(self.key_table_keys()) && keys_unique(self.mouse_table_buttons())
    }

    /// Whether `other` keeps this window's configuration: the surface
    /// size, the clear color, the drawable slot's occupancy and the
    /// registered callbacks — everything the loop only reads.
    pub open spec fn same_configuration(self, other: Window<K, M, S>) -> bool {
        &&& other.spec_width() == self.spec_width()
        &&& other.spec_height() == self.spec_height()
        &&& other.bg_col() == self.bg_col()
        &&& other.has_draw_object() == self.has_draw_object()
        &&& other.key_table_keys() == self.key_table_keys()
        &&& other.mouse_table_buttons() == self.mouse_table_buttons()
        &&& other.has_scroll_callback() == self.has_scroll_callback()
    }

    /// How the loop will route `e`: a cancel-key press always requests
    /// close and is never given to a per-key callback; any other event goes
    /// to its registered callback if one exists and is dropped otherwise.
    pub open spec fn spec_dispatch_outcome(self, e: InputEvent) -> DispatchOutcome {
        if is_cancel_press(e) {
            DispatchOutcome::CloseRequested
        } else {
            match e {
                InputEvent::Key { key, .. } => if self.key_registered(key) {
                    DispatchOutcome::KeyDelivered
                } else {
                    DispatchOutcome::Dropped
                },
                InputEvent::MouseButton { button, .. } => if self.mouse_registered(button) {
                    DispatchOutcome::MouseButtonDelivered
                } else {
                    DispatchOutcome::Dropped
                },
                InputEvent::Scroll { .. } => if self.has_scroll_callback() {
                    DispatchOutcome::ScrollDelivered
                } else {
                    DispatchOutcome::Dropped
                },
                InputEvent::Other => DispatchOutcome::Dropped,
            }
        }
    }

    /// Creates a window of the given size: clock at zero, loop running,
    /// black transparent clear color, no drawable, empty routing tables.
    /// The native surface belongs to the embedding program.
    pub fn new(width: u32, height: u32) -> (w: Window<K, M, S>)
        ensures
            w.wf(),
            w.spec_width() == width,
            w.spec_height() == height,
            w.bg_col() == (ClearColor { r_bits: 0, g_bits: 0, b_bits: 0, a_bits: 0 }),
            w.timestamp_nanos() == 0,
            w.loop_state() == LoopState::Running,
            !w.has_draw_object(),
            w.key_table_keys() == Seq::<i32>::empty(),
            w.mouse_table_buttons() == Seq::<i32>::empty(),
            !w.has_scroll_callback(),
    {
        let w = Window {
            width,
            height,
            bg_col: ClearColor { r_bits: 0, g_bits: 0, b_bits: 0, a_bits: 0 },
            current_ts_nanos: 0,
            state: LoopState::Running,
            draw_object: None,
            key_event_callbacks: Vec::new(),
            mouse_button_callbacks: Vec::new(),
            scroll_callback: None,
        };
        proof {
            assert(w.key_table_keys() =~= Seq::<i32>::empty());
            assert(w.mouse_table_buttons() =~= Seq::<i32>::empty());
        }
        w
    }

    /// Sets the clear color used at the start of every following iteration.
    pub fn set_bg_col(&mut self, col: ClearColor)
        ensures
            final(self).bg_col() == col,
            final(self).wf() == old(self).wf(),
            final(self).spec_width() == old(self).spec_width(),
            final(self).spec_height() == old(self).spec_height(),
            final(self).timestamp_nanos() == old(self).timestamp_nanos(),
            final(self).loop_state() == old(self).loop_state(),
            final(self).has_draw_object() == old(self).has_draw_object(),
            final(self).key_table_keys() == old(self).key_table_keys(),
            final(self).mouse_table_buttons() == old(self).mouse_table_buttons(),
            final(self).has_scroll_callback() == old(self).has_scroll_callback(),
    {
        self.bg_col = col;
    }

    /// Hands a drawable to the window's single slot, which owns it
    /// exclusively: any drawable held before is dropped here and can never
    /// be invoked by a later iteration.
    pub fn set_draw_object(&mut self, draw_object: Box<dyn Drawable>)
        ensures
            final(self).has_draw_object(),
            final(self).wf() == old(self).wf(),
            final(self).spec_width() == old(self).spec_width(),
            final(self).spec_height() == old(self).spec_height(),
            final(self).bg_col() == old(self).bg_col(),
            final(self).timestamp_nanos() == old(self).timestamp_nanos(),
            final(self).loop_state() == old(self).loop_state(),
            final(self).key_table_keys() == old(self).key_table_keys(),
            final(self).mouse_table_buttons() == old(self).mouse_table_buttons(),
            final(self).has_scroll_callback() == old(self).has_scroll_callback(),
    {
        self.draw_object = Some(draw_object);
    }

    /// Registers `callback` for `event_type`, replacing a callback held for
    /// that key before; other registrations are untouched.
    pub fn set_key_event_callback(&mut self, event_type: i32, callback: K)
        requires
            old(self).wf(),
        ensures
            final(self).wf(),
            final(self).key_registered(event_type),
            forall|k: i32|
                k != event_type ==> final(self).key_registered(k) == old(self).key_registered(k),
            final(self).spec_width() == old(self).spec_width(),
            final(self).spec_height() == old(self).spec_height(),
            final(self).bg_col() == old(self).bg_col(),
            final(self).timestamp_nanos() == old(self).timestamp_nanos(),
            final(self).loop_state() == old(self).loop_state(),
            final(self).has_draw_object() == old(self).has_draw_object(),
            final(self).mouse_table_buttons() == old(self).mouse_table_buttons(),
            final(self).has_scroll_callback() == old(self).has_scroll_callback(),
    {
        let ghost before = self.key_table_keys();
        let pos = find_pos(&self.key_event_callbacks, event_type);
        match pos {
            Some(p) => {
                self.key_event_callbacks[p] = (event_type, callback);
                proof {
                    assert(self.key_table_keys() =~= before);
                    assert(self.key_table_keys().contains(event_type)) by {
                        assert(self.key_table_keys()[p as int] == event_type);
                    }
                }
            },
            None => {
                self.key_event_callbacks.push((event_type, callback));
                proof {
                    let after = self.key_table_keys();
                    assert(after =~= before.push(event_type));
                    assert(after.contains(event_type)) by {
                        assert(after[before.len() as int] == event_type);
                    }
                    assert forall|k: i32| k != event_type implies after.contains(k)
                        == before.contains(k) by {
                        if before.contains(k) {
                            let j = choose|j: int| 0 <= j < before.len() && before[j] == k;
                            assert(after[j] == k);
                            assert(after.contains(k));
                        } else if after.contains(k) {
                            let j = choose|j: int| 0 <= j < after.len() && after[j] == k;
                            assert(before[j] == k);
                            assert(before.contains(k));
                        }
                    }
                    assert forall|k1: int, k2: int|
                        0 <= k1 < k2 < after.len() implies after[k1] != after[k2] by {
                        if k2 == before.len() {
                            assert(after[k1] == before[k1]);
                        } else {
                            assert(after[k1] == before[k1] && after[k2] == before[k2]);
                        }
                    }
                }
            },
        }
    }

    /// Registers `callback` for `event_type`, replacing a callback held for
    /// that button before; other registrations are untouched.
    pub fn set_mouse_button_callback(&mut self, event_type: i32, callback: M)
        requires
            old(self).wf(),
        ensures
            final(self).wf(),
            final(self).mouse_registered(event_type),
            forall|b: i32|
                b != event_type ==> final(self).mouse_registered(b) == old(self).mouse_registered(
                    b,
                ),
            final(self).spec_width() == old(self).spec_width(),
            final(self).spec_height() == old(self).spec_height(),
            final(self).bg_col() == old(self).bg_col(),
            final(self).timestamp_nanos() == old(self).timestamp_nanos(),
            final(self).loop_state() == old(self).loop_state(),
            final(self).has_draw_object() == old(self).has_draw_object(),
            final(self).key_table_keys() == old(self).key_table_keys(),
            final(self).has_scroll_callback() == old(self).has_scroll_callback(),
    {
        let ghost before = self.mouse_table_buttons();
        let pos = find_pos(&self.mouse_button_callbacks, event_type);
        match pos {
            Some(p) => {
                self.mouse_button_callbacks[p] = (event_type, callback);
                proof {
                    assert(self.mouse_table_buttons() =~= before);
                    assert(self.mouse_table_buttons().contains(event_type)) by {
                        assert(self.mouse_table_buttons()[p as int] == event_type);
                    }
                }
            },
            None => {
                self.mouse_button_callbacks.push((event_type, callback));
                proof {
                    let after = self.mouse_table_buttons();
                    assert(after =~= before.push(event_type));
                    assert(after.contains(event_type)) by {
                        assert(after[before.len() as int] == event_type);
                    }
                    assert forall|b: i32| b != event_type implies after.contains(b)
                        == before.contains(b) by {
                        if before.contains(b) {
                            let j = choose|j: int| 0 <= j < before.len() && before[j] == b;
                            assert(after[j] == b);
                            assert(after.contains(b));
                        } else if after.contains(b) {
                            let j = choose|j: int| 0 <= j < after.len() && after[j] == b;
                            assert(before[j] == b);
                            assert(before.contains(b));
                        }
                    }
                    assert forall|k1: int, k2: int|
                        0 <= k1 < k2 < after.len() implies after[k1] != after[k2] by {
                        if k2 == before.len() {
                            assert(after[k1] == before[k1]);
                        } else {
                            assert(after[k1] == before[k1] && after[k2] == before[k2]);
                        }
                    }
                }
            },
        }
    }

    /// Installs the single scroll callback, replacing any held before.
    pub fn set_scroll_callback(&mut self, callback: S)
        ensures
            final(self).has_scroll_callback(),
            final(self).wf() == old(self).wf(),
            final(self).spec_width() == old(self).spec_width(),
            final(self).spec_height() == old(self).spec_height(),
            final(self).bg_col() == old(self).bg_col(),
            final(self).timestamp_nanos() == old(self).timestamp_nanos(),
            final(self).loop_state() == old(self).loop_state(),
            final(self).has_draw_object() == old(self).has_draw_object(),
            final(self).key_table_keys() == old(self).key_table_keys(),
            final(self).mouse_table_buttons() == old(self).mouse_table_buttons(),
    {
        self.scroll_callback = Some(callback);
    }

    /// Advances the simulated clock by exactly one nominal frame step; the
    /// step never depends on how long the previous iteration really took.
    pub fn advance_clock(&mut self)
        requires
            old(self).timestamp_nanos() + FRAME_STEP_NANOS <= u64::MAX,
        ensures
            final(self).timestamp_nanos() == old(self).timestamp_nanos() + FRAME_STEP_NANOS,
            final(self).timestamp_nanos() == timestamp_after_frames(
                old(self).timestamp_nanos() as int,
                1,
            ),
            final(self).wf() == old(self).wf(),
            final(self).spec_width() == old(self).spec_width(),
            final(self).spec_height() == old(self).spec_height(),
            final(self).bg_col() == old(self).bg_col(),
            final(self).loop_state() == old(self).loop_state(),
            final(self).has_draw_object() == old(self).has_draw_object(),
            final(self).key_table_keys() == old(self).key_table_keys(),
            final(self).mouse_table_buttons() == old(self).mouse_table_buttons(),
            final(self).has_scroll_callback() == old(self).has_scroll_callback(),
    {
        self.current_ts_nanos = self.current_ts_nanos + FRAME_STEP_NANOS;
    }

    /// Invokes the held drawable, if any, with the current simulated
    /// timestamp; a window without a drawable draws nothing, which is not
    /// an error.
    pub fn draw_current(&mut self)
        ensures
            final(self).wf() == old(self).wf(),
            final(self).spec_width() == old(self).spec_width(),
            final(self).spec_height() == old(self).spec_height(),
            final(self).bg_col() == old(self).bg_col(),
            final(self).timestamp_nanos() == old(self).timestamp_nanos(),
            final(self).loop_state() == old(self).loop_state(),
            final(self).has_draw_object() == old(self).has_draw_object(),
            final(self).key_table_keys() == old(self).key_table_keys(),
            final(self).mouse_table_buttons() == old(self).mouse_table_buttons(),
            final(self).has_scroll_callback() == old(self).has_scroll_callback(),
    {
        let ts = self.current_ts_nanos;
        match &mut self.draw_object {
            Some(d) => d.draw(ts),
            None => {},
        }
    }

    /// Routes one input event: a cancel-key press requests close and takes
    /// precedence over any registered callback for that key; every other
    /// event is delivered to its registered callback or dropped silently.
    pub fn dispatch_event(&mut self, event: InputEvent) -> (outcome: DispatchOutcome)
        requires
            old(self).wf(),
        ensures
            final(self).wf(),
            outcome == old(self).spec_dispatch_outcome(event),
            final(self).loop_state() == if is_cancel_press(event) {
                LoopState::ClosePending
            } else {
                old(self).loop_state()
            },
            final(self).spec_width() == old(self).spec_width(),
            final(self).spec_height() == old(self).spec_height(),
            final(self).bg_col() == old(self).bg_col(),
            final(self).timestamp_nanos() == old(self).timestamp_nanos(),
            final(self).has_draw_object() == old(self).has_draw_object(),
            final(self).key_table_keys() == old(self).key_table_keys(),
            final(self).mouse_table_buttons() == old(self).mouse_table_buttons(),
            final(self).has_scroll_callback() == old(self).has_scroll_callback(),
    {
        match event {
            InputEvent::Key { key, scancode, action, mods } => {
                if key == CANCEL_KEY && action == InputAction::Press {
                    self.state = LoopState::ClosePending;
                    DispatchOutcome::CloseRequested
                } else {
                    let ghost before = self.key_table_keys();
                    let pos = find_pos(&self.key_event_callbacks, key);
                    match pos {
                        Some(p) => {
                            proof {
                                assert(before.contains(key)) by {
                                    assert(before[p as int] == key);
                                }
                            }
                            let entry = &mut self.key_event_callbacks[p];
                            entry.1.on_key(key, scancode, action, mods);
                            proof {
                                assert(self.key_table_keys() =~= before);
                            }
                            DispatchOutcome::KeyDelivered
                        },
                        None => {
                            proof {
                                assert(!before.contains(key)) by {
                                    assert forall|j: int|
                                        0 <= j < before.len() implies before[j] != key by {
                                        assert((self.key_event_callbacks@[j]).0 == before[j]);
                                    }
                                }
                            }
                            DispatchOutcome::Dropped
                        },
                    }
                }
            },
            InputEvent::MouseButton { button, action, mods } => {
                let ghost before = self.mouse_table_buttons();
                let pos = find_pos(&self.mouse_button_callbacks, button);
                match pos {
                    Some(p) => {
                        proof {
                            assert(before.contains(button)) by {
                                assert(before[p as int] == button);
                            }
                        }
                        let entry = &mut self.mouse_button_callbacks[p];
                        entry.1.on_mouse_button(button, action, mods);
                        proof {
                            assert(self.mouse_table_buttons() =~= before);
                        }
                        DispatchOutcome::MouseButtonDelivered
                    },
                    None => {
                        proof {
                            assert(!before.contains(button)) by {
                                assert forall|j: int|
                                    0 <= j < before.len() implies before[j] != button by {
                                    assert((self.mouse_button_callbacks@[j]).0 == before[j]);
                                }
                            }
                        }
                        DispatchOutcome::Dropped
                    },
                }
            },
            InputEvent::Scroll { x_offset_bits, y_offset_bits } => {
                match &mut self.scroll_callback {
                    Some(cb) => {
                        cb.on_scroll(x_offset_bits, y_offset_bits);
                        DispatchOutcome::ScrollDelivered
                    },
                    None => DispatchOutcome::Dropped,
                }
            },
            InputEvent::Other => DispatchOutcome::Dropped,
        }
    }

    /// Closes the iteration: a close request observed during dispatch takes
    /// effect here, at the iteration boundary.
    pub fn finish_iteration(&mut self)
        ensures
            final(self).loop_state() == if old(self).loop_state() == LoopState::ClosePending {
                LoopState::Closed
            } else {
                old(self).loop_state()
            },
            final(self).wf() == old(self).wf(),
            final(self).spec_width() == old(self).spec_width(),
            final(self).spec_height() == old(self).spec_height(),
            final(self).bg_col() == old(self).bg_col(),
            final(self).timestamp_nanos() == old(self).timestamp_nanos(),
            final(self).has_draw_object() == old(self).has_draw_object(),
            final(self).key_table_keys() == old(self).key_table_keys(),
            final(self).mouse_table_buttons() == old(self).mouse_table_buttons(),
            final(self).has_scroll_callback() == old(self).has_scroll_callback(),
    {
        if self.state == LoopState::ClosePending {
            self.state = LoopState::Closed;
        }
    }

    /// Whether the loop is still running.
    pub fn is_running(&self) -> (b: bool)
        ensures
            b == (self.loop_state() == LoopState::Running),
    {
        self.state == LoopState::Running
    }

    /// The current simulated timestamp, in nanoseconds.
    pub fn current_timestamp_nanos(&self) -> (t: u64)
        ensures
            t == self.timestamp_nanos(),
    {
        self.current_ts_nanos
    }

    /// The current clear color.
    pub fn current_bg_col(&self) -> (c: ClearColor)
        ensures
            c == self.bg_col(),
    {
        self.bg_col
    }

    /// The current loop state.
    pub fn current_loop_state(&self) -> (s: LoopState)
        ensures
            s == self.loop_state(),
    {
        self.state
    }

    /// Runs the render/event loop until the window is closed: each
    /// iteration advances the clock one nominal step, clears through the
    /// backend, draws the held drawable, presents, then polls and routes
    /// every pending event; a close request ends the loop at the iteration
    /// boundary. A window that is not running is returned untouched, with
    /// no iteration performed. The clock's range bounds the run: the loop
    /// also stops, rather than overflow, once the clock cannot take one
    /// more step.
    pub fn run_event_loop<B: RenderBackend>(&mut self, backend: &mut B)
        requires
            old(self).wf(),
        ensures
            final(self).wf(),
            old(self).same_configuration(*final(self)),
            final(self).timestamp_nanos() >= old(self).timestamp_nanos(),
            exists|n: nat|
                final(self).timestamp_nanos() == timestamp_after_frames(
                    old(self).timestamp_nanos() as int,
                    n,
                ),
            old(self).loop_state() != LoopState::Running ==> final(self).loop_state() == old(
                self,
            ).loop_state() && final(self).timestamp_nanos() == old(self).timestamp_nanos(),
            old(self).loop_state() == LoopState::Running && old(self).timestamp_nanos()
                + FRAME_STEP_NANOS <= u64::MAX ==> final(self).timestamp_nanos() >= old(
                self,
            ).timestamp_nanos() + FRAME_STEP_NANOS,
            old(self).loop_state() == LoopState::Running ==> final(self).loop_state()
                == LoopState::Closed || final(self).timestamp_nanos() + FRAME_STEP_NANOS
                > u64::MAX,
    {
        if !self.is_running() {
            proof {
                assert(self.timestamp_nanos() == timestamp_after_frames(
                    old(self).timestamp_nanos() as int,
                    0,
                ));
            }
            return;
        }
        proof {
            assert(self.timestamp_nanos() == timestamp_after_frames(
                old(self).timestamp_nanos() as int,
                0,
            ));
        }
        while self.is_running() && self.current_ts_nanos <= u64::MAX - FRAME_STEP_NANOS
            invariant
                self.wf(),
                old(self).loop_state() == LoopState::Running,
                old(self).same_configuration(*self),
                self.loop_state() == LoopState::Running || self.loop_state() == LoopState::Closed,
                (self.loop_state() == LoopState::Running && self.timestamp_nanos() == old(
                    self,
                ).timestamp_nanos()) || self.timestamp_nanos() >= old(self).timestamp_nanos()
                    + FRAME_STEP_NANOS,
                self.timestamp_nanos() >= old(self).timestamp_nanos(),
                exists|n: nat|
                    self.timestamp_nanos() == timestamp_after_frames(
                        old(self).timestamp_nanos() as int,
                        n,
                    ),
            decreases u64::MAX - self.timestamp_nanos(),
        {
            let ghost frames_before: nat = choose|n: nat|
                self.timestamp_nanos() == timestamp_after_frames(
                    old(self).timestamp_nanos() as int,
                    n,
                );
            self.advance_clock();
            proof {
                assert((frames_before + 1) * FRAME_STEP_NANOS == frames_before * FRAME_STEP_NANOS
                    + FRAME_STEP_NANOS) by (nonlinear_arith);
                assert(self.timestamp_nanos() == timestamp_after_frames(
                    old(self).timestamp_nanos() as int,
                    frames_before + 1,
                ));
            }
            backend.clear(self.bg_col);
            self.draw_current();
            backend.present();
            let events = backend.poll_events();
            let ghost ts_frame: u64 = self.timestamp_nanos();
            let ghost frames_done: nat = frames_before + 1;
            let n = events.len();
            let mut i: usize = 0;
            while i < n
                invariant
                    n == events@.len(),
                    i <= n,
                    self.wf(),
                    old(self).same_configuration(*self),
                    self.loop_state() == LoopState::Running || self.loop_state()
                        == LoopState::ClosePending,
                    self.timestamp_nanos() == ts_frame,
                    ts_frame >= old(self).timestamp_nanos() + FRAME_STEP_NANOS,
                    ts_frame == timestamp_after_frames(
                        old(self).timestamp_nanos() as int,
                        frames_done,
                    ),
                decreases n - i,
            {
                let _ = self.dispatch_event(events[i]);
                i += 1;
            }
            self.finish_iteration();
        }
    }
}

/// The simulated timestamp, in nanoseconds, after `frames` whole frames
/// starting from `start_nanos`.
pub open spec fn timestamp_after_frames(start_nanos: int, frames: nat) -> int {
    start_nanos + frames * FRAME_STEP_NANOS
}

/// Law: the simulated clock is strictly monotonic over frames — of two
/// frame counts the later one always sees the strictly larger timestamp,
/// the difference being exactly the nominal step per frame.
pub proof fn lemma_clock_strictly_monotonic(start_nanos: int, n1: nat, n2: nat)
    requires
        n1 < n2,
    ensures
        timestamp_after_frames(start_nanos, n1) < timestamp_after_frames(start_nanos, n2),
{
    assert(n1 * FRAME_STEP_NANOS < n2 * FRAME_STEP_NANOS) by (nonlinear_arith)
        requires
            n1 < n2,
    ;
}

/// Law: a press of the cancel key always requests close — it is routed to
/// the loop's termination check and never to a per-key callback, whatever
/// callbacks are registered.
pub proof fn lemma_cancel_key_takes_precedence<
    K: KeyCallback,
    M: MouseButtonCallback,
    S: ScrollCallback,
>(w: Window<K, M, S>, e: InputEvent)
    requires
        is_cancel_press(e),
    ensures
        w.spec_dispatch_outcome(e) == DispatchOutcome::CloseRequested,
{
}

} // verus!
