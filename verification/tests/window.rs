use std::cell::RefCell;
use std::rc::Rc;

use engine2d::{
    ClearColor, DispatchOutcome, Drawable, InputAction, InputEvent, KeyCallback, LoopState,
    MouseButtonCallback, RenderBackend, ScrollCallback, Window, CANCEL_KEY, FRAME_STEP_NANOS,
};

struct Recorder {
    log: Rc<RefCell<Vec<u64>>>,
}

impl Drawable for Recorder {
    fn draw(&mut self, timestamp_nanos: u64) {
        self.log.borrow_mut().push(timestamp_nanos);
    }
}

struct CountKey {
    log: Rc<RefCell<Vec<(i32, i32, InputAction, i32)>>>,
}

impl KeyCallback for CountKey {
    fn on_key(&mut self, key: i32, scancode: i32, action: InputAction, mods: i32) {
        self.log.borrow_mut().push((key, scancode, action, mods));
    }
}

struct CountMouse {
    log: Rc<RefCell<Vec<(i32, InputAction, i32)>>>,
}

impl MouseButtonCallback for CountMouse {
    fn on_mouse_button(&mut self, button: i32, action: InputAction, mods: i32) {
        self.log.borrow_mut().push((button, action, mods));
    }
}

struct CountScroll {
    log: Rc<RefCell<Vec<(u64, u64)>>>,
}

impl ScrollCallback for CountScroll {
    fn on_scroll(&mut self, x_offset_bits: u64, y_offset_bits: u64) {
        self.log.borrow_mut().push((x_offset_bits, y_offset_bits));
    }
}

type TestWindow = Window<CountKey, CountMouse, CountScroll>;

struct ScriptedBackend {
    frames: Vec<Vec<InputEvent>>,
    clears: Vec<ClearColor>,
    presents: usize,
}

impl ScriptedBackend {
    fn new(frames: Vec<Vec<InputEvent>>) -> ScriptedBackend {
        ScriptedBackend { frames, clears: Vec::new(), presents: 0 }
    }
}

impl RenderBackend for ScriptedBackend {
    fn clear(&mut self, color: ClearColor) {
        self.clears.push(color);
    }

    fn present(&mut self) {
        self.presents += 1;
    }

    fn poll_events(&mut self) -> Vec<InputEvent> {
        if self.frames.is_empty() {
            vec![InputEvent::Key {
                key: CANCEL_KEY,
                scancode: 0,
                action: InputAction::Press,
                mods: 0,
            }]
        } else {
            self.frames.remove(0)
        }
    }
}

fn cancel_press() -> InputEvent {
    InputEvent::Key { key: CANCEL_KEY, scancode: 0, action: InputAction::Press, mods: 0 }
}

#[test]
fn new_window_starts_at_zero_running() {
    let w: TestWindow = Window::new(800, 600);
    assert_eq!(w.width, 800);
    assert_eq!(w.height, 600);
    assert_eq!(w.current_timestamp_nanos(), 0);
    assert_eq!(w.current_loop_state(), LoopState::Running);
    assert_eq!(w.current_bg_col(), ClearColor { r_bits: 0, g_bits: 0, b_bits: 0, a_bits: 0 });
}

#[test]
fn set_bg_col_replaces_the_color() {
    let mut w: TestWindow = Window::new(100, 100);
    let col = ClearColor {
        r_bits: 0.2f32.to_bits(),
        g_bits: 0.2f32.to_bits(),
        b_bits: 0.2f32.to_bits(),
        a_bits: 1.0f32.to_bits(),
    };
    w.set_bg_col(col);
    assert_eq!(w.current_bg_col(), col);
}

#[test]
fn clock_advances_by_exactly_one_step() {
    let mut w: TestWindow = Window::new(100, 100);
    w.advance_clock();
    assert_eq!(w.current_timestamp_nanos(), FRAME_STEP_NANOS);
    w.advance_clock();
    assert_eq!(w.current_timestamp_nanos(), 2 * FRAME_STEP_NANOS);
}

#[test]
fn draw_receives_strictly_increasing_timestamps() {
    let log = Rc::new(RefCell::new(Vec::new()));
    let mut w: TestWindow = Window::new(100, 100);
    w.set_draw_object(Box::new(Recorder { log: Rc::clone(&log) }));
    for _ in 0..3 {
        w.advance_clock();
        w.draw_current();
    }
    let seen = log.borrow().clone();
    assert_eq!(seen, vec![FRAME_STEP_NANOS, 2 * FRAME_STEP_NANOS, 3 * FRAME_STEP_NANOS]);
}

#[test]
fn draw_without_drawable_is_a_no_op() {
    let mut w: TestWindow = Window::new(100, 100);
    w.advance_clock();
    w.draw_current();
    assert_eq!(w.current_loop_state(), LoopState::Running);
}

#[test]
fn replacing_the_drawable_drops_the_old_one() {
    let first = Rc::new(RefCell::new(Vec::new()));
    let second = Rc::new(RefCell::new(Vec::new()));
    let mut w: TestWindow = Window::new(100, 100);
    w.set_draw_object(Box::new(Recorder { log: Rc::clone(&first) }));
    w.advance_clock();
    w.draw_current();
    w.set_draw_object(Box::new(Recorder { log: Rc::clone(&second) }));
    w.advance_clock();
    w.draw_current();
    w.advance_clock();
    w.draw_current();
    // The first drawable is never invoked again after the replacement.
    assert_eq!(first.borrow().len(), 1);
    assert_eq!(second.borrow().len(), 2);
}

#[test]
fn cancel_key_press_requests_close_and_skips_its_callback() {
    let log = Rc::new(RefCell::new(Vec::new()));
    let mut w: TestWindow = Window::new(100, 100);
    w.set_key_event_callback(CANCEL_KEY, CountKey { log: Rc::clone(&log) });
    let outcome = w.dispatch_event(cancel_press());
    assert_eq!(outcome, DispatchOutcome::CloseRequested);
    assert_eq!(w.current_loop_state(), LoopState::ClosePending);
    // The cancel check takes precedence: the registered callback never ran.
    assert_eq!(log.borrow().len(), 0);
}

#[test]
fn cancel_key_release_still_reaches_its_callback() {
    let log = Rc::new(RefCell::new(Vec::new()));
    let mut w: TestWindow = Window::new(100, 100);
    w.set_key_event_callback(CANCEL_KEY, CountKey { log: Rc::clone(&log) });
    let e = InputEvent::Key { key: CANCEL_KEY, scancode: 9, action: InputAction::Release, mods: 0 };
    assert_eq!(w.dispatch_event(e), DispatchOutcome::KeyDelivered);
    assert_eq!(w.current_loop_state(), LoopState::Running);
    assert_eq!(*log.borrow(), vec![(CANCEL_KEY, 9, InputAction::Release, 0)]);
}

#[test]
fn key_events_route_by_exact_key_or_drop() {
    let left = Rc::new(RefCell::new(Vec::new()));
    let mut w: TestWindow = Window::new(100, 100);
    w.set_key_event_callback(263, CountKey { log: Rc::clone(&left) });
    let hit = InputEvent::Key { key: 263, scancode: 1, action: InputAction::Press, mods: 2 };
    let miss = InputEvent::Key { key: 262, scancode: 1, action: InputAction::Press, mods: 2 };
    assert_eq!(w.dispatch_event(hit), DispatchOutcome::KeyDelivered);
    assert_eq!(w.dispatch_event(miss), DispatchOutcome::Dropped);
    assert_eq!(*left.borrow(), vec![(263, 1, InputAction::Press, 2)]);
}

#[test]
fn registering_a_key_twice_replaces_the_callback() {
    let first = Rc::new(RefCell::new(Vec::new()));
    let second = Rc::new(RefCell::new(Vec::new()));
    let mut w: TestWindow = Window::new(100, 100);
    w.set_key_event_callback(65, CountKey { log: Rc::clone(&first) });
    w.set_key_event_callback(65, CountKey { log: Rc::clone(&second) });
    let e = InputEvent::Key { key: 65, scancode: 0, action: InputAction::Press, mods: 0 };
    assert_eq!(w.dispatch_event(e), DispatchOutcome::KeyDelivered);
    assert_eq!(first.borrow().len(), 0);
    assert_eq!(second.borrow().len(), 1);
}

#[test]
fn mouse_button_events_route_or_drop() {
    let log = Rc::new(RefCell::new(Vec::new()));
    let mut w: TestWindow = Window::new(100, 100);
    w.set_mouse_button_callback(0, CountMouse { log: Rc::clone(&log) });
    let hit = InputEvent::MouseButton { button: 0, action: InputAction::Press, mods: 0 };
    let miss = InputEvent::MouseButton { button: 1, action: InputAction::Press, mods: 0 };
    assert_eq!(w.dispatch_event(hit), DispatchOutcome::MouseButtonDelivered);
    assert_eq!(w.dispatch_event(miss), DispatchOutcome::Dropped);
    assert_eq!(*log.borrow(), vec![(0, InputAction::Press, 0)]);
}

#[test]
fn scroll_events_reach_the_single_callback_with_exact_offsets() {
    let log = Rc::new(RefCell::new(Vec::new()));
    let mut w: TestWindow = Window::new(100, 100);
    let no_cb = InputEvent::Scroll { x_offset_bits: 1, y_offset_bits: 2 };
    assert_eq!(w.dispatch_event(no_cb), DispatchOutcome::Dropped);
    w.set_scroll_callback(CountScroll { log: Rc::clone(&log) });
    let x = 0.5f64.to_bits();
    let y = (-1.25f64).to_bits();
    let e = InputEvent::Scroll { x_offset_bits: x, y_offset_bits: y };
    assert_eq!(w.dispatch_event(e), DispatchOutcome::ScrollDelivered);
    assert_eq!(*log.borrow(), vec![(x, y)]);
}

#[test]
fn other_events_are_ignored() {
    let mut w: TestWindow = Window::new(100, 100);
    assert_eq!(w.dispatch_event(InputEvent::Other), DispatchOutcome::Dropped);
    assert_eq!(w.current_loop_state(), LoopState::Running);
}

#[test]
fn run_event_loop_runs_until_cancel_and_closes() {
    let log = Rc::new(RefCell::new(Vec::new()));
    let mut w: TestWindow = Window::new(100, 100);
    let col = ClearColor { r_bits: 5, g_bits: 6, b_bits: 7, a_bits: 8 };
    w.set_bg_col(col);
    w.set_draw_object(Box::new(Recorder { log: Rc::clone(&log) }));
    // One quiet frame, then the backend reports a cancel-key press.
    let mut backend = ScriptedBackend::new(vec![vec![]]);
    w.run_event_loop(&mut backend);
    assert_eq!(w.current_loop_state(), LoopState::Closed);
    assert_eq!(backend.presents, 2);
    assert_eq!(backend.clears, vec![col, col]);
    // The drawable saw one strictly increasing timestamp per iteration.
    assert_eq!(*log.borrow(), vec![FRAME_STEP_NANOS, 2 * FRAME_STEP_NANOS]);
}

#[test]
fn run_event_loop_on_a_closed_window_does_nothing() {
    let mut w: TestWindow = Window::new(100, 100);
    let mut backend = ScriptedBackend::new(vec![]);
    w.run_event_loop(&mut backend);
    assert_eq!(w.current_loop_state(), LoopState::Closed);
    let presents_after_first_run = backend.presents;
    // A second run on the closed window performs no iteration: no clear,
    // no present, no poll, and the clock does not move.
    let ts = w.current_timestamp_nanos();
    w.run_event_loop(&mut backend);
    assert_eq!(backend.presents, presents_after_first_run);
    assert_eq!(w.current_timestamp_nanos(), ts);
    assert_eq!(w.current_loop_state(), LoopState::Closed);
}

#[test]
fn run_event_loop_close_takes_effect_at_iteration_boundary() {
    let mut w: TestWindow = Window::new(100, 100);
    let mut backend = ScriptedBackend::new(vec![]);
    w.run_event_loop(&mut backend);
    // The cancel press arrived during the first iteration's dispatch, so
    // exactly one frame was drawn and presented.
    assert_eq!(backend.presents, 1);
    assert_eq!(w.current_loop_state(), LoopState::Closed);
    assert_eq!(w.current_timestamp_nanos(), FRAME_STEP_NANOS);
}
