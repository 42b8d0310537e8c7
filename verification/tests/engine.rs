use winrec::geometry::{Geometry, Padding};
use winrec::input::{InputState, Key, MouseButtons};
use winrec::selector::{
    decode, Display, SelectAction, SelectOutcome, SelectPoll, Side,
};
use winrec::settings::RecordSettings;
use winrec::window::Window;

fn no_mouse() -> MouseButtons {
    MouseButtons { left: false, middle: false, right: false }
}

fn snapshot(keys: Vec<Key>) -> InputState {
    InputState::with(keys, no_mouse())
}

fn settings_with(timeout: u64, padding: u32) -> RecordSettings {
    RecordSettings::new(10, padding, timeout, 10, 3, 0x00ff_00ff, false)
}

fn window(w: u32, h: u32) -> Window {
    Window::new(7, Geometry::new(0, 0, w, h))
}

#[test]
fn test_input_state() {
    let input_state = InputState::new();
    assert!(!input_state.check_mouse());
    assert!(!input_state.check_keys());
}

#[test]
fn test_cancel_keys() {
    assert!(snapshot(vec![Key::Escape]).check_keys());
    assert!(snapshot(vec![Key::LControl, Key::D]).check_keys());
    assert!(!snapshot(vec![Key::LControl]).check_keys());
    assert!(!snapshot(vec![Key::D]).check_keys());
}

#[test]
fn test_mouse_buttons() {
    let left = InputState::with(
        Vec::new(),
        MouseButtons { left: true, middle: false, right: false },
    );
    let middle = InputState::with(
        Vec::new(),
        MouseButtons { left: false, middle: true, right: false },
    );
    assert!(left.check_mouse());
    assert!(!middle.check_mouse());
}

#[test]
fn test_decode_actions() {
    assert_eq!(decode(&snapshot(vec![Key::LAlt, Key::Up])), SelectAction::Increase(Side::Top));
    assert_eq!(
        decode(&snapshot(vec![Key::LControl, Key::LAlt, Key::J])),
        SelectAction::Decrease(Side::Bottom)
    );
    assert_eq!(
        decode(&snapshot(vec![Key::LShift, Key::LAlt, Key::Left])),
        SelectAction::Shift(Side::Left)
    );
    assert_eq!(decode(&snapshot(vec![Key::LAlt, Key::R])), SelectAction::Reset);
    assert_eq!(decode(&snapshot(vec![Key::LAlt, Key::Num5])), SelectAction::SetStep(5));
    assert_eq!(decode(&snapshot(vec![Key::Up])), SelectAction::Idle);
    assert_eq!(decode(&snapshot(vec![Key::LAlt])), SelectAction::Idle);
}

#[test]
fn test_selection_timeout_zero() {
    let w = window(100, 100);
    let mut display = Display::open(Some(settings_with(0, 0)), w, Some(w));
    let confirm = snapshot(vec![Key::LAlt, Key::Enter]);
    let polls = vec![SelectPoll { window: w, input: confirm }];
    let (outcome, ticks) = display.select_window(&polls);
    assert_eq!(outcome, SelectOutcome::TimedOut);
    assert!(ticks <= 1);
    assert!(display.border.is_none());
}

#[test]
fn test_selection_cancel_beats_confirm() {
    let w = window(100, 100);
    let mut display = Display::open(Some(settings_with(60, 0)), w, Some(w));
    let both = snapshot(vec![Key::Escape, Key::LAlt, Key::Enter]);
    let polls = vec![SelectPoll { window: w, input: both }];
    let (outcome, ticks) = display.select_window(&polls);
    assert_eq!(outcome, SelectOutcome::Cancelled);
    assert_eq!(ticks, 1);
}

#[test]
fn test_selection_confirms_with_adjusted_padding() {
    let w = window(100, 100);
    let mut display = Display::open(Some(settings_with(60, 0)), w, Some(w));
    let polls = vec![
        SelectPoll { window: w, input: snapshot(vec![Key::LAlt, Key::Up]) },
        SelectPoll { window: w, input: snapshot(vec![Key::LAlt, Key::Enter]) },
    ];
    let (outcome, ticks) = display.select_window(&polls);
    assert_eq!(ticks, 2);
    match outcome {
        SelectOutcome::Selected(win, area) => {
            assert_eq!(win.xid, 7);
            // one increase of the top inset by the default step of 3
            assert_eq!(area.y, 3);
            assert_eq!(area.height, 97);
            assert_eq!(area.width, 100);
        }
        other => panic!("expected a selection, got {:?}", other),
    }
}

#[test]
fn test_selection_step_and_reset() {
    let w = window(100, 100);
    let mut display = Display::open(Some(settings_with(60, 2)), w, Some(w));
    let polls = vec![
        SelectPoll { window: w, input: snapshot(vec![Key::LAlt, Key::Num5]) },
        SelectPoll { window: w, input: snapshot(vec![Key::LAlt, Key::Right]) },
    ];
    let (_, ticks) = display.select_window(&polls);
    assert_eq!(ticks, 2);
    assert_eq!(display.step, 5);
    assert_eq!(display.padding.right, 7);
    let reset = vec![SelectPoll { window: w, input: snapshot(vec![Key::LAlt, Key::R]) }];
    display.select_window(&reset);
    assert_eq!(display.padding, Padding::uniform(2));
}

#[test]
fn test_small_area_guards_increase() {
    let w = window(4, 4);
    let mut display = Display::open(Some(settings_with(60, 0)), w, Some(w));
    let polls = vec![SelectPoll { window: w, input: snapshot(vec![Key::LAlt, Key::Up]) }];
    display.select_window(&polls);
    assert_eq!(display.padding, Padding::uniform(0));
}

#[test]
fn test_shift_moves_area() {
    let w = window(50, 50);
    let mut display = Display::open(Some(settings_with(60, 5)), w, Some(w));
    let polls = vec![
        SelectPoll { window: w, input: snapshot(vec![Key::LShift, Key::LAlt, Key::Up]) },
    ];
    display.select_window(&polls);
    assert_eq!(display.padding.top, 8);
    assert_eq!(display.padding.bottom, 2);
    assert_eq!(display.padding.left, 5);
    assert_eq!(display.padding.right, 5);
}

#[test]
fn test_border_draw_then_clear_keeps_geometry() {
    let w = window(640, 480);
    let mut display = Display::open(Some(settings_with(60, 1)), w, Some(w));
    let before_settings = display.settings;
    let before_padding = display.padding;
    display.draw_border(&w);
    assert_eq!(display.border, Some(Geometry::new(0, 0, 640, 480)));
    display.clear_border();
    assert!(display.border.is_none());
    assert_eq!(display.settings, before_settings);
    assert_eq!(display.padding, before_padding);
    assert_eq!(display.root, w);
    assert_eq!(w.geometry, Geometry::new(0, 0, 640, 480));
}

#[test]
fn test_get_window_prefers_root_when_configured() {
    let root = window(1920, 1080);
    let focused = Window::new(9, Geometry::new(5, 5, 300, 200));
    let rooted = RecordSettings::new(10, 0, 60, 10, 3, 0, true);
    let display = Display::open(Some(rooted), root, Some(focused));
    assert_eq!(display.get_window().unwrap().xid, root.xid);
    let focussed = RecordSettings::new(10, 0, 60, 10, 3, 0, false);
    let display = Display::open(Some(focussed), root, Some(focused));
    assert_eq!(display.get_window().unwrap().xid, 9);
    let display = Display::open(Some(focussed), root, None);
    assert!(display.get_window().is_none());
}

#[test]
fn test_update_padding() {
    let w = window(100, 100);
    let mut display = Display::open(Some(settings_with(60, 0)), w, Some(w));
    display.update_padding(Geometry::new(0, 0, 10, 10), Geometry::default());
    assert_eq!(display.padding, Padding::new(0, 0, 0, 0));
    display.update_padding(Geometry::new(0, 0, 60, 40), Geometry::new(0, 0, 100, 100));
    assert_eq!(display.padding, Padding::new(0, 40, 60, 0));
}

#[test]
fn test_padded_geometry_saturates() {
    let g = Geometry::new(0, 0, 10, 10);
    let shrunk = g.padded(Padding::new(0, 30, 0, 20));
    assert_eq!(shrunk.width, 0);
    assert_eq!(shrunk.height, 10);
    let far = Geometry::new(i32::MAX, 0, 10, 10);
    assert_eq!(far.padded(Padding::uniform(1)).x, i32::MAX);
}

#[test]
fn test_window_reset_position() {
    let mut w = Window::new(3, Geometry::new(40, 50, 640, 480));
    w.reset_position();
    assert_eq!(w.geometry, Geometry::new(0, 0, 640, 480));
}

#[test]
fn test_record_settings_default() {
    let s: RecordSettings = Default::default();
    assert_eq!(s, RecordSettings::new(10, 5, 30, 10, 3, 0x00ff_00ff, false));
}
