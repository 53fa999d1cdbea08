//! Debounced button-axis behavior.
use dark_tetris::binary_axis::BinaryAxis;
use dark_tetris::tetris_input::ButtonEvent;
use dark_tetris::tetris_input::GameButton;
use dark_tetris::tetris_input::TetrisInput;

#[test]
fn new_axis_is_released_with_zero_counters() {
    let a = BinaryAxis::new();
    assert!(!a.pressed());
    assert!(!a.pressed_this_frame());
    assert_eq!(a.frames_in_state, 0);
    assert_eq!(a.time_in_state, 0);
}

#[test]
fn pressed_this_frame_fires_on_press_tick_and_the_next_only() {
    let mut a = BinaryAxis::new();
    a.update(16);
    a.update(16);
    assert!(!a.pressed_this_frame());

    // Tick of the press: the transition arrives, then the tick's update.
    a.state_change(true);
    assert!(a.pressed_this_frame());
    a.update(16);
    assert!(a.pressed_this_frame());

    // The tick after the press still sees the edge... not anymore: two
    // updates have passed since the transition.
    a.update(16);
    assert!(!a.pressed_this_frame());
    assert!(a.pressed());

    // And it stays off until the next press.
    a.update(16);
    assert!(!a.pressed_this_frame());

    // Release, then press again: the edge fires once more.
    a.state_change(false);
    a.update(16);
    a.state_change(true);
    a.update(16);
    assert!(a.pressed_this_frame());
}

#[test]
fn repeated_state_change_with_same_state_is_a_no_op() {
    let mut a = BinaryAxis::new();
    a.update(10);
    a.update(10);
    let before = a;
    a.state_change(false);
    assert_eq!(a, before);

    a.state_change(true);
    a.update(10);
    let before = a;
    a.state_change(true);
    assert_eq!(a, before);
    assert_eq!(a.frames_in_state, 1);
    assert_eq!(a.time_in_state, 10);
}

#[test]
fn transition_archives_previous_counters() {
    let mut a = BinaryAxis::new();
    a.update(16);
    a.update(16);
    a.update(16);
    a.state_change(true);
    assert_eq!(a.frames_in_previous, 3);
    assert_eq!(a.time_in_previous, 48);
    assert_eq!(a.frames_in_state, 0);
    assert_eq!(a.time_in_state, 0);
}

#[test]
fn tetris_input_dispatches_events_to_the_right_axis() {
    let mut input = TetrisInput::new();
    let events = vec![
        ButtonEvent { button: GameButton::ArrowLeft, pressed: true },
        ButtonEvent { button: GameButton::KeyD, pressed: true },
    ];
    input.update(16, &events);
    assert!(input.arrow_left.pressed());
    assert!(input.arrow_left.pressed_this_frame());
    assert!(input.key_d.pressed());
    assert!(!input.arrow_right.pressed());
    assert!(!input.key_a.pressed());
    assert!(!input.arrow_up.pressed());
    assert!(!input.arrow_down.pressed());
    assert!(!input.key_s.pressed());

    // Press and release within one batch: the axis ends released.
    let events = vec![
        ButtonEvent { button: GameButton::KeyS, pressed: true },
        ButtonEvent { button: GameButton::KeyS, pressed: false },
    ];
    input.update(16, &events);
    assert!(!input.key_s.pressed());
    // The other axes kept counting time.
    assert_eq!(input.arrow_left.frames_in_state, 2);
}
