use bella::input::{recieve_inputs, Input, MouseButton, Position};

const KEY_A: u32 = 30;
const KEY_B: u32 = 48;

#[test]
fn second_latch_with_nothing_queued_keeps_held_keys() {
    let mut input = Input::new();
    input.set_key_down(KEY_A);
    recieve_inputs(&mut input);
    recieve_inputs(&mut input);
    assert_eq!(input.keys_pressed(), &vec![KEY_A]);
    assert!(input.keys_down().is_empty());
    assert!(input.keys_up().is_empty());
    assert!(input.is_key_pressed(KEY_A));
    assert!(!input.is_key_down(KEY_A));
}

#[test]
fn latch_twice_keeps_state() {
    let mut input = Input::new();
    input.set_key_down(KEY_A);
    input.set_key_down(KEY_B);
    input.set_key_up(KEY_B);
    input.set_mouse_button_down(MouseButton::Left);
    recieve_inputs(&mut input);
    let held = input.keys_pressed().clone();
    recieve_inputs(&mut input);
    assert_eq!(input.keys_pressed(), &held);
    assert!(input.keys_down().is_empty());
    assert!(input.keys_up().is_empty());
    assert!(input.is_mouse_button_pressed(MouseButton::Left));
    assert!(!input.is_mouse_button_down(MouseButton::Left));
}

#[test]
fn key_down_then_latch() {
    let mut input = Input::new();
    input.set_key_down(KEY_B);
    recieve_inputs(&mut input);
    assert!(input.is_key_pressed(KEY_B));
    assert!(input.is_key_down(KEY_B));
    assert!(!input.is_key_up(KEY_B));
}

#[test]
fn tap_in_one_frame() {
    let mut input = Input::new();
    input.set_key_down(KEY_A);
    input.set_key_up(KEY_A);
    recieve_inputs(&mut input);
    assert!(input.is_key_down(KEY_A));
    assert!(input.is_key_up(KEY_A));
    assert!(!input.is_key_pressed(KEY_A));
}

#[test]
fn release_queued_before_press_still_drains_down_first() {
    let mut input = Input::new();
    input.set_key_up(KEY_A);
    input.set_key_down(KEY_A);
    recieve_inputs(&mut input);
    assert!(input.is_key_down(KEY_A));
    assert!(input.is_key_up(KEY_A));
    assert!(!input.is_key_pressed(KEY_A));
}

#[test]
fn duplicate_down_is_held_once() {
    let mut input = Input::new();
    input.set_key_down(KEY_A);
    input.set_key_down(KEY_A);
    recieve_inputs(&mut input);
    assert_eq!(input.keys_pressed(), &vec![KEY_A]);
    assert_eq!(input.keys_down(), &vec![KEY_A, KEY_A]);
}

#[test]
fn events_drain_in_queue_order() {
    let mut input = Input::new();
    input.set_key_down(KEY_B);
    input.set_key_down(KEY_A);
    recieve_inputs(&mut input);
    assert_eq!(input.keys_down(), &vec![KEY_B, KEY_A]);
    assert_eq!(input.keys_pressed(), &vec![KEY_B, KEY_A]);
    input.set_key_up(KEY_B);
    recieve_inputs(&mut input);
    assert_eq!(input.keys_up(), &vec![KEY_B]);
    assert_eq!(input.keys_pressed(), &vec![KEY_A]);
}

#[test]
fn nothing_is_seen_before_a_latch() {
    let mut input = Input::default();
    input.set_key_down(KEY_A);
    input.set_mouse_button_down(MouseButton::Right);
    assert!(!input.is_key_down(KEY_A));
    assert!(!input.is_key_pressed(KEY_A));
    assert!(!input.is_mouse_button_down(MouseButton::Right));
}

#[test]
fn mouse_buttons_latch_like_keys() {
    let mut input = Input::new();
    input.set_mouse_button_down(MouseButton::Other(7));
    input.set_mouse_button_down(MouseButton::Middle);
    input.set_mouse_button_up(MouseButton::Middle);
    recieve_inputs(&mut input);
    assert!(input.is_mouse_button_down(MouseButton::Other(7)));
    assert!(input.is_mouse_button_pressed(MouseButton::Other(7)));
    assert!(!input.is_mouse_button_pressed(MouseButton::Other(8)));
    assert!(input.is_mouse_button_down(MouseButton::Middle));
    assert!(input.is_mouse_button_up(MouseButton::Middle));
    assert!(!input.is_mouse_button_pressed(MouseButton::Middle));
    input.set_mouse_button_up(MouseButton::Other(7));
    recieve_inputs(&mut input);
    assert!(!input.is_mouse_button_pressed(MouseButton::Other(7)));
    assert!(input.is_mouse_button_up(MouseButton::Other(7)));
    assert!(!input.is_mouse_button_down(MouseButton::Other(7)));
}

#[test]
fn cursor_keeps_last_position() {
    let mut input = Input::new();
    assert_eq!(*input.mouse_position(), Position::default());
    let first = Position { x_bits: 1.5f64.to_bits(), y_bits: 2.0f64.to_bits() };
    let last = Position { x_bits: 10.25f64.to_bits(), y_bits: 20.5f64.to_bits() };
    input.set_mouse_pos(first);
    input.set_mouse_pos(last);
    recieve_inputs(&mut input);
    assert_eq!(*input.mouse_position(), last);
    assert_eq!(f64::from_bits(input.mouse_position().x_bits), 10.25);
    recieve_inputs(&mut input);
    assert_eq!(*input.mouse_position(), last);
}
