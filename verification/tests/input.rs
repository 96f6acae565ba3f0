use tubereng::input::keyboard::Key;
use tubereng::input::mouse::Button;
use tubereng::input::{Input, InputState};

#[test]
fn input_state_initial_key_state_is_false() {
    let input = InputState::new();
    assert!(!input.keyboard.is_key_down(Key::A));
}

#[test]
fn input_state_check_key_down_when_key_is_down() {
    let mut input = InputState::new();
    input.keyboard.key_state[Key::Escape as usize].current = true;
    assert!(input.keyboard.is_key_down(Key::Escape));
}

#[test]
fn input_state_on_key_down_changes_key_state() {
    let mut input = InputState::new();
    assert!(input.keyboard.is_key_up(Key::A));
    input.on_input(&Input::KeyDown(Key::A));
    assert!(input.keyboard.is_key_down(Key::A));
}

#[test]
fn input_state_on_key_up_changes_key_state() {
    let mut input = InputState::new();
    input.on_input(&Input::KeyUp(Key::A));
    assert!(input.keyboard.is_key_up(Key::A));
    input.on_input(&Input::KeyDown(Key::A));
    assert!(input.keyboard.is_key_down(Key::A));
}

#[test]
fn a_new_frame_remembers_what_was_down() {
    let mut input = InputState::default();
    input.on_input(&Input::KeyDown(Key::Space));
    input.on_input(&Input::MouseButtonDown(Button::Left));
    assert!(!input.keyboard.was_key_down(Key::Space));
    input.clear_last_frame_inputs();
    assert!(input.keyboard.was_key_down(Key::Space));
    assert!(input.keyboard.is_key_down(Key::Space));
    assert!(input.mouse.was_button_down(Button::Left));
    input.on_input(&Input::KeyUp(Key::Space));
    input.on_input(&Input::MouseButtonUp(Button::Left));
    assert!(input.keyboard.is_key_up(Key::Space));
    assert!(input.keyboard.was_key_down(Key::Space));
    assert!(input.mouse.is_button_up(Button::Left));
    input.clear_last_frame_inputs();
    assert!(!input.keyboard.was_key_down(Key::Space));
    assert!(!input.mouse.was_button_down(Button::Left));
}

#[test]
fn one_key_event_leaves_the_other_keys() {
    let mut input = InputState::new();
    input.on_input(&Input::KeyDown(Key::Z));
    input.on_input(&Input::MouseButtonDown(Button::Right));
    assert!(input.keyboard.is_key_down(Key::Z));
    assert!(input.keyboard.is_key_up(Key::Y));
    assert!(input.mouse.is_button_down(Button::Right));
    assert!(!input.mouse.is_button_down(Button::Middle));
    assert_eq!(Key::Unknown.index(), 38);
    assert_eq!(Button::Unknown.index(), 3);
}
