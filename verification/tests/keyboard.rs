use glium::glutin::VirtualKeyCode;
use gui::key::{Key, KeyState, KEY_COUNT};
use gui::keyboard::Keyboard;

#[test]
fn new_keyboard_reports_every_key_released() {
    let keyboard = Keyboard::new();
    assert_eq!(keyboard.get_key_state(Key::Escape), KeyState::Released);
    assert_eq!(keyboard.get_key_state(Key::Key1), KeyState::Released);
    assert_eq!(keyboard.get_key_state(Key::A), KeyState::Released);
    assert_eq!(keyboard.get_key_state(Key::Cut), KeyState::Released);
}

#[test]
fn key_never_set_stays_released_after_other_writes() {
    let mut keyboard = Keyboard::new();
    keyboard.set_key_state(Key::A, KeyState::Pressed);
    keyboard.set_key_state(Key::B, KeyState::Pressed);
    keyboard.set_key_state(Key::A, KeyState::Released);
    keyboard.set_key_state(Key::Space, KeyState::Pressed);
    assert_eq!(keyboard.get_key_state(Key::Escape), KeyState::Released);
    assert_eq!(keyboard.get_key_state(Key::C), KeyState::Released);
}

#[test]
fn set_then_get_returns_the_state_written() {
    let mut keyboard = Keyboard::new();
    keyboard.set_key_state(Key::W, KeyState::Pressed);
    assert_eq!(keyboard.get_key_state(Key::W), KeyState::Pressed);
    keyboard.set_key_state(Key::W, KeyState::Released);
    assert_eq!(keyboard.get_key_state(Key::W), KeyState::Released);
}

#[test]
fn most_recent_write_wins() {
    let mut keyboard = Keyboard::new();
    keyboard.set_key_state(Key::Return, KeyState::Pressed);
    keyboard.set_key_state(Key::Return, KeyState::Pressed);
    keyboard.set_key_state(Key::Return, KeyState::Released);
    keyboard.set_key_state(Key::Return, KeyState::Pressed);
    assert_eq!(keyboard.get_key_state(Key::Return), KeyState::Pressed);
}

#[test]
fn escape_released_then_pressed_reads_pressed() {
    let mut keyboard = Keyboard::new();
    keyboard.set_key_state(Key::Escape, KeyState::Released);
    keyboard.set_key_state(Key::Escape, KeyState::Pressed);
    assert_eq!(keyboard.get_key_state(Key::Escape), KeyState::Pressed);
}

#[test]
fn writing_one_key_leaves_the_others() {
    let mut keyboard = Keyboard::new();
    keyboard.set_key_state(Key::Left, KeyState::Pressed);
    keyboard.set_key_state(Key::Right, KeyState::Pressed);
    keyboard.set_key_state(Key::Left, KeyState::Released);
    assert_eq!(keyboard.get_key_state(Key::Left), KeyState::Released);
    assert_eq!(keyboard.get_key_state(Key::Right), KeyState::Pressed);
    assert_eq!(keyboard.get_key_state(Key::Up), KeyState::Released);
}

#[test]
fn neighbouring_keys_do_not_share_a_state() {
    let mut keyboard = Keyboard::new();
    keyboard.set_key_state(Key::Z, KeyState::Pressed);
    assert_eq!(keyboard.get_key_state(Key::Escape), KeyState::Released);
    assert_eq!(keyboard.get_key_state(Key::F1), KeyState::Released);
    keyboard.set_key_state(Key::Escape, KeyState::Pressed);
    keyboard.set_key_state(Key::Z, KeyState::Released);
    assert_eq!(keyboard.get_key_state(Key::Escape), KeyState::Pressed);
}

#[test]
fn key_codes_count_from_zero_in_order() {
    assert_eq!(KEY_COUNT, 161);
    assert_eq!(Key::Key1.code(), 0);
    assert_eq!(Key::Key0.code(), 9);
    assert_eq!(Key::A.code(), 10);
    assert_eq!(Key::Z.code(), 35);
    assert_eq!(Key::Escape.code(), 36);
    assert_eq!(Key::F1.code(), 37);
    assert_eq!(Key::F24.code(), 60);
    assert_eq!(Key::Cut.code(), 160);
}

#[test]
fn key_codes_agree_with_the_window_library() {
    assert_eq!(Key::Key1.code(), VirtualKeyCode::Key1 as u32);
    assert_eq!(Key::Escape.code(), VirtualKeyCode::Escape as u32);
    assert_eq!(Key::F24.code(), VirtualKeyCode::F24 as u32);
    assert_eq!(Key::Numpad9.code(), VirtualKeyCode::Numpad9 as u32);
    assert_eq!(Key::Yen.code(), VirtualKeyCode::Yen as u32);
    assert_eq!(Key::Cut.code(), VirtualKeyCode::Cut as u32);
}
