use oxid8::chip8::input::chip8_key_of_char;
use oxid8::chip8::input::handle_key;
use oxid8::chip8::input::update;
use oxid8::chip8::input::Key;
use oxid8::chip8::input::KeyKind;
use oxid8::chip8::input::Message;
use oxid8::chip8::input::Model;
use oxid8::chip8::input::RunningState;

#[test]
fn the_keyboard_block_plays_the_keypad() {
    let block = "1234qwerasdfzxcv";
    let keypad = [0x1, 0x2, 0x3, 0xC, 0x4, 0x5, 0x6, 0xD, 0x7, 0x8, 0x9, 0xE, 0xA, 0x0, 0xB, 0xF];
    for (c, key) in block.chars().zip(keypad) {
        assert_eq!(chip8_key_of_char(c), Some(key));
        assert_eq!(chip8_key_of_char(c.to_ascii_uppercase()), Some(key));
    }
}

#[test]
fn other_characters_play_nothing() {
    for c in ['0', '5', '9', 'g', 'G', ' ', '\n', '!', 'é', '\u{0}'] {
        assert_eq!(chip8_key_of_char(c), None);
    }
}

#[test]
fn key_events_become_messages() {
    assert_eq!(handle_key(Key::Char('w'), KeyKind::Press), Some(Message::KeyDown(0x5)));
    assert_eq!(handle_key(Key::Char('W'), KeyKind::Repeat), Some(Message::KeyDown(0x5)));
    assert_eq!(handle_key(Key::Char('w'), KeyKind::Release), Some(Message::KeyUp(0x5)));
    assert_eq!(handle_key(Key::Char('p'), KeyKind::Press), None);
    assert_eq!(handle_key(Key::Esc, KeyKind::Press), Some(Message::Quit));
    assert_eq!(handle_key(Key::Esc, KeyKind::Release), Some(Message::Quit));
    assert_eq!(handle_key(Key::Other, KeyKind::Press), None);
}

#[test]
fn only_quit_ends_the_run() {
    let mut model = Model { running_state: RunningState::Running };
    assert_eq!(update(&mut model, Message::KeyDown(3)), None);
    assert_eq!(model.running_state, RunningState::Running);
    assert_eq!(update(&mut model, Message::KeyUp(3)), None);
    assert_eq!(model.running_state, RunningState::Running);
    assert_eq!(update(&mut model, Message::Quit), None);
    assert_eq!(model.running_state, RunningState::Done);
    assert_eq!(update(&mut model, Message::KeyDown(3)), None);
    assert_eq!(model.running_state, RunningState::Done);
}
