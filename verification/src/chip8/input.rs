//! From the keyboard to the machine's keypad.
//!
//! The sixteen keys of the machine lie in four rows, `1 2 3 C`, `4 5 6 D`,
//! `7 8 9 E` and `A 0 B F`. They are played on the block of the keyboard
//! that has the same shape: `1 2 3 4`, `Q W E R`, `A S D F`, `Z X C V`.
use vstd::prelude::*;

verus! {

/// What the program does about an event.
#[derive(Clone, Copy, PartialEq, Eq, Debug, Structural)]
pub enum Message {
    /// A key of the machine, 0x0 to 0xF, went down.
    KeyDown(u8),
    /// A key of the machine came up.
    KeyUp(u8),
    Quit,
}

/// Whether the program goes on.
#[derive(Clone, Copy, PartialEq, Eq, Debug, Structural)]
pub enum RunningState {
    Running,
    Done,
}

/// The state of the program around the machine.
#[derive(Debug)]
pub struct Model {
    pub running_state: RunningState,
}

impl Default for RunningState {
    fn default() -> (state: RunningState)
        ensures
            state == RunningState::Running,
    {
        RunningState::Running
    }
}

impl Default for Model {
    /// A model of a program that runs.
    fn default() -> (model: Model)
        ensures
            model.running_state == RunningState::Running,
    {
        Model { running_state: RunningState::Running }
    }
}

/// The key of a keyboard event, as far as the program tells keys apart.
#[derive(Clone, Copy, PartialEq, Eq, Debug, Structural)]
pub enum Key {
    Char(char),
    Esc,
    Other,
}

/// What happened to the key.
#[derive(Clone, Copy, PartialEq, Eq, Debug, Structural)]
pub enum KeyKind {
    Press,
    Repeat,
    Release,
}

/// The keys of the keyboard block, row by row, in lower case.
pub open spec fn keyboard_block() -> Seq<char> {
    seq![
        '1', '2', '3', '4',
        'q', 'w', 'e', 'r',
        'a', 's', 'd', 'f',
        'z', 'x', 'c', 'v',
    ]
}

/// The keys of the machine's keypad, row by row.
pub open spec fn keypad() -> Seq<u8> {
    seq![
        0x1u8, 0x2u8, 0x3u8, 0xCu8,
        0x4u8, 0x5u8, 0x6u8, 0xDu8,
        0x7u8, 0x8u8, 0x9u8, 0xEu8,
        0xAu8, 0x0u8, 0xBu8, 0xFu8,
    ]
}

/// The lower case of an ASCII capital; any other character as it is.
pub open spec fn unshifted(c: char) -> char {
    if 'A' <= c <= 'Z' {
        ((c as u8) + 32) as char
    } else {
        c
    }
}

/// The place of `c` in the keyboard block, if it is one of its keys.
pub open spec fn block_place(c: char) -> Option<int> {
    if exists|p: int| 0 <= p < 16 && keyboard_block()[p] == unshifted(c) {
        Some(choose|p: int| 0 <= p < 16 && keyboard_block()[p] == unshifted(c))
    } else {
        None
    }
}

/// The key of the machine that the character plays: the one that lies on
/// the keypad where the character lies in the keyboard block.
pub open spec fn key_of_char(c: char) -> Option<u8> {
    match block_place(c) {
        Some(p) => Some(keypad()[p]),
        None => None,
    }
}

/// What a keyboard event means to the program: a key of the block moves
/// the key of the machine that it plays, escape quits, and nothing else
/// means anything.
pub open spec fn message_of(key: Key, kind: KeyKind) -> Option<Message> {
    match key {
        Key::Char(c) => match key_of_char(c) {
            Some(k) => Some(
                match kind {
                    KeyKind::Release => Message::KeyUp(k),
                    _ => Message::KeyDown(k),
                },
            ),
            None => None,
        },
        Key::Esc => Some(Message::Quit),
        Key::Other => None,
    }
}

/// No two keys of the block are the same, so a character that lies at a
/// place of the block lies at no other, and plays the key at that place of
/// the keypad.
pub proof fn lemma_block_place(c: char, p: int)
    requires
        0 <= p < 16,
        keyboard_block()[p] == unshifted(c),
    ensures
        block_place(c) == Some(p),
        key_of_char(c) == Some(keypad()[p]),
{
    let q = choose|q: int| 0 <= q < 16 && keyboard_block()[q] == unshifted(c);
    assert(0 <= q < 16 && keyboard_block()[q] == unshifted(c));
    assert(forall|a: int, b: int|
        0 <= a < 16 && 0 <= b < 16 && keyboard_block()[a] == keyboard_block()[b] ==> a == b);
}

/// A character outside the block has no place in it and plays no key.
pub proof fn lemma_no_block_place(c: char)
    requires
        forall|p: int| 0 <= p < 16 ==> keyboard_block()[p] != unshifted(c),
    ensures
        block_place(c) is None,
        key_of_char(c) is None,
{
}

/// The key of the machine that the character plays, if it plays one.
pub fn chip8_key_of_char(c: char) -> (key: Option<u8>)
    ensures
        key == key_of_char(c),
        key matches Some(k) ==> k < 16,
{
    let (place, key): (Ghost<int>, Option<u8>) = match c {
        '1' => (Ghost(0), Some(0x1)),
        '2' => (Ghost(1), Some(0x2)),
        '3' => (Ghost(2), Some(0x3)),
        '4' => (Ghost(3), Some(0xC)),
        'q' | 'Q' => (Ghost(4), Some(0x4)),
        'w' | 'W' => (Ghost(5), Some(0x5)),
        'e' | 'E' => (Ghost(6), Some(0x6)),
        'r' | 'R' => (Ghost(7), Some(0xD)),
        'a' | 'A' => (Ghost(8), Some(0x7)),
        's' | 'S' => (Ghost(9), Some(0x8)),
        'd' | 'D' => (Ghost(10), Some(0x9)),
        'f' | 'F' => (Ghost(11), Some(0xE)),
        'z' | 'Z' => (Ghost(12), Some(0xA)),
        'x' | 'X' => (Ghost(13), Some(0x0)),
        'c' | 'C' => (Ghost(14), Some(0xB)),
        'v' | 'V' => (Ghost(15), Some(0xF)),
        _ => (Ghost(0), None),
    };
    proof {
        if key is Some {
            lemma_block_place(c, place@);
        } else {
            lemma_no_block_place(c);
        }
    }
    key
}

/// What a keyboard event means to the program.
pub fn handle_key(key: Key, kind: KeyKind) -> (message: Option<Message>)
    ensures
        message == message_of(key, kind),
        message matches Some(Message::KeyDown(k)) ==> k < 16,
        message matches Some(Message::KeyUp(k)) ==> k < 16,
{
    match key {
        Key::Char(c) => match chip8_key_of_char(c) {
            Some(k) => match kind {
                KeyKind::Press | KeyKind::Repeat => Some(Message::KeyDown(k)),
                KeyKind::Release => Some(Message::KeyUp(k)),
            },
            None => None,
        },
        Key::Esc => Some(Message::Quit),
        Key::Other => None,
    }
}

/// Takes a message into the model: `Quit` ends the run, the key messages
/// leave the model alone. No message follows from any.
pub fn update(model: &mut Model, msg: Message) -> (next: Option<Message>)
    ensures
        next is None,
        final(model).running_state == if msg == Message::Quit {
            RunningState::Done
        } else {
            old(model).running_state
        },
{
    if let Message::Quit = msg {
        model.running_state = RunningState::Done;
    }
    None
}

} // verus!
