use vstd::prelude::*;

verus! {

/// A key as the window reports it.
#[derive(Clone, Copy, Debug, PartialEq, Eq, Structural)]
pub enum Key {
    Return,
    Space,
    Escape,
    Tab,
    Up,
    Down,
    /// A key that stands for a character.
    Char(char),
    /// Any other key.
    Other,
}

/// A key press: the key, and whether Control alone was held.
#[derive(Clone, Copy, Debug, PartialEq, Eq, Structural)]
pub struct KeyPress {
    pub key: Key,
    pub control: bool,
}

/// What a key press asks of the controller.
#[derive(Clone, Copy, Debug, PartialEq, Eq, Structural)]
pub enum Command {
    Enter,
    Space,
    Escape,
    Tab,
    Move(i32),
    Copy,
    Type(char),
    Ignore,
}

/// The name of what `char::is_alphabetic` answers for a character.
pub uninterp spec fn alphabetic(c: char) -> bool;

/// Relies on `char::is_alphabetic`: whether `c` has the Unicode
/// `Alphabetic` property.
#[verifier::external_body]
fn is_alphabetic(c: char) -> (r: bool)
    ensures
        r == alphabetic(c),
{
    c.is_alphabetic()
}

/// The command of a key press, and whether the press is consumed rather
/// than passed on to the window's widgets.
pub open spec fn binding(k: KeyPress, letter: bool) -> (Command, bool) {
    match k.key {
        Key::Return => (Command::Enter, true),
        Key::Space => (Command::Space, false),
        Key::Escape => (Command::Escape, true),
        Key::Tab => (Command::Tab, true),
        Key::Char(c) => if k.control && c == 'j' {
            (Command::Move(1i32), true)
        } else if k.control && c == 'k' {
            (Command::Move(-1i32), true)
        } else if k.control && c == 'c' {
            (Command::Copy, true)
        } else if letter {
            (Command::Type(c), false)
        } else {
            (Command::Ignore, false)
        },
        Key::Down => (Command::Move(1i32), true),
        Key::Up => (Command::Move(-1i32), true),
        Key::Other => (Command::Ignore, false),
    }
}

/// The command of a key press, given whether its character (if any) is a
/// letter.
pub fn key_binding(k: KeyPress, letter: bool) -> (r: (Command, bool))
    ensures
        r == binding(k, letter),
{
    match k.key {
        Key::Return => (Command::Enter, true),
        Key::Space => (Command::Space, false),
        Key::Escape => (Command::Escape, true),
        Key::Tab => (Command::Tab, true),
        Key::Char(c) => if k.control && c == 'j' {
            (Command::Move(1), true)
        } else if k.control && c == 'k' {
            (Command::Move(-1), true)
        } else if k.control && c == 'c' {
            (Command::Copy, true)
        } else if letter {
            (Command::Type(c), false)
        } else {
            (Command::Ignore, false)
        },
        Key::Down => (Command::Move(1), true),
        Key::Up => (Command::Move(-1), true),
        Key::Other => (Command::Ignore, false),
    }
}

/// Maps a key press to a command: Return, Space, Escape and Tab to their
/// own, Ctrl-J and Down down one row, Ctrl-K and Up up one row, Ctrl-C to
/// copying, and an alphabetic character to typing it. The second part
/// says whether the press is consumed.
pub fn command_of(k: KeyPress) -> (r: (Command, bool))
    ensures
        r == binding(
            k,
            match k.key {
                Key::Char(c) => alphabetic(c),
                _ => false,
            },
        ),
{
    let letter = match k.key {
        Key::Char(c) => is_alphabetic(c),
        _ => false,
    };
    key_binding(k, letter)
}

} // verus!
