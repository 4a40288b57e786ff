//! Keys: what the window system names, what the GUI knows, and the table
//! between them.
use vstd::prelude::*;

verus! {

/// A key that the window system names by its function. Only the keys that
/// the table knows have a variant of their own.
#[derive(Clone, Copy, Debug, PartialEq, Eq, Hash, Structural)]
pub enum NamedKey {
    Escape,
    Insert,
    Home,
    Delete,
    End,
    PageDown,
    PageUp,
    ArrowLeft,
    ArrowUp,
    ArrowRight,
    ArrowDown,
    Backspace,
    Enter,
    Tab,
    Space,
    /// Any other named key.
    Other,
}

/// The key of a keyboard event, as the window system's layout reads it.
#[derive(Clone, Debug, PartialEq, Eq, Hash)]
pub enum LogicalKey<Str = String> {
    /// A key with a function and no character.
    Named(NamedKey),
    /// The character or characters that the key types.
    Character(Str),
    /// A key that the window system could not name.
    Unidentified,
    /// A key that only combines with the next one.
    Dead,
}

impl View for LogicalKey<String> {
    type V = LogicalKey<Seq<char>>;

    open spec fn view(&self) -> LogicalKey<Seq<char>> {
        match *self {
            LogicalKey::Named(named) => LogicalKey::Named(named),
            LogicalKey::Character(text) => LogicalKey::Character(text@),
            LogicalKey::Unidentified => LogicalKey::Unidentified,
            LogicalKey::Dead => LogicalKey::Dead,
        }
    }
}

/// A key that the GUI knows.
#[derive(Clone, Copy, Debug, PartialEq, Eq, Hash, Structural)]
pub enum Key {
    ArrowDown,
    ArrowLeft,
    ArrowRight,
    ArrowUp,
    Escape,
    Tab,
    Backspace,
    Enter,
    Space,
    Insert,
    Delete,
    Home,
    End,
    PageUp,
    PageDown,
    Minus,
    PlusEquals,
    Num0,
    Num1,
    Num2,
    Num3,
    Num4,
    Num5,
    Num6,
    Num7,
    Num8,
    Num9,
    A,
    B,
    C,
    D,
    E,
    F,
    G,
    H,
    I,
    J,
    K,
    L,
    M,
    N,
    O,
    P,
    Q,
    R,
    S,
    T,
    U,
    V,
    W,
    X,
    Y,
    Z,
    F1,
    F2,
    F3,
    F4,
    F5,
    F6,
    F7,
    F8,
    F9,
    F10,
    F11,
    F12,
    F13,
    F14,
    F15,
    F16,
    F17,
    F18,
    F19,
    F20,
}

/// The GUI key of a named key, where it has one.
pub open spec fn named_key_code(key: NamedKey) -> Option<Key> {
    match key {
        NamedKey::Escape => Some(Key::Escape),
        NamedKey::Insert => Some(Key::Insert),
        NamedKey::Home => Some(Key::Home),
        NamedKey::Delete => Some(Key::Delete),
        NamedKey::End => Some(Key::End),
        NamedKey::PageDown => Some(Key::PageDown),
        NamedKey::PageUp => Some(Key::PageUp),
        NamedKey::ArrowLeft => Some(Key::ArrowLeft),
        NamedKey::ArrowUp => Some(Key::ArrowUp),
        NamedKey::ArrowRight => Some(Key::ArrowRight),
        NamedKey::ArrowDown => Some(Key::ArrowDown),
        NamedKey::Backspace => Some(Key::Backspace),
        NamedKey::Enter => Some(Key::Enter),
        NamedKey::Tab => Some(Key::Tab),
        NamedKey::Space => Some(Key::Space),
        NamedKey::Other => None,
    }
}

/// The GUI key of a character: the ten digits and the twenty-six letters of
/// the Latin alphabet, in either case.
pub open spec fn char_key_code(c: char) -> Option<Key> {
    match c {
        '0' => Some(Key::Num0),
        '1' => Some(Key::Num1),
        '2' => Some(Key::Num2),
        '3' => Some(Key::Num3),
        '4' => Some(Key::Num4),
        '5' => Some(Key::Num5),
        '6' => Some(Key::Num6),
        '7' => Some(Key::Num7),
        '8' => Some(Key::Num8),
        '9' => Some(Key::Num9),
        'a' | 'A' => Some(Key::A),
        'b' | 'B' => Some(Key::B),
        'c' | 'C' => Some(Key::C),
        'd' | 'D' => Some(Key::D),
        'e' | 'E' => Some(Key::E),
        'f' | 'F' => Some(Key::F),
        'g' | 'G' => Some(Key::G),
        'h' | 'H' => Some(Key::H),
        'i' | 'I' => Some(Key::I),
        'j' | 'J' => Some(Key::J),
        'k' | 'K' => Some(Key::K),
        'l' | 'L' => Some(Key::L),
        'm' | 'M' => Some(Key::M),
        'n' | 'N' => Some(Key::N),
        'o' | 'O' => Some(Key::O),
        'p' | 'P' => Some(Key::P),
        'q' | 'Q' => Some(Key::Q),
        'r' | 'R' => Some(Key::R),
        's' | 'S' => Some(Key::S),
        't' | 'T' => Some(Key::T),
        'u' | 'U' => Some(Key::U),
        'v' | 'V' => Some(Key::V),
        'w' | 'W' => Some(Key::W),
        'x' | 'X' => Some(Key::X),
        'y' | 'Y' => Some(Key::Y),
        'z' | 'Z' => Some(Key::Z),
        _ => None,
    }
}

/// The GUI key of a logical key. A named key goes by [`named_key_code`]; a
/// key that types exactly one character goes by [`char_key_code`]; every
/// other key has none.
pub open spec fn key_code(key: LogicalKey<Seq<char>>) -> Option<Key> {
    match key {
        LogicalKey::Named(named) => named_key_code(named),
        LogicalKey::Character(text) => if text.len() == 1 {
            char_key_code(text[0])
        } else {
            None
        },
        LogicalKey::Unidentified => None,
        LogicalKey::Dead => None,
    }
}

fn named_key(key: NamedKey) -> (code: Option<Key>)
    ensures
        code == named_key_code(key),
{
    match key {
        NamedKey::Escape => Some(Key::Escape),
        NamedKey::Insert => Some(Key::Insert),
        NamedKey::Home => Some(Key::Home),
        NamedKey::Delete => Some(Key::Delete),
        NamedKey::End => Some(Key::End),
        NamedKey::PageDown => Some(Key::PageDown),
        NamedKey::PageUp => Some(Key::PageUp),
        NamedKey::ArrowLeft => Some(Key::ArrowLeft),
        NamedKey::ArrowUp => Some(Key::ArrowUp),
        NamedKey::ArrowRight => Some(Key::ArrowRight),
        NamedKey::ArrowDown => Some(Key::ArrowDown),
        NamedKey::Backspace => Some(Key::Backspace),
        NamedKey::Enter => Some(Key::Enter),
        NamedKey::Tab => Some(Key::Tab),
        NamedKey::Space => Some(Key::Space),
        NamedKey::Other => None,
    }
}

fn char_key(c: char) -> (code: Option<Key>)
    ensures
        code == char_key_code(c),
{
    match c {
        '0' => Some(Key::Num0),
        '1' => Some(Key::Num1),
        '2' => Some(Key::Num2),
        '3' => Some(Key::Num3),
        '4' => Some(Key::Num4),
        '5' => Some(Key::Num5),
        '6' => Some(Key::Num6),
        '7' => Some(Key::Num7),
        '8' => Some(Key::Num8),
        '9' => Some(Key::Num9),
        'a' | 'A' => Some(Key::A),
        'b' | 'B' => Some(Key::B),
        'c' | 'C' => Some(Key::C),
        'd' | 'D' => Some(Key::D),
        'e' | 'E' => Some(Key::E),
        'f' | 'F' => Some(Key::F),
        'g' | 'G' => Some(Key::G),
        'h' | 'H' => Some(Key::H),
        'i' | 'I' => Some(Key::I),
        'j' | 'J' => Some(Key::J),
        'k' | 'K' => Some(Key::K),
        'l' | 'L' => Some(Key::L),
        'm' | 'M' => Some(Key::M),
        'n' | 'N' => Some(Key::N),
        'o' | 'O' => Some(Key::O),
        'p' | 'P' => Some(Key::P),
        'q' | 'Q' => Some(Key::Q),
        'r' | 'R' => Some(Key::R),
        's' | 'S' => Some(Key::S),
        't' | 'T' => Some(Key::T),
        'u' | 'U' => Some(Key::U),
        'v' | 'V' => Some(Key::V),
        'w' | 'W' => Some(Key::W),
        'x' | 'X' => Some(Key::X),
        'y' | 'Y' => Some(Key::Y),
        'z' | 'Z' => Some(Key::Z),
        _ => None,
    }
}

/// Maps winit to egui keycodes.
///
/// The table covers the navigation keys and the alphanumerics. A key outside
/// it has no code: the caller drops it.
pub fn winit_to_egui_key_code(key: &LogicalKey) -> (code: Option<Key>)
    ensures
        code == key_code(key@),
{
    match key {
        LogicalKey::Named(named) => named_key(*named),
        LogicalKey::Character(text) => {
            let text = text.as_str();
            if text.unicode_len() == 1 {
                char_key(text.get_char(0))
            } else {
                None
            }
        },
        LogicalKey::Unidentified => None,
        LogicalKey::Dead => None,
    }
}

} // verus!
