//! Keys and mouse events, and the editing actions they stand for.

use vstd::prelude::*;

verus! {

/// A key, as far as the chat screen tells keys apart.
#[derive(Clone, Copy, Debug, PartialEq, Eq, Structural)]
pub enum KeyCode {
    Char(char),
    Esc,
    Enter,
    Backspace,
    Delete,
    Left,
    Right,
    Home,
    End,
    Up,
    Down,
    PageUp,
    PageDown,
    Other,
}

/// A key press with the modifiers that matter here.
#[derive(Clone, Copy, Debug, PartialEq, Eq, Structural)]
pub struct KeyInput {
    pub code: KeyCode,
    pub control: bool,
    pub alt: bool,
}

impl KeyInput {
    /// A key pressed without modifiers.
    pub fn plain(code: KeyCode) -> (r: Self)
        ensures
            r == (KeyInput { code, control: false, alt: false }),
    {
        KeyInput { code, control: false, alt: false }
    }
}

/// A mouse event, as far as the chat screen tells them apart.
#[derive(Clone, Copy, Debug, PartialEq, Eq, Structural)]
pub enum MouseInput {
    ScrollUp,
    ScrollDown,
    Other,
}

/// What a key or mouse event asks the chat screen to do.
#[derive(Clone, Copy, Debug, PartialEq, Eq, Structural)]
pub enum Action {
    Quit,
    Submit,
    Clear,
    Insert(char),
    Backspace,
    Delete,
    Left,
    Right,
    Home,
    End,
    FollowTail,
    ScrollUp(u16),
    ScrollDown(u16),
}

/// The action of a key: Ctrl+C and Esc quit, Enter submits, Ctrl+L clears,
/// a character without Ctrl or Alt is typed, Ctrl+End follows the tail,
/// the arrow keys scroll by one line and the page keys by five.
pub open spec fn action_for_key(key: KeyInput) -> Option<Action> {
    if key.control && key.code == KeyCode::Char('c') {
        Some(Action::Quit)
    } else {
        match key.code {
            KeyCode::Esc => Some(Action::Quit),
            KeyCode::Enter => Some(Action::Submit),
            KeyCode::Char(c) => if c == 'l' && key.control {
                Some(Action::Clear)
            } else if !(key.control || key.alt) {
                Some(Action::Insert(c))
            } else {
                None
            },
            KeyCode::Backspace => Some(Action::Backspace),
            KeyCode::Delete => Some(Action::Delete),
            KeyCode::Left => Some(Action::Left),
            KeyCode::Right => Some(Action::Right),
            KeyCode::Home => Some(Action::Home),
            KeyCode::End => if key.control { Some(Action::FollowTail) } else { Some(Action::End) },
            KeyCode::Up => Some(Action::ScrollUp(1)),
            KeyCode::Down => Some(Action::ScrollDown(1)),
            KeyCode::PageUp => Some(Action::ScrollUp(5)),
            KeyCode::PageDown => Some(Action::ScrollDown(5)),
            KeyCode::Other => None,
        }
    }
}

/// The action of a key press.
pub fn key_action(key: KeyInput) -> (r: Option<Action>)
    ensures
        r == action_for_key(key),
{
    if key.control {
        if let KeyCode::Char(c) = key.code {
            if c == 'c' {
                return Some(Action::Quit);
            }
        }
    }
    match key.code {
        KeyCode::Esc => Some(Action::Quit),
        KeyCode::Enter => Some(Action::Submit),
        KeyCode::Char(c) => if c == 'l' && key.control {
            Some(Action::Clear)
        } else if !(key.control || key.alt) {
            Some(Action::Insert(c))
        } else {
            None
        },
        KeyCode::Backspace => Some(Action::Backspace),
        KeyCode::Delete => Some(Action::Delete),
        KeyCode::Left => Some(Action::Left),
        KeyCode::Right => Some(Action::Right),
        KeyCode::Home => Some(Action::Home),
        KeyCode::End => if key.control { Some(Action::FollowTail) } else { Some(Action::End) },
        KeyCode::Up => Some(Action::ScrollUp(1)),
        KeyCode::Down => Some(Action::ScrollDown(1)),
        KeyCode::PageUp => Some(Action::ScrollUp(5)),
        KeyCode::PageDown => Some(Action::ScrollDown(5)),
        KeyCode::Other => None,
    }
}

/// The action of a mouse event: the wheel scrolls by three lines.
pub fn mouse_action(mouse: MouseInput) -> (r: Option<Action>)
    ensures
        r == (match mouse {
            MouseInput::ScrollUp => Some(Action::ScrollUp(3)),
            MouseInput::ScrollDown => Some(Action::ScrollDown(3)),
            MouseInput::Other => None,
        }),
{
    match mouse {
        MouseInput::ScrollUp => Some(Action::ScrollUp(3)),
        MouseInput::ScrollDown => Some(Action::ScrollDown(3)),
        MouseInput::Other => None,
    }
}

} // verus!
