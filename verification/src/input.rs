//! Keys, and the command each key stands for.
use vstd::prelude::*;

verus! {

/// A key as the dashboard distinguishes them.
#[derive(Clone, Copy, PartialEq, Eq, Structural, Debug)]
pub enum KeyCode {
    Char(char),
    Esc,
    Up,
    Down,
    Left,
    Right,
    Tab,
    Enter,
    Other,
}

/// A key press: the key and whether Control was held.
#[derive(Clone, Copy, PartialEq, Eq, Structural, Debug)]
pub struct KeyEvent {
    pub code: KeyCode,
    pub ctrl: bool,
}

/// What a key press asks of the application.
#[derive(Clone, Copy, PartialEq, Eq, Structural, Debug)]
pub enum Command {
    /// Leave the program.
    Quit,
    /// Close the help overlay.
    CloseHelp,
    /// A key swallowed by the help overlay.
    Ignore,
    OpenHelp,
    Next,
    Prev,
    /// The `g` of a `gg` sequence.
    GoFirstPrefix,
    Last,
    FocusList,
    FocusDetail,
    SwitchTab,
    Toggle,
    Restart,
    Stop,
    Start,
    /// A key with no binding.
    Unbound,
}

/// The command of a key press; while the help overlay is shown only `Esc`, `q` and `?`
/// do anything, and they close it.
pub open spec fn command_for(show_help: bool, key: KeyEvent) -> Command {
    if show_help {
        match key.code {
            KeyCode::Esc => Command::CloseHelp,
            KeyCode::Char('q') => Command::CloseHelp,
            KeyCode::Char('?') => Command::CloseHelp,
            _ => Command::Ignore,
        }
    } else {
        match key.code {
            KeyCode::Char('q') => Command::Quit,
            KeyCode::Esc => Command::Quit,
            KeyCode::Char('c') => if key.ctrl {
                Command::Quit
            } else {
                Command::Unbound
            },
            KeyCode::Char('?') => Command::OpenHelp,
            KeyCode::Char('j') => Command::Next,
            KeyCode::Down => Command::Next,
            KeyCode::Char('k') => Command::Prev,
            KeyCode::Up => Command::Prev,
            KeyCode::Char('g') => Command::GoFirstPrefix,
            KeyCode::Char('G') => Command::Last,
            KeyCode::Char('h') => Command::FocusList,
            KeyCode::Left => Command::FocusList,
            KeyCode::Char('l') => Command::FocusDetail,
            KeyCode::Right => Command::FocusDetail,
            KeyCode::Tab => Command::SwitchTab,
            KeyCode::Enter => Command::Toggle,
            KeyCode::Char('r') => Command::Restart,
            KeyCode::Char('s') => Command::Stop,
            KeyCode::Char('S') => Command::Start,
            _ => Command::Unbound,
        }
    }
}

/// Decodes a key press into its command.
pub fn decode_key(show_help: bool, key: KeyEvent) -> (res: Command)
    ensures
        res == command_for(show_help, key),
{
    if show_help {
        match key.code {
            KeyCode::Esc => Command::CloseHelp,
            KeyCode::Char('q') => Command::CloseHelp,
            KeyCode::Char('?') => Command::CloseHelp,
            _ => Command::Ignore,
        }
    } else {
        match key.code {
            KeyCode::Char('q') => Command::Quit,
            KeyCode::Esc => Command::Quit,
            KeyCode::Char('c') => if key.ctrl {
                Command::Quit
            } else {
                Command::Unbound
            },
            KeyCode::Char('?') => Command::OpenHelp,
            KeyCode::Char('j') => Command::Next,
            KeyCode::Down => Command::Next,
            KeyCode::Char('k') => Command::Prev,
            KeyCode::Up => Command::Prev,
            KeyCode::Char('g') => Command::GoFirstPrefix,
            KeyCode::Char('G') => Command::Last,
            KeyCode::Char('h') => Command::FocusList,
            KeyCode::Left => Command::FocusList,
            KeyCode::Char('l') => Command::FocusDetail,
            KeyCode::Right => Command::FocusDetail,
            KeyCode::Tab => Command::SwitchTab,
            KeyCode::Enter => Command::Toggle,
            KeyCode::Char('r') => Command::Restart,
            KeyCode::Char('s') => Command::Stop,
            KeyCode::Char('S') => Command::Start,
            _ => Command::Unbound,
        }
    }
}

} // verus!
