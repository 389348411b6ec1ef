//! Keys and the actions they map to.
use vstd::prelude::*;

verus! {

/// The key that was pressed, as far as the client's bindings tell keys apart.
#[derive(Debug, PartialEq, Eq, Structural, Clone, Copy)]
pub enum KeyCode {
    Char(char),
    Up,
    Down,
    Left,
    Right,
    Enter,
    Esc,
    Backspace,
    Delete,
    Tab,
    BackTab,
    PageUp,
    PageDown,
    Home,
    End,
    /// Any other key.
    Other,
}

/// A key press: the key and whether Control was the only modifier held.
#[derive(Debug, PartialEq, Eq, Structural, Clone, Copy)]
pub struct KeyInput {
    pub code: KeyCode,
    pub control_only: bool,
}

/// Actions that map to app behaviour.
#[derive(Debug, PartialEq, Eq, Structural, Clone, Copy)]
pub enum Action {
    Quit,
    NavUp,
    NavDown,
    Select,
    Back,
    FocusSidebar,
    FocusMain,
    PlayPause,
    Next,
    Prev,
    VolumeUp,
    VolumeDown,
    ToggleMute,
    TogglePower,
    OpenConfig,
    AddToQueue,
    ClearQueue,
    DeleteQueueItem,
    Stop,
    ToggleShuffle,
    ToggleRepeat,
    ToggleFullArtMode,
    PageUp,
    PageDown,
    Home,
    End,
    ToggleFocus,
    ScopePrev,
    ScopeNext,
    NavToSidebar(usize),
    /// Opens the filter of the main list (or edits its query again).
    OpenLocalFilter,
    Nothing,
}

/// The context-free action bound to a key.
pub open spec fn spec_key_to_action(key: KeyInput) -> Action {
    match key.code {
        KeyCode::Char(c) => {
            if c == 'q' || (c == 'c' && key.control_only) {
                Action::Quit
            } else if c == 'k' {
                Action::NavUp
            } else if c == 'j' {
                Action::NavDown
            } else if c == 'l' {
                Action::Select
            } else if c == 'h' {
                Action::Back
            } else if c == ' ' {
                Action::PlayPause
            } else if c == 'n' {
                Action::Next
            } else if c == 'p' {
                Action::Prev
            } else if c == '+' || c == '=' {
                Action::VolumeUp
            } else if c == '-' {
                Action::VolumeDown
            } else if c == 'm' {
                Action::ToggleMute
            } else if c == 't' {
                Action::TogglePower
            } else if c == 'c' {
                Action::OpenConfig
            } else if c == 'a' {
                Action::AddToQueue
            } else if c == 'x' {
                Action::ClearQueue
            } else if c == 'd' {
                Action::DeleteQueueItem
            } else if c == 's' {
                Action::ToggleShuffle
            } else if c == 'r' {
                Action::ToggleRepeat
            } else if c == '`' {
                Action::ToggleFullArtMode
            } else if c == '[' {
                Action::ScopePrev
            } else if c == ']' {
                Action::ScopeNext
            } else if c == '/' {
                Action::OpenLocalFilter
            } else if '1' <= c <= '9' {
                Action::NavToSidebar((c as u32 - '1' as u32) as usize)
            } else {
                Action::Nothing
            }
        },
        KeyCode::Up => Action::NavUp,
        KeyCode::Down => Action::NavDown,
        KeyCode::Enter => Action::Select,
        KeyCode::Esc | KeyCode::Backspace => Action::Back,
        KeyCode::Left => Action::FocusSidebar,
        KeyCode::Right => Action::FocusMain,
        KeyCode::Delete => Action::DeleteQueueItem,
        KeyCode::PageUp => Action::PageUp,
        KeyCode::PageDown => Action::PageDown,
        KeyCode::Home => Action::Home,
        KeyCode::End => Action::End,
        KeyCode::Tab | KeyCode::BackTab => Action::ToggleFocus,
        KeyCode::Other => Action::Nothing,
    }
}

/// Maps a key to its context-free action. (In the Players view `s` opens the sync dialog
/// before this mapping is consulted.)
pub fn key_to_action(key: KeyInput) -> (r: Action)
    ensures
        r == spec_key_to_action(key),
{
    match key.code {
        KeyCode::Char(c) => {
            if c == 'q' || (c == 'c' && key.control_only) {
                Action::Quit
            } else if c == 'k' {
                Action::NavUp
            } else if c == 'j' {
                Action::NavDown
            } else if c == 'l' {
                Action::Select
            } else if c == 'h' {
                Action::Back
            } else if c == ' ' {
                Action::PlayPause
            } else if c == 'n' {
                Action::Next
            } else if c == 'p' {
                Action::Prev
            } else if c == '+' || c == '=' {
                Action::VolumeUp
            } else if c == '-' {
                Action::VolumeDown
            } else if c == 'm' {
                Action::ToggleMute
            } else if c == 't' {
                Action::TogglePower
            } else if c == 'c' {
                Action::OpenConfig
            } else if c == 'a' {
                Action::AddToQueue
            } else if c == 'x' {
                Action::ClearQueue
            } else if c == 'd' {
                Action::DeleteQueueItem
            } else if c == 's' {
                Action::ToggleShuffle
            } else if c == 'r' {
                Action::ToggleRepeat
            } else if c == '`' {
                Action::ToggleFullArtMode
            } else if c == '[' {
                Action::ScopePrev
            } else if c == ']' {
                Action::ScopeNext
            } else if c == '/' {
                Action::OpenLocalFilter
            } else if '1' <= c && c <= '9' {
                Action::NavToSidebar((c as u32 - '1' as u32) as usize)
            } else {
                Action::Nothing
            }
        },
        KeyCode::Up => Action::NavUp,
        KeyCode::Down => Action::NavDown,
        KeyCode::Enter => Action::Select,
        KeyCode::Esc | KeyCode::Backspace => Action::Back,
        KeyCode::Left => Action::FocusSidebar,
        KeyCode::Right => Action::FocusMain,
        KeyCode::Delete => Action::DeleteQueueItem,
        KeyCode::PageUp => Action::PageUp,
        KeyCode::PageDown => Action::PageDown,
        KeyCode::Home => Action::Home,
        KeyCode::End => Action::End,
        KeyCode::Tab | KeyCode::BackTab => Action::ToggleFocus,
        KeyCode::Other => Action::Nothing,
    }
}

} // verus!
