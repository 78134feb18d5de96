//! Plain input events and the logical actions a pane emits.
//!
//! The surrounding program translates terminal input into these values and
//! performs the returned actions (playback, clipboard, browser, file
//! edits); the library only decides.

use vstd::prelude::*;

verus! {

/// A key press, already decoded to what the list core distinguishes.
#[derive(Clone, Copy, Debug, PartialEq, Eq, Structural)]
pub enum Key {
    Char(u8),
    Up,
    Down,
    Enter,
    Esc,
    Backspace,
    Other,
}

/// A mouse event: scrolling, or a left button press at a terminal row.
#[derive(Clone, Copy, Debug, PartialEq, Eq, Structural)]
pub enum MouseKind {
    ScrollUp,
    ScrollDown,
    LeftDown(u16),
    Other,
}

/// A terminal event: a key press or a mouse event.
#[derive(Clone, Copy, Debug, PartialEq, Eq, Structural)]
pub enum TermEvent {
    Key(Key),
    Mouse(MouseKind),
    Other,
}

/// A command dispatched to a pane by the surrounding program.
#[derive(Clone, Copy, Debug, PartialEq, Eq, Structural)]
pub enum Command {
    SelectNext,
    SelectPrev,
    QueueSong,
    QueueShown,
    Shuffle,
    OpenInBrowser,
    CopyUrl,
    CopyTitle,
    SwapSongUp,
    SwapSongDown,
    NextSortingMode,
    Other,
}

/// One event of the main loop, as a pane sees it.
#[derive(Clone, Copy, Debug, PartialEq, Eq, Structural)]
pub enum InputEvent {
    Command(Command),
    Terminal(TermEvent),
    SongAdded,
    /// The periodic tick that re-reads external state.
    SecondTick,
    Other,
}

/// The input mode of a pane: browsing, or editing the filter query.
#[derive(Clone, Copy, Debug, PartialEq, Eq, Structural)]
pub enum Mode {
    Normal,
    Insert,
}

/// The outcome of a pointer click on the list area.
#[derive(Clone, Copy, Debug, PartialEq, Eq, Structural)]
pub enum ClickOutcome {
    /// The click landed outside the shown items.
    Miss,
    /// The clicked item was selected.
    Selected,
    /// The clicked item was selected and, as the second click of a double
    /// click, should be activated (played).
    SelectedAndActivated,
}

/// The logical action a pane asks the surrounding program to perform.
/// Paths and titles are byte strings taken from the songs.
#[derive(Debug, PartialEq, Eq)]
pub enum Action {
    Nothing,
    /// Replace playback with this path.
    Play(Vec<u8>),
    /// Append these paths to the play queue.
    Queue(Vec<Vec<u8>>),
    /// Shuffle the play queue.
    Shuffle,
    /// Open this path in a web browser.
    OpenInBrowser(Vec<u8>),
    /// Put this text on the clipboard.
    CopyToClipboard(Vec<u8>),
    /// The backing rows `i` and `i + 1` were swapped; persist the swap.
    SwapFileRows(usize),
}

} // verus!
