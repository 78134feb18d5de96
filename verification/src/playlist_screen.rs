//! The playlist screen: a read-only mirror of the player's own playlist.
//! The player owns the real cursor; this screen only asks it to move and
//! re-reads the state afterwards.

use vstd::prelude::*;
use crate::events::{Command, InputEvent, Key, Mode, TermEvent};

verus! {

/// What the playlist screen asks the surrounding program to do.
#[derive(Clone, Copy, Debug, PartialEq, Eq, Structural)]
pub enum PlaylistAction {
    Nothing,
    /// Ask the player to jump to the next playlist entry, then re-read
    /// its state after a short delay.
    NextSong,
    /// Ask the player to jump to the previous playlist entry, then
    /// re-read its state after a short delay.
    PrevSong,
    /// Re-read the player's playlist and position now.
    Refresh,
}

/// The screen showing the player's current playlist.
pub struct PlaylistScreen {
    /// The playlist entry titles, as last read from the player.
    pub songs: Vec<String>,
    /// The entry currently playing, as last read from the player.
    pub playing: Option<usize>,
}

impl PlaylistScreen {
    /// The playing cursor is none or a valid entry.
    pub open spec fn wf(self) -> bool {
        match self.playing {
            Option::Some(p) => (p as int) < self.songs@.len(),
            Option::None => true,
        }
    }

    /// An empty screen: no entries, nothing playing.
    pub fn new() -> (r: PlaylistScreen)
        ensures
            r.wf(),
            r.songs@.len() == 0,
            r.playing == Option::<usize>::None,
    {
        PlaylistScreen { songs: Vec::new(), playing: Option::None }
    }

    /// Replace the mirrored state with what was read from the player: the
    /// entry titles and the playing position.  An out-of-range position
    /// degrades to none, so the cursor is never stale.
    pub fn update(&mut self, songs: Vec<String>, position: Option<usize>)
        ensures
            final(self).songs == songs,
            final(self).playing == (match position {
                Option::Some(p) => if (p as int) < songs@.len() {
                    Option::Some(p)
                } else {
                    Option::<usize>::None
                },
                Option::None => Option::<usize>::None,
            }),
            final(self).wf(),
    {
        self.songs = songs;
        match position {
            Option::Some(p) => {
                if p < self.songs.len() {
                    self.playing = Option::Some(p);
                } else {
                    self.playing = Option::None;
                }
            },
            Option::None => {
                self.playing = Option::None;
            },
        }
    }

    /// Ask for the next playlist entry; the player moves the cursor, so
    /// the screen state is untouched until the following re-read.
    pub fn select_next(&self) -> (r: PlaylistAction)
        ensures
            r == PlaylistAction::NextSong,
    {
        PlaylistAction::NextSong
    }

    /// Ask for the previous playlist entry; the player moves the cursor,
    /// so the screen state is untouched until the following re-read.
    pub fn select_prev(&self) -> (r: PlaylistAction)
        ensures
            r == PlaylistAction::PrevSong,
    {
        PlaylistAction::PrevSong
    }

    /// The screen never edits text; it is always in normal mode.
    pub fn mode(&self) -> (r: Mode)
        ensures
            r == Mode::Normal,
    {
        Mode::Normal
    }

    /// Map a pane command to a player request.
    pub fn handle_command(&self, cmd: Command) -> (r: PlaylistAction)
        ensures
            r == (match cmd {
                Command::SelectNext => PlaylistAction::NextSong,
                Command::SelectPrev => PlaylistAction::PrevSong,
                _ => PlaylistAction::Nothing,
            }),
    {
        match cmd {
            Command::SelectNext => self.select_next(),
            Command::SelectPrev => self.select_prev(),
            _ => PlaylistAction::Nothing,
        }
    }

    /// Map a terminal event to a player request: arrow keys move the
    /// player's cursor.
    pub fn handle_terminal_event(&self, ev: TermEvent) -> (r: PlaylistAction)
        ensures
            r == (match ev {
                TermEvent::Key(Key::Up) => PlaylistAction::PrevSong,
                TermEvent::Key(Key::Down) => PlaylistAction::NextSong,
                _ => PlaylistAction::Nothing,
            }),
    {
        match ev {
            TermEvent::Key(Key::Up) => self.select_prev(),
            TermEvent::Key(Key::Down) => self.select_next(),
            _ => PlaylistAction::Nothing,
        }
    }

    /// Route one event of the main loop: commands and keys become player
    /// requests, and the periodic tick asks for a re-read of the player's
    /// state.
    pub fn handle_event(&self, event: InputEvent) -> (r: PlaylistAction)
        ensures
            r == (match event {
                InputEvent::Command(cmd) => match cmd {
                    Command::SelectNext => PlaylistAction::NextSong,
                    Command::SelectPrev => PlaylistAction::PrevSong,
                    _ => PlaylistAction::Nothing,
                },
                InputEvent::Terminal(t) => match t {
                    TermEvent::Key(Key::Up) => PlaylistAction::PrevSong,
                    TermEvent::Key(Key::Down) => PlaylistAction::NextSong,
                    _ => PlaylistAction::Nothing,
                },
                InputEvent::SecondTick => PlaylistAction::Refresh,
                _ => PlaylistAction::Nothing,
            }),
    {
        match event {
            InputEvent::Command(cmd) => self.handle_command(cmd),
            InputEvent::Terminal(t) => self.handle_terminal_event(t),
            InputEvent::SecondTick => PlaylistAction::Refresh,
            _ => PlaylistAction::Nothing,
        }
    }
}

} // verus!
