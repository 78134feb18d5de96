//! A popup box that asks for one line of user input.

use vstd::prelude::*;
use crate::events::{InputEvent, Key, TermEvent};

verus! {

/// What a popup reports back to its owner after an event.
#[derive(Debug, PartialEq, Eq)]
pub enum Message {
    /// Keep the popup open.
    Nothing,
    /// Close the popup without committing.
    Quit,
    /// The user committed this input.
    Commit(Vec<u8>),
}

/// A popup box that asks for user input.
pub struct Popup {
    /// The prompt shown above the input.
    pub title: String,
    /// The input typed so far.
    pub input: Vec<u8>,
}

impl Popup {
    /// An empty popup with the given prompt.
    pub fn new(title: &str) -> (r: Popup)
        ensures
            r.title@ == title@,
            r.input@.len() == 0,
    {
        Popup { title: title.to_owned(), input: Vec::new() }
    }

    /// Feed one event to the popup.  Typed bytes extend the input,
    /// backspace shortens it, escape clears it and closes, enter commits
    /// and hands the input over; everything else changes nothing.
    pub fn handle_event(&mut self, event: InputEvent) -> (r: Message)
        ensures
            final(self).title == old(self).title,
            match event {
                InputEvent::Terminal(TermEvent::Key(k)) => match k {
                    Key::Char(c) => r == Message::Nothing && final(self).input@ == old(
                        self,
                    ).input@.push(c),
                    Key::Backspace => r == Message::Nothing && final(self).input@ == (if old(
                        self,
                    ).input@.len() > 0 {
                        old(self).input@.drop_last()
                    } else {
                        old(self).input@
                    }),
                    Key::Esc => r == Message::Quit && final(self).input@.len() == 0,
                    Key::Enter => (r matches Message::Commit(s) && s@ == old(self).input@)
                        && final(self).input@.len() == 0,
                    _ => r == Message::Nothing && final(self).input == old(self).input,
                },
                _ => r == Message::Nothing && final(self).input == old(self).input,
            },
    {
        match event {
            InputEvent::Terminal(TermEvent::Key(k)) => match k {
                Key::Char(c) => {
                    self.input.push(c);
                    Message::Nothing
                },
                Key::Backspace => {
                    let _ = self.input.pop();
                    Message::Nothing
                },
                Key::Esc => {
                    self.input.clear();
                    Message::Quit
                },
                Key::Enter => {
                    let mut taken: Vec<u8> = Vec::new();
                    core::mem::swap(&mut taken, &mut self.input);
                    Message::Commit(taken)
                },
                _ => Message::Nothing,
            },
            _ => Message::Nothing,
        }
    }
}

} // verus!
