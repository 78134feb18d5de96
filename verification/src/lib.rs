//! Core of a terminal playlist browser: a filtered, sorted, selectable view
//! over a backing collection of songs.
//!
//! The library maintains a *projection* (an ordered sequence of indices into
//! the backing collection), a selection cursor that survives filter, sort and
//! reload changes, a hit-test from pointer rows to logical positions, and a
//! double-click gesture detector.  Rendering, playback, clipboard and file
//! I/O are collaborators outside this crate; the library only reports the
//! logical actions they should perform.

pub mod cursor;
pub mod events;
pub mod filter;
pub mod gesture;
pub mod order;
pub mod pane;
pub mod playlist_screen;
pub mod popup;
pub mod projection;
pub mod song;
