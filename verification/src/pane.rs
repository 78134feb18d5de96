//! The songs pane: the composition of projection, selection cursor, scroll
//! offset and gesture detector behind one public contract.

use vstd::prelude::*;
use crate::cursor::{
    reconcile_after_projection_change, reconcile_after_reload, reconciled, reload_reconciled,
    step_next, step_next_spec, step_prev, step_prev_spec,
};
use crate::events::{Action, ClickOutcome, Command, InputEvent, Key, Mode, MouseKind, TermEvent};
use crate::gesture::{gesture_after, is_double, on_pointer_down, ClickInfo};
use crate::projection::{projection_ok, recompute_projection};
use crate::song::{Song, SortingMethod};

verus! {

/// A pane showing a filtered, sorted, selectable list of songs.
///
/// The fields are public so that contracts can speak of them; they are
/// meant to be changed through the pane's methods, which preserve `wf`.
pub struct SongsPane {
    /// The backing collection, replaced only by `load`.
    pub songs: Vec<Song>,
    /// The projection: the backing indices shown, in display order.
    pub shown: Vec<usize>,
    /// The selection cursor: a position within `shown`, or none.
    pub selected: Option<usize>,
    /// The first visible projection position, reported by the renderer.
    pub offset: usize,
    /// The active ordering policy.
    pub sorting_method: SortingMethod,
    /// The filter query; empty means no filtering.
    pub filter: Vec<u8>,
    /// Whether the filter query is being edited (insert mode).
    pub editing_filter: bool,
    /// The last pointer-down, for double-click detection.
    pub last_click: Option<ClickInfo>,
}

/// What a filter-editing operation leaves behind: the query becomes `q`,
/// the editing flag `editing`, the projection is rebuilt and the selection
/// reconciled in place; everything else is untouched.
pub open spec fn filter_edited(pre: SongsPane, post: SongsPane, q: Seq<u8>, editing: bool) -> bool {
    &&& post.songs == pre.songs
    &&& post.filter@ == q
    &&& post.editing_filter == editing
    &&& post.sorting_method == pre.sorting_method
    &&& post.offset == pre.offset
    &&& post.last_click == pre.last_click
    &&& post.wf()
    &&& reconciled(pre.spec_selected_backing(), post.shown@, post.selected)
}

/// What advancing the sort cycle leaves behind: the next sorting method,
/// a rebuilt projection, the selection reconciled in place.
pub open spec fn sort_cycled(pre: SongsPane, post: SongsPane) -> bool {
    &&& post.songs == pre.songs
    &&& post.filter == pre.filter
    &&& post.editing_filter == pre.editing_filter
    &&& post.sorting_method == pre.sorting_method.next_spec()
    &&& post.offset == pre.offset
    &&& post.last_click == pre.last_click
    &&& post.wf()
    &&& reconciled(pre.spec_selected_backing(), post.shown@, post.selected)
}

/// The selection landing on the last shown position, or cleared.
pub open spec fn last_position(pre: SongsPane) -> Option<usize> {
    if pre.shown@.len() > 0 {
        Option::Some((pre.shown@.len() - 1) as usize)
    } else {
        Option::<usize>::None
    }
}

/// The activation a pane asks for on the selected song: play its path, or
/// nothing when nothing is selected.
pub open spec fn play_post(pre: SongsPane, r: Action) -> bool {
    match pre.spec_selected_backing() {
        Option::Some(b) => r matches Action::Play(v) && v@ == pre.songs@[b as int].path@,
        Option::None => r == Action::Nothing,
    }
}

/// What swapping the selected song with its predecessor leaves behind.
/// The swap happens only while no filter is active and a song with a
/// predecessor is selected; the selection follows the moved song, and the
/// surrounding program is asked to persist the swap of the backing rows.
pub open spec fn swapped_up(pre: SongsPane, post: SongsPane, r: Action) -> bool {
    match pre.spec_selected_backing() {
        Option::Some(b) => if pre.filter@.len() == 0 && b >= 1 {
            &&& post.songs@ == pre.songs@.update(b - 1, pre.songs@[b as int]).update(
                b as int,
                pre.songs@[b - 1],
            )
            &&& post.filter == pre.filter
            &&& post.editing_filter == pre.editing_filter
            &&& post.sorting_method == pre.sorting_method
            &&& post.offset == pre.offset
            &&& post.last_click == pre.last_click
            &&& post.wf()
            &&& reconciled(Option::Some((b - 1) as usize), post.shown@, post.selected)
            &&& r == Action::SwapFileRows((b - 1) as usize)
        } else {
            post == pre && r == Action::Nothing
        },
        Option::None => post == pre && r == Action::Nothing,
    }
}

/// What swapping the selected song with its successor leaves behind; the
/// mirror image of `swapped_up`, guarded so that a selected last song is a
/// no-op rather than an out-of-range access.
pub open spec fn swapped_down(pre: SongsPane, post: SongsPane, r: Action) -> bool {
    match pre.spec_selected_backing() {
        Option::Some(b) => if pre.filter@.len() == 0 && b + 1 < pre.songs@.len() {
            &&& post.songs@ == pre.songs@.update(b as int, pre.songs@[b + 1]).update(
                b + 1,
                pre.songs@[b as int],
            )
            &&& post.filter == pre.filter
            &&& post.editing_filter == pre.editing_filter
            &&& post.sorting_method == pre.sorting_method
            &&& post.offset == pre.offset
            &&& post.last_click == pre.last_click
            &&& post.wf()
            &&& reconciled(Option::Some((b + 1) as usize), post.shown@, post.selected)
            &&& r == Action::SwapFileRows(b)
        } else {
            post == pre && r == Action::Nothing
        },
        Option::None => post == pre && r == Action::Nothing,
    }
}

/// What `handle_filter_key_event` promises for each key.
pub open spec fn filter_key_post(pre: SongsPane, post: SongsPane, key: Key, handled: bool) -> bool {
    match key {
        Key::Char(c) => handled && filter_edited(pre, post, pre.filter@.push(c), pre.editing_filter),
        Key::Backspace => handled && filter_edited(
            pre,
            post,
            if pre.filter@.len() > 0 {
                pre.filter@.drop_last()
            } else {
                pre.filter@
            },
            pre.editing_filter,
        ),
        Key::Esc => handled && filter_edited(pre, post, Seq::empty(), false),
        Key::Enter => handled && post == (SongsPane { editing_filter: false, ..pre }),
        _ => !handled && post == pre,
    }
}

/// What `handle_command` promises for each command.
pub open spec fn command_post(pre: SongsPane, post: SongsPane, cmd: Command, r: Action) -> bool {
    match cmd {
        Command::SelectNext => r == Action::Nothing && post == (SongsPane {
            selected: step_next_spec(pre.selected, pre.shown@.len() as int),
            ..pre
        }),
        Command::SelectPrev => r == Action::Nothing && post == (SongsPane {
            selected: step_prev_spec(pre.selected, pre.shown@.len() as int),
            ..pre
        }),
        Command::QueueSong => post == pre && match pre.spec_selected_backing() {
            Option::Some(b) => r matches Action::Queue(v) && v@.len() == 1 && v@[0]@
                == pre.songs@[b as int].path@,
            Option::None => r == Action::Nothing,
        },
        Command::QueueShown => post == pre && (r matches Action::Queue(v) && v@.len()
            == pre.shown@.len() && (forall|k: int|
            0 <= k < v@.len() ==> v@[k]@ == pre.songs@[pre.shown@[k] as int].path@)),
        Command::Shuffle => post == pre && r == Action::Shuffle,
        Command::OpenInBrowser => post == pre && match pre.spec_selected_backing() {
            Option::Some(b) => r matches Action::OpenInBrowser(v) && v@ == pre.songs@[b as int].path@,
            Option::None => r == Action::Nothing,
        },
        Command::CopyUrl => post == pre && match pre.spec_selected_backing() {
            Option::Some(b) => r matches Action::CopyToClipboard(v) && v@ == pre.songs@[b as int].path@,
            Option::None => r == Action::Nothing,
        },
        Command::CopyTitle => post == pre && match pre.spec_selected_backing() {
            Option::Some(b) => r matches Action::CopyToClipboard(v) && v@
                == pre.songs@[b as int].title@,
            Option::None => r == Action::Nothing,
        },
        Command::SwapSongUp => swapped_up(pre, post, r),
        Command::SwapSongDown => swapped_down(pre, post, r),
        Command::NextSortingMode => r == Action::Nothing && sort_cycled(pre, post),
        Command::Other => post == pre && r == Action::Nothing,
    }
}

/// What `handle_click` followed by double-click activation promises.
pub open spec fn click_post(
    pre: SongsPane,
    post: SongsPane,
    row: u16,
    viewport_top: u16,
    now: u64,
    r: Action,
) -> bool {
    match pre.hit_test_spec(row, viewport_top) {
        Option::None => post == pre && r == Action::Nothing,
        Option::Some(pos) => {
            &&& post == (SongsPane {
                selected: Option::Some(pos),
                last_click: gesture_after(pre.last_click, row, now),
                ..pre
            })
            &&& if is_double(pre.last_click, row, now) {
                r matches Action::Play(v) && v@ == pre.songs@[pre.shown@[pos as int] as int].path@
            } else {
                r == Action::Nothing
            }
        },
    }
}

/// What `handle_terminal_event` promises for each terminal event.
pub open spec fn terminal_post(
    pre: SongsPane,
    post: SongsPane,
    ev: TermEvent,
    now: u64,
    viewport_top: u16,
    r: Action,
) -> bool {
    match ev {
        TermEvent::Key(k) => if pre.editing_filter && (k matches Key::Char(_) || k == Key::Backspace
            || k == Key::Esc || k == Key::Enter) {
            r == Action::Nothing && filter_key_post(pre, post, k, true)
        } else {
            match k {
                Key::Enter => post == pre && play_post(pre, r),
                Key::Esc => r == Action::Nothing && filter_edited(pre, post, Seq::empty(), false),
                Key::Up => r == Action::Nothing && post == (SongsPane {
                    selected: step_prev_spec(pre.selected, pre.shown@.len() as int),
                    ..pre
                }),
                Key::Down => r == Action::Nothing && post == (SongsPane {
                    selected: step_next_spec(pre.selected, pre.shown@.len() as int),
                    ..pre
                }),
                Key::Char(c) => if c == 71 {
                    r == Action::Nothing && post == (SongsPane { selected: last_position(pre), ..pre })
                } else if c == 47 {
                    r == Action::Nothing && filter_edited(pre, post, Seq::empty(), true)
                } else {
                    post == pre && r == Action::Nothing
                },
                _ => post == pre && r == Action::Nothing,
            }
        },
        TermEvent::Mouse(m) => match m {
            MouseKind::ScrollUp => r == Action::Nothing && post == (SongsPane {
                selected: step_prev_spec(pre.selected, pre.shown@.len() as int),
                ..pre
            }),
            MouseKind::ScrollDown => r == Action::Nothing && post == (SongsPane {
                selected: step_next_spec(pre.selected, pre.shown@.len() as int),
                ..pre
            }),
            MouseKind::LeftDown(row) => click_post(pre, post, row, viewport_top, now, r),
            MouseKind::Other => post == pre && r == Action::Nothing,
        },
        TermEvent::Other => post == pre && r == Action::Nothing,
    }
}

/// Copy a byte string.
fn clone_bytes(v: &Vec<u8>) -> (r: Vec<u8>)
    ensures
        r@ == v@,
{
    let mut r: Vec<u8> = Vec::new();
    let mut i: usize = 0;
    while i < v.len()
        invariant
            i <= v@.len(),
            r@ == v@.subrange(0, i as int),
        decreases v@.len() - i,
    {
        let ghost prev = r@;
        r.push(v[i]);
        proof {
            assert(v@.subrange(0, i + 1) =~= prev.push(v@[i as int]));
        }
        i += 1;
    }
    proof {
        assert(v@.subrange(0, v@.len() as int) =~= v@);
    }
    r
}

impl SongsPane {
    /// The selection cursor is none or a valid projection position.
    pub open spec fn cursor_ok(self) -> bool {
        match self.selected {
            Option::Some(p) => (p as int) < self.shown@.len(),
            Option::None => true,
        }
    }

    /// The projection is the one derived from the current backing
    /// collection, filter query and sorting method.
    pub open spec fn proj_ok(self) -> bool {
        projection_ok(self.songs@, self.filter@, self.sorting_method, self.shown@)
    }

    /// The pane invariant: constructors establish it, methods preserve it.
    pub open spec fn wf(self) -> bool {
        self.proj_ok() && self.cursor_ok()
    }

    /// The backing index of the selected item, or none.
    pub open spec fn spec_selected_backing(self) -> Option<usize> {
        match self.selected {
            Option::Some(p) => Option::Some(self.shown@[p as int]),
            Option::None => Option::None,
        }
    }

    /// An empty pane: no songs, nothing shown, nothing selected.
    pub fn new() -> (r: SongsPane)
        ensures
            r.wf(),
            r.songs@.len() == 0,
            r.shown@.len() == 0,
            r.selected == Option::<usize>::None,
            r.offset == 0,
            r.sorting_method == SortingMethod::Index,
            r.filter@.len() == 0,
            !r.editing_filter,
            r.last_click == Option::<ClickInfo>::None,
    {
        SongsPane {
            songs: Vec::new(),
            shown: Vec::new(),
            selected: Option::None,
            offset: 0,
            sorting_method: SortingMethod::Index,
            filter: Vec::new(),
            editing_filter: false,
            last_click: Option::None,
        }
    }

    /// The backing index of the selected item, or none.
    pub fn selected_index(&self) -> (r: Option<usize>)
        requires
            self.cursor_ok(),
        ensures
            r == self.spec_selected_backing(),
    {
        match self.selected {
            Option::Some(p) => Option::Some(self.shown[p]),
            Option::None => Option::None,
        }
    }

    /// A reference to the selected song, or none.
    pub fn selected_item(&self) -> (r: Option<&Song>)
        requires
            self.wf(),
        ensures
            match self.selected {
                Option::Some(p) => r matches Option::Some(s)
                    && *s == self.songs@[self.shown@[p as int] as int],
                Option::None => r matches Option::None,
            },
    {
        match self.selected {
            Option::Some(p) => {
                let b = self.shown[p];
                Option::Some(&self.songs[b])
            },
            Option::None => Option::None,
        }
    }

    /// The pane's input mode, derived from the explicit editing flag.
    pub fn mode(&self) -> (r: Mode)
        ensures
            r == (if self.editing_filter {
                Mode::Insert
            } else {
                Mode::Normal
            }),
    {
        if self.editing_filter {
            Mode::Insert
        } else {
            Mode::Normal
        }
    }

    /// Recompute the projection from the current fields and reconcile the
    /// cursor in place (the selection follows its backing index).
    fn refresh_and_reconcile(&mut self)
        requires
            old(self).cursor_ok(),
        ensures
            final(self).songs == old(self).songs,
            final(self).filter == old(self).filter,
            final(self).editing_filter == old(self).editing_filter,
            final(self).sorting_method == old(self).sorting_method,
            final(self).offset == old(self).offset,
            final(self).last_click == old(self).last_click,
            final(self).wf(),
            reconciled(
                old(self).spec_selected_backing(),
                final(self).shown@,
                final(self).selected,
            ),
    {
        let old_backing = self.selected_index();
        let shown = recompute_projection(&self.songs, &self.filter, self.sorting_method);
        self.shown = shown;
        self.selected = reconcile_after_projection_change(old_backing, &self.shown);
    }

    /// Replace the backing collection.  The filter is cleared, the
    /// projection recomputed, the gesture state dropped, and the cursor
    /// reconciled by the reload rule: its prior *position* is kept when
    /// `preserve_selection` asks for it and the position is still in
    /// range, else it falls back to the first position, else it clears.
    pub fn load(&mut self, songs: Vec<Song>, preserve_selection: bool)
        ensures
            final(self).songs == songs,
            final(self).filter@.len() == 0,
            !final(self).editing_filter,
            final(self).sorting_method == old(self).sorting_method,
            final(self).last_click == Option::<ClickInfo>::None,
            final(self).offset == (if preserve_selection {
                old(self).offset
            } else {
                0
            }),
            final(self).wf(),
            reload_reconciled(
                if preserve_selection {
                    old(self).selected
                } else {
                    Option::<usize>::None
                },
                final(self).shown@.len() as int,
                final(self).selected,
            ),
    {
        let old_pos: Option<usize> = if preserve_selection {
            self.selected
        } else {
            Option::None
        };
        if !preserve_selection {
            self.offset = 0;
        }
        self.songs = songs;
        self.filter = Vec::new();
        self.editing_filter = false;
        self.last_click = Option::None;
        let shown = recompute_projection(&self.songs, &self.filter, self.sorting_method);
        self.shown = shown;
        self.selected = reconcile_after_reload(old_pos, self.shown.len());
    }

    /// Enter filter editing with an empty query.  Every song is shown
    /// again and the selection follows its backing index.
    pub fn start_filter(&mut self)
        requires
            old(self).wf(),
        ensures
            filter_edited(*old(self), *final(self), Seq::empty(), true),
    {
        self.filter = Vec::new();
        self.editing_filter = true;
        self.refresh_and_reconcile();
    }

    /// Append one byte to the filter query and reproject; the selection
    /// follows its backing index where the new query still shows it.
    pub fn set_filter_char(&mut self, c: u8)
        requires
            old(self).wf(),
        ensures
            filter_edited(*old(self), *final(self), old(self).filter@.push(c), old(self).editing_filter),
    {
        self.filter.push(c);
        self.refresh_and_reconcile();
    }

    /// Drop the last byte of the filter query (a no-op on an empty query)
    /// and reproject.
    pub fn backspace(&mut self)
        requires
            old(self).wf(),
        ensures
            filter_edited(
                *old(self),
                *final(self),
                if old(self).filter@.len() > 0 {
                    old(self).filter@.drop_last()
                } else {
                    old(self).filter@
                },
                old(self).editing_filter,
            ),
    {
        let _ = self.filter.pop();
        self.refresh_and_reconcile();
    }

    /// Leave filter editing; the query and the projection stay.
    pub fn commit_filter(&mut self)
        requires
            old(self).wf(),
        ensures
            *final(self) == (SongsPane { editing_filter: false, ..*old(self) }),
            final(self).wf(),
    {
        self.editing_filter = false;
    }

    /// Clear the filter query and leave editing; every song is shown again
    /// and the selection follows its backing index.
    pub fn clear_filter(&mut self)
        requires
            old(self).wf(),
        ensures
            filter_edited(*old(self), *final(self), Seq::empty(), false),
    {
        self.filter = Vec::new();
        self.editing_filter = false;
        self.refresh_and_reconcile();
    }

    /// Advance the sorting method one step in its cycle and reproject; the
    /// selection follows its backing index.
    pub fn cycle_sort(&mut self)
        requires
            old(self).wf(),
        ensures
            sort_cycled(*old(self), *final(self)),
    {
        self.sorting_method = self.sorting_method.next();
        self.refresh_and_reconcile();
    }

    /// Move the selection one step forward, clamped; see `step_next_spec`.
    pub fn select_next(&mut self)
        requires
            old(self).wf(),
        ensures
            *final(self) == (SongsPane {
                selected: step_next_spec(old(self).selected, old(self).shown@.len() as int),
                ..*old(self)
            }),
            final(self).wf(),
    {
        self.selected = step_next(self.selected, self.shown.len());
    }

    /// Move the selection one step back, clamped; see `step_prev_spec`.
    pub fn select_prev(&mut self)
        requires
            old(self).wf(),
        ensures
            *final(self) == (SongsPane {
                selected: step_prev_spec(old(self).selected, old(self).shown@.len() as int),
                ..*old(self)
            }),
            final(self).wf(),
    {
        self.selected = step_prev(self.selected, self.shown.len());
    }

    /// Set the selection to a projection position.  An out-of-range
    /// position degrades to no selection, so the cursor is never stale.
    pub fn select_index(&mut self, i: Option<usize>)
        requires
            old(self).wf(),
        ensures
            *final(self) == (SongsPane {
                selected: match i {
                    Option::Some(p) => if (p as int) < old(self).shown@.len() {
                        Option::Some(p)
                    } else {
                        Option::<usize>::None
                    },
                    Option::None => Option::<usize>::None,
                },
                ..*old(self)
            }),
            final(self).wf(),
    {
        match i {
            Option::Some(p) => {
                if p < self.shown.len() {
                    self.selected = Option::Some(p);
                } else {
                    self.selected = Option::None;
                }
            },
            Option::None => {
                self.selected = Option::None;
            },
        }
    }

    /// Select the first shown item, or nothing when nothing is shown.
    pub fn select_first(&mut self)
        requires
            old(self).wf(),
        ensures
            *final(self) == (SongsPane {
                selected: if old(self).shown@.len() > 0 {
                    Option::Some(0usize)
                } else {
                    Option::<usize>::None
                },
                ..*old(self)
            }),
            final(self).wf(),
    {
        if self.shown.len() > 0 {
            self.selected = Option::Some(0);
        } else {
            self.selected = Option::None;
        }
    }

    /// Select the last shown item, or nothing when nothing is shown.
    pub fn select_last(&mut self)
        requires
            old(self).wf(),
        ensures
            *final(self) == (SongsPane {
                selected: if old(self).shown@.len() > 0 {
                    Option::Some((old(self).shown@.len() - 1) as usize)
                } else {
                    Option::<usize>::None
                },
                ..*old(self)
            }),
            final(self).wf(),
    {
        if self.shown.len() > 0 {
            self.selected = Option::Some(self.shown.len() - 1);
        } else {
            self.selected = Option::None;
        }
    }

    /// Record the scroll offset the renderer used for the last frame; the
    /// hit test reads it.
    pub fn note_rendered(&mut self, offset: usize)
        requires
            old(self).wf(),
        ensures
            *final(self) == (SongsPane { offset, ..*old(self) }),
            final(self).wf(),
    {
        self.offset = offset;
    }

    /// Where a click at terminal row `row` lands: the logical projection
    /// position `(row - viewport_top) + offset`, or none when the click is
    /// above the viewport or below the last shown item.
    pub open spec fn hit_test_spec(self, row: u16, viewport_top: u16) -> Option<usize> {
        if row >= viewport_top && (row - viewport_top) + self.offset < self.shown@.len() {
            Option::Some(((row - viewport_top) + self.offset) as usize)
        } else {
            Option::<usize>::None
        }
    }

    /// Map a pointer row to a logical projection position; see
    /// `hit_test_spec`.  Total: out-of-range rows and offsets yield none.
    pub fn hit_test(&self, row: u16, viewport_top: u16) -> (r: Option<usize>)
        ensures
            r == self.hit_test_spec(row, viewport_top),
    {
        if row < viewport_top {
            return Option::None;
        }
        let line = (row - viewport_top) as usize;
        if self.offset >= self.shown.len() {
            return Option::None;
        }
        if line >= self.shown.len() - self.offset {
            return Option::None;
        }
        Option::Some(line + self.offset)
    }

    /// Handle a left pointer-down at terminal row `row` and time `now`.
    /// A miss changes nothing; a hit selects the clicked position and runs
    /// the gesture detector, and the second click of a double click asks
    /// for activation.
    pub fn handle_click(&mut self, row: u16, viewport_top: u16, now: u64) -> (r: ClickOutcome)
        requires
            old(self).wf(),
        ensures
            final(self).wf(),
            match old(self).hit_test_spec(row, viewport_top) {
                Option::None => r == ClickOutcome::Miss && *final(self) == *old(self),
                Option::Some(pos) => {
                    &&& *final(self) == (SongsPane {
                        selected: Option::Some(pos),
                        last_click: gesture_after(old(self).last_click, row, now),
                        ..*old(self)
                    })
                    &&& r == (if is_double(old(self).last_click, row, now) {
                        ClickOutcome::SelectedAndActivated
                    } else {
                        ClickOutcome::Selected
                    })
                },
            },
    {
        match self.hit_test(row, viewport_top) {
            Option::None => ClickOutcome::Miss,
            Option::Some(pos) => {
                self.selected = Option::Some(pos);
                let double = on_pointer_down(&mut self.last_click, row, now);
                if double {
                    ClickOutcome::SelectedAndActivated
                } else {
                    ClickOutcome::Selected
                }
            },
        }
    }

    /// The paths of the shown songs, in display order.
    pub fn shown_paths(&self) -> (r: Vec<Vec<u8>>)
        requires
            self.wf(),
        ensures
            r@.len() == self.shown@.len(),
            forall|k: int| 0 <= k < r@.len() ==> r@[k]@ == self.songs@[self.shown@[k] as int].path@,
    {
        let mut r: Vec<Vec<u8>> = Vec::new();
        let mut k: usize = 0;
        while k < self.shown.len()
            invariant
                self.wf(),
                k <= self.shown@.len(),
                r@.len() == k,
                forall|t: int|
                    0 <= t < k ==> r@[t]@ == self.songs@[self.shown@[t] as int].path@,
            decreases self.shown@.len() - k,
        {
            let b = self.shown[k];
            r.push(clone_bytes(&self.songs[b].path));
            k += 1;
        }
        r
    }

    /// Ask to play the selected song, as the Enter key and a double click
    /// do; see `play_post`.
    pub fn play_selected(&self) -> (r: Action)
        requires
            self.wf(),
        ensures
            play_post(*self, r),
    {
        match self.selected {
            Option::Some(p) => {
                let b = self.shown[p];
                Action::Play(clone_bytes(&self.songs[b].path))
            },
            Option::None => Action::Nothing,
        }
    }

    /// Route one key press to the filter editor; see `filter_key_post`.
    /// The result says whether the key was consumed.
    pub fn handle_filter_key_event(&mut self, key: Key) -> (handled: bool)
        requires
            old(self).wf(),
        ensures
            final(self).wf(),
            filter_key_post(*old(self), *final(self), key, handled),
    {
        match key {
            Key::Char(c) => {
                self.set_filter_char(c);
                true
            },
            Key::Backspace => {
                self.backspace();
                true
            },
            Key::Esc => {
                self.clear_filter();
                true
            },
            Key::Enter => {
                self.commit_filter();
                true
            },
            _ => false,
        }
    }

    /// Execute one pane command; see `command_post` for what each command
    /// does and which action it asks of the surrounding program.
    pub fn handle_command(&mut self, cmd: Command) -> (r: Action)
        requires
            old(self).wf(),
        ensures
            final(self).wf(),
            command_post(*old(self), *final(self), cmd, r),
    {
        match cmd {
            Command::SelectNext => {
                self.select_next();
                Action::Nothing
            },
            Command::SelectPrev => {
                self.select_prev();
                Action::Nothing
            },
            Command::QueueSong => {
                match self.selected {
                    Option::Some(p) => {
                        let b = self.shown[p];
                        let mut v: Vec<Vec<u8>> = Vec::new();
                        v.push(clone_bytes(&self.songs[b].path));
                        Action::Queue(v)
                    },
                    Option::None => Action::Nothing,
                }
            },
            Command::QueueShown => Action::Queue(self.shown_paths()),
            Command::Shuffle => Action::Shuffle,
            Command::OpenInBrowser => {
                match self.selected {
                    Option::Some(p) => {
                        let b = self.shown[p];
                        Action::OpenInBrowser(clone_bytes(&self.songs[b].path))
                    },
                    Option::None => Action::Nothing,
                }
            },
            Command::CopyUrl => {
                match self.selected {
                    Option::Some(p) => {
                        let b = self.shown[p];
                        Action::CopyToClipboard(clone_bytes(&self.songs[b].path))
                    },
                    Option::None => Action::Nothing,
                }
            },
            Command::CopyTitle => {
                match self.selected {
                    Option::Some(p) => {
                        let b = self.shown[p];
                        Action::CopyToClipboard(clone_bytes(&self.songs[b].title))
                    },
                    Option::None => Action::Nothing,
                }
            },
            Command::SwapSongUp => self.swap_selected_up(),
            Command::SwapSongDown => self.swap_selected_down(),
            Command::NextSortingMode => {
                self.cycle_sort();
                Action::Nothing
            },
            Command::Other => Action::Nothing,
        }
    }

    /// Swap the selected song with its predecessor in the backing
    /// collection; see `swapped_up`.
    pub fn swap_selected_up(&mut self) -> (r: Action)
        requires
            old(self).wf(),
        ensures
            final(self).wf(),
            swapped_up(*old(self), *final(self), r),
    {
        if self.filter.len() != 0 {
            return Action::Nothing;
        }
        match self.selected {
            Option::Some(p) => {
                let b = self.shown[p];
                if b >= 1 {
                    let ghost pre_songs = self.songs@;
                    let s = self.songs.remove(b - 1);
                    let ghost mid = self.songs@;
                    self.songs.insert(b, s);
                    proof {
                        pre_songs.remove_ensures(b - 1);
                        mid.insert_ensures(b as int, s);
                        assert(self.songs@ =~= pre_songs.update(b - 1, pre_songs[b as int]).update(
                            b as int,
                            pre_songs[b - 1],
                        ));
                    }
                    let shown = recompute_projection(&self.songs, &self.filter, self.sorting_method);
                    self.shown = shown;
                    self.selected = reconcile_after_projection_change(
                        Option::Some(b - 1),
                        &self.shown,
                    );
                    Action::SwapFileRows(b - 1)
                } else {
                    Action::Nothing
                }
            },
            Option::None => Action::Nothing,
        }
    }

    /// Swap the selected song with its successor in the backing
    /// collection; see `swapped_down`.
    pub fn swap_selected_down(&mut self) -> (r: Action)
        requires
            old(self).wf(),
        ensures
            final(self).wf(),
            swapped_down(*old(self), *final(self), r),
    {
        if self.filter.len() != 0 {
            return Action::Nothing;
        }
        match self.selected {
            Option::Some(p) => {
                let b = self.shown[p];
                let n = self.songs.len();
                if b < n && b + 1 < n {
                    let ghost pre_songs = self.songs@;
                    let s = self.songs.remove(b);
                    let ghost mid = self.songs@;
                    self.songs.insert(b + 1, s);
                    proof {
                        pre_songs.remove_ensures(b as int);
                        mid.insert_ensures(b + 1, s);
                        assert(self.songs@ =~= pre_songs.update(b as int, pre_songs[b + 1]).update(
                            b + 1,
                            pre_songs[b as int],
                        ));
                    }
                    let shown = recompute_projection(&self.songs, &self.filter, self.sorting_method);
                    self.shown = shown;
                    self.selected = reconcile_after_projection_change(
                        Option::Some(b + 1),
                        &self.shown,
                    );
                    Action::SwapFileRows(b)
                } else {
                    Action::Nothing
                }
            },
            Option::None => Action::Nothing,
        }
    }

    /// Route one terminal event: filter editing first while in insert
    /// mode, then navigation, activation and clicks; see `terminal_post`.
    pub fn handle_terminal_event(&mut self, ev: TermEvent, now: u64, viewport_top: u16) -> (r:
        Action)
        requires
            old(self).wf(),
        ensures
            final(self).wf(),
            terminal_post(*old(self), *final(self), ev, now, viewport_top, r),
    {
        match ev {
            TermEvent::Key(k) => {
                if self.editing_filter {
                    let handled = self.handle_filter_key_event(k);
                    if handled {
                        return Action::Nothing;
                    }
                }
                match k {
                    Key::Enter => self.play_selected(),
                    Key::Esc => {
                        self.clear_filter();
                        Action::Nothing
                    },
                    Key::Up => {
                        self.select_prev();
                        Action::Nothing
                    },
                    Key::Down => {
                        self.select_next();
                        Action::Nothing
                    },
                    Key::Char(c) => {
                        if c == 71 {
                            self.select_last();
                            Action::Nothing
                        } else if c == 47 {
                            self.start_filter();
                            Action::Nothing
                        } else {
                            Action::Nothing
                        }
                    },
                    _ => Action::Nothing,
                }
            },
            TermEvent::Mouse(m) => {
                match m {
                    MouseKind::ScrollUp => {
                        self.select_prev();
                        Action::Nothing
                    },
                    MouseKind::ScrollDown => {
                        self.select_next();
                        Action::Nothing
                    },
                    MouseKind::LeftDown(row) => {
                        let outcome = self.handle_click(row, viewport_top, now);
                        if outcome == ClickOutcome::SelectedAndActivated {
                            self.play_selected()
                        } else {
                            Action::Nothing
                        }
                    },
                    MouseKind::Other => Action::Nothing,
                }
            },
            TermEvent::Other => Action::Nothing,
        }
    }

    /// Route one event of the main loop to the pane; commands and terminal
    /// events as in `command_post` and `terminal_post`, and a song
    /// appended to the playlist scrolls the selection to the bottom.
    pub fn handle_event(&mut self, event: InputEvent, now: u64, viewport_top: u16) -> (r: Action)
        requires
            old(self).wf(),
        ensures
            final(self).wf(),
            match event {
                InputEvent::Command(cmd) => command_post(*old(self), *final(self), cmd, r),
                InputEvent::Terminal(t) => terminal_post(
                    *old(self),
                    *final(self),
                    t,
                    now,
                    viewport_top,
                    r,
                ),
                InputEvent::SongAdded => r == Action::Nothing && *final(self) == (SongsPane {
                    selected: last_position(*old(self)),
                    ..*old(self)
                }),
                InputEvent::SecondTick => r == Action::Nothing && *final(self) == *old(self),
                InputEvent::Other => r == Action::Nothing && *final(self) == *old(self),
            },
    {
        match event {
            InputEvent::Command(cmd) => self.handle_command(cmd),
            InputEvent::Terminal(t) => self.handle_terminal_event(t, now, viewport_top),
            InputEvent::SongAdded => {
                self.select_last();
                Action::Nothing
            },
            InputEvent::SecondTick => Action::Nothing,
            InputEvent::Other => Action::Nothing,
        }
    }
}

} // verus!
