use tori_core::events::{
    Action, ClickOutcome, Command, InputEvent, Key, Mode, MouseKind, TermEvent,
};
use tori_core::pane::SongsPane;
use tori_core::playlist_screen::{PlaylistAction, PlaylistScreen};
use tori_core::popup::{Message, Popup};
use tori_core::song::{Song, SortingMethod};

fn song(title: &str, path: &str, duration: u64) -> Song {
    Song { title: title.as_bytes().to_vec(), path: path.as_bytes().to_vec(), duration }
}

fn pane_with(titles: &[(&str, &str, u64)]) -> SongsPane {
    let mut pane = SongsPane::new();
    let songs: Vec<Song> = titles.iter().map(|(t, p, d)| song(t, p, *d)).collect();
    pane.load(songs, false);
    pane
}

#[test]
fn selection_survives_filter_that_keeps_it() {
    let mut pane = pane_with(&[("alpha", "1", 1), ("mango", "2", 2), ("zebra", "3", 3)]);
    pane.select_index(Some(1));
    assert_eq!(pane.selected_index(), Some(1));
    pane.start_filter();
    pane.set_filter_char(b'a');
    assert_eq!(pane.selected_index(), Some(1));
    assert_eq!(pane.selected_item().unwrap().title, b"mango".to_vec());
}

#[test]
fn selection_falls_back_on_exclusion() {
    let mut pane = pane_with(&[("alpha", "1", 1), ("mango", "2", 2), ("zebra", "3", 3)]);
    pane.select_index(Some(1));
    pane.start_filter();
    pane.set_filter_char(b'z');
    assert_eq!(pane.selected, Some(0));
    assert_eq!(pane.selected_item().unwrap().title, b"zebra".to_vec());
}

#[test]
fn selection_clears_on_total_exclusion() {
    let mut pane = pane_with(&[("alpha", "1", 1), ("mango", "2", 2)]);
    pane.select_index(Some(0));
    pane.start_filter();
    pane.set_filter_char(b'q');
    assert_eq!(pane.selected, None);
    assert!(pane.selected_item().is_none());
}

#[test]
fn hit_test_boundary() {
    let rows: Vec<(String, String, u64)> =
        (0..12).map(|i| (format!("t{}", i), format!("p{}", i), i as u64)).collect();
    let slices: Vec<(&str, &str, u64)> =
        rows.iter().map(|(t, p, d)| (t.as_str(), p.as_str(), *d)).collect();
    let mut pane = pane_with(&slices);
    pane.note_rendered(2);
    assert_eq!(pane.hit_test(5, 5), Some(2));
    assert_eq!(pane.hit_test(14, 5), Some(11));
    assert_eq!(pane.hit_test(15, 5), None);
    assert_eq!(pane.hit_test(4, 5), None);
}

#[test]
fn hit_test_below_shown_items_misses() {
    let mut pane = pane_with(&[("a", "1", 1), ("b", "2", 2), ("c", "3", 3), ("d", "4", 4)]);
    pane.note_rendered(2);
    assert_eq!(pane.hit_test(5, 5), Some(2));
    assert_eq!(pane.hit_test(6, 5), Some(3));
    assert_eq!(pane.hit_test(7, 5), None);
}

#[test]
fn click_selects_and_double_click_activates() {
    let mut pane = pane_with(&[("a", "p0", 1), ("b", "p1", 2), ("c", "p2", 3)]);
    assert_eq!(pane.handle_click(1, 0, 1000), ClickOutcome::Selected);
    assert_eq!(pane.selected_index(), Some(1));
    assert_eq!(pane.handle_click(1, 0, 1100), ClickOutcome::SelectedAndActivated);
    assert_eq!(pane.handle_click(9, 0, 1200), ClickOutcome::Miss);
    assert_eq!(pane.selected_index(), Some(1));
}

#[test]
fn double_click_plays_clicked_song() {
    let mut pane = pane_with(&[("a", "p0", 1), ("b", "p1", 2)]);
    let down = TermEvent::Mouse(MouseKind::LeftDown(1));
    assert_eq!(pane.handle_terminal_event(down, 1000, 0), Action::Nothing);
    assert_eq!(
        pane.handle_terminal_event(down, 1100, 0),
        Action::Play(b"p1".to_vec())
    );
}

#[test]
fn empty_pane_operations_do_not_panic() {
    let mut pane = SongsPane::new();
    assert_eq!(pane.selected_index(), None);
    assert!(pane.selected_item().is_none());
    assert_eq!(pane.mode(), Mode::Normal);
    pane.select_next();
    pane.select_prev();
    pane.select_first();
    pane.select_last();
    pane.select_index(Some(7));
    assert_eq!(pane.selected, None);
    pane.start_filter();
    pane.set_filter_char(b'x');
    pane.backspace();
    pane.commit_filter();
    pane.clear_filter();
    pane.cycle_sort();
    pane.note_rendered(100);
    assert_eq!(pane.hit_test(0, 0), None);
    assert_eq!(pane.handle_click(0, 0, 0), ClickOutcome::Miss);
    assert_eq!(pane.handle_command(Command::QueueSong), Action::Nothing);
    assert_eq!(pane.handle_command(Command::QueueShown), Action::Queue(Vec::new()));
    assert_eq!(pane.handle_command(Command::SwapSongUp), Action::Nothing);
    assert_eq!(pane.handle_command(Command::SwapSongDown), Action::Nothing);
    assert_eq!(
        pane.handle_event(InputEvent::Terminal(TermEvent::Key(Key::Enter)), 0, 0),
        Action::Nothing
    );
    assert_eq!(pane.handle_event(InputEvent::SongAdded, 0, 0), Action::Nothing);
}

#[test]
fn load_can_preserve_position() {
    let mut pane = pane_with(&[("a", "1", 1), ("b", "2", 2), ("c", "3", 3)]);
    pane.select_index(Some(2));
    pane.load(vec![song("x", "7", 1), song("y", "8", 2), song("z", "9", 3)], true);
    assert_eq!(pane.selected, Some(2));
    pane.load(vec![song("q", "4", 1)], true);
    assert_eq!(pane.selected, Some(0));
    pane.load(vec![song("r", "5", 1)], false);
    assert_eq!(pane.selected, Some(0));
    pane.load(Vec::new(), true);
    assert_eq!(pane.selected, None);
}

#[test]
fn filter_keys_edit_query_and_mode() {
    let mut pane = pane_with(&[("alpha", "1", 1), ("beta", "2", 2)]);
    assert_eq!(
        pane.handle_terminal_event(TermEvent::Key(Key::Char(b'/')), 0, 0),
        Action::Nothing
    );
    assert_eq!(pane.mode(), Mode::Insert);
    pane.handle_terminal_event(TermEvent::Key(Key::Char(b'b')), 0, 0);
    pane.handle_terminal_event(TermEvent::Key(Key::Char(b'x')), 0, 0);
    pane.handle_terminal_event(TermEvent::Key(Key::Backspace), 0, 0);
    assert_eq!(pane.filter, b"b".to_vec());
    assert_eq!(pane.shown.len(), 1);
    assert_eq!(pane.selected_item().unwrap().title, b"beta".to_vec());
    pane.handle_terminal_event(TermEvent::Key(Key::Enter), 0, 0);
    assert_eq!(pane.mode(), Mode::Normal);
    assert_eq!(pane.filter, b"b".to_vec());
    pane.handle_terminal_event(TermEvent::Key(Key::Esc), 0, 0);
    assert_eq!(pane.filter, Vec::<u8>::new());
    assert_eq!(pane.shown.len(), 2);
}

#[test]
fn cycle_sort_reorders_and_selection_follows() {
    let mut pane = pane_with(&[("c", "1", 30), ("a", "2", 20), ("b", "3", 10)]);
    pane.select_index(Some(0));
    assert_eq!(pane.selected_index(), Some(0));
    pane.cycle_sort();
    assert_eq!(pane.sorting_method, SortingMethod::Title);
    assert_eq!(pane.shown, vec![1, 2, 0]);
    assert_eq!(pane.selected_index(), Some(0));
    assert_eq!(pane.selected, Some(2));
    pane.cycle_sort();
    assert_eq!(pane.sorting_method, SortingMethod::Duration);
    assert_eq!(pane.shown, vec![2, 1, 0]);
    assert_eq!(pane.selected_index(), Some(0));
    pane.cycle_sort();
    assert_eq!(pane.sorting_method, SortingMethod::Index);
    assert_eq!(pane.shown, vec![0, 1, 2]);
}

#[test]
fn navigation_clamps_without_wrapping() {
    let mut pane = pane_with(&[("a", "1", 1), ("b", "2", 2)]);
    assert_eq!(pane.selected, Some(0));
    pane.select_prev();
    assert_eq!(pane.selected, Some(0));
    pane.select_next();
    assert_eq!(pane.selected, Some(1));
    pane.select_next();
    assert_eq!(pane.selected, Some(1));
    pane.handle_terminal_event(TermEvent::Key(Key::Char(b'G')), 0, 0);
    assert_eq!(pane.selected, Some(1));
    pane.select_first();
    assert_eq!(pane.selected, Some(0));
}

#[test]
fn queue_and_clipboard_commands_use_selected_song() {
    let mut pane = pane_with(&[("a", "p0", 1), ("b", "p1", 2), ("c", "p2", 3)]);
    pane.select_index(Some(1));
    assert_eq!(pane.handle_command(Command::QueueSong), Action::Queue(vec![b"p1".to_vec()]));
    assert_eq!(
        pane.handle_command(Command::QueueShown),
        Action::Queue(vec![b"p0".to_vec(), b"p1".to_vec(), b"p2".to_vec()])
    );
    assert_eq!(pane.handle_command(Command::Shuffle), Action::Shuffle);
    assert_eq!(
        pane.handle_command(Command::OpenInBrowser),
        Action::OpenInBrowser(b"p1".to_vec())
    );
    assert_eq!(
        pane.handle_command(Command::CopyUrl),
        Action::CopyToClipboard(b"p1".to_vec())
    );
    assert_eq!(
        pane.handle_command(Command::CopyTitle),
        Action::CopyToClipboard(b"b".to_vec())
    );
    assert_eq!(pane.handle_command(Command::NextSortingMode), Action::Nothing);
    assert_eq!(pane.sorting_method, SortingMethod::Title);
}

#[test]
fn swap_commands_move_selected_song() {
    let mut pane = pane_with(&[("a", "1", 1), ("b", "2", 2), ("c", "3", 3)]);
    pane.select_index(Some(1));
    assert_eq!(pane.handle_command(Command::SwapSongUp), Action::SwapFileRows(0));
    assert_eq!(pane.songs[0].title, b"b".to_vec());
    assert_eq!(pane.songs[1].title, b"a".to_vec());
    assert_eq!(pane.selected_index(), Some(0));
    assert_eq!(pane.handle_command(Command::SwapSongUp), Action::Nothing);
    pane.select_index(Some(2));
    assert_eq!(pane.handle_command(Command::SwapSongDown), Action::Nothing);
    pane.select_index(Some(1));
    assert_eq!(pane.handle_command(Command::SwapSongDown), Action::SwapFileRows(1));
    assert_eq!(pane.songs[1].title, b"c".to_vec());
    assert_eq!(pane.songs[2].title, b"a".to_vec());
    assert_eq!(pane.selected_index(), Some(2));
}

#[test]
fn swap_is_refused_while_filtering() {
    let mut pane = pane_with(&[("a", "1", 1), ("b", "2", 2)]);
    pane.start_filter();
    pane.set_filter_char(b'b');
    assert_eq!(pane.handle_command(Command::SwapSongUp), Action::Nothing);
    assert_eq!(pane.songs[0].title, b"a".to_vec());
}

#[test]
fn song_added_scrolls_to_bottom() {
    let mut pane = pane_with(&[("a", "1", 1), ("b", "2", 2), ("c", "3", 3)]);
    assert_eq!(pane.handle_event(InputEvent::SongAdded, 0, 0), Action::Nothing);
    assert_eq!(pane.selected, Some(2));
}

#[test]
fn popup_commits_and_quits() {
    let mut popup = Popup::new("rename");
    let key = |k: Key| InputEvent::Terminal(TermEvent::Key(k));
    assert_eq!(popup.handle_event(key(Key::Char(b'h'))), Message::Nothing);
    assert_eq!(popup.handle_event(key(Key::Char(b'x'))), Message::Nothing);
    assert_eq!(popup.handle_event(key(Key::Backspace)), Message::Nothing);
    assert_eq!(popup.handle_event(key(Key::Char(b'i'))), Message::Nothing);
    assert_eq!(popup.handle_event(key(Key::Enter)), Message::Commit(b"hi".to_vec()));
    assert_eq!(popup.input, Vec::<u8>::new());
    popup.handle_event(key(Key::Char(b'z')));
    assert_eq!(popup.handle_event(key(Key::Esc)), Message::Quit);
    assert_eq!(popup.input, Vec::<u8>::new());
    assert_eq!(popup.handle_event(InputEvent::SecondTick), Message::Nothing);
}

#[test]
fn playlist_screen_update_validates_position() {
    let mut screen = PlaylistScreen::new();
    screen.update(vec!["one".to_string(), "two".to_string()], Some(1));
    assert_eq!(screen.playing, Some(1));
    assert_eq!(screen.songs.len(), 2);
    screen.update(vec!["one".to_string()], Some(5));
    assert_eq!(screen.playing, None);
    screen.update(Vec::new(), None);
    assert_eq!(screen.playing, None);
}

#[test]
fn playlist_screen_routes_events() {
    let screen = PlaylistScreen::new();
    assert_eq!(screen.select_next(), PlaylistAction::NextSong);
    assert_eq!(screen.select_prev(), PlaylistAction::PrevSong);
    assert_eq!(screen.mode(), Mode::Normal);
    assert_eq!(
        screen.handle_event(InputEvent::Command(Command::SelectNext)),
        PlaylistAction::NextSong
    );
    assert_eq!(
        screen.handle_event(InputEvent::Terminal(TermEvent::Key(Key::Up))),
        PlaylistAction::PrevSong
    );
    assert_eq!(screen.handle_event(InputEvent::SecondTick), PlaylistAction::Refresh);
    assert_eq!(
        screen.handle_event(InputEvent::Terminal(TermEvent::Key(Key::Esc))),
        PlaylistAction::Nothing
    );
}

#[test]
fn backspace_on_empty_query_is_a_noop() {
    let mut pane = pane_with(&[("a", "1", 1)]);
    pane.start_filter();
    pane.backspace();
    assert_eq!(pane.filter, Vec::<u8>::new());
    assert_eq!(pane.mode(), Mode::Insert);
    assert_eq!(pane.shown.len(), 1);
}

#[test]
fn committing_an_empty_query_leaves_everything_shown() {
    let mut pane = pane_with(&[("a", "1", 1), ("b", "2", 2)]);
    pane.start_filter();
    pane.commit_filter();
    assert_eq!(pane.mode(), Mode::Normal);
    assert_eq!(pane.shown.len(), 2);
}

#[test]
fn uppercase_query_matches_lowercase_title() {
    let mut pane = pane_with(&[("mango", "1", 1), ("zebra", "2", 2)]);
    pane.start_filter();
    pane.set_filter_char(b'M');
    pane.set_filter_char(b'A');
    pane.set_filter_char(b'N');
    assert_eq!(pane.shown, vec![0]);
}

#[test]
fn scroll_events_move_selection() {
    let mut pane = pane_with(&[("a", "1", 1), ("b", "2", 2), ("c", "3", 3)]);
    let scroll_down = InputEvent::Terminal(TermEvent::Mouse(MouseKind::ScrollDown));
    let scroll_up = InputEvent::Terminal(TermEvent::Mouse(MouseKind::ScrollUp));
    assert_eq!(pane.handle_event(scroll_down, 0, 0), Action::Nothing);
    assert_eq!(pane.selected, Some(1));
    assert_eq!(pane.handle_event(scroll_up, 0, 0), Action::Nothing);
    assert_eq!(pane.selected, Some(0));
}

#[test]
fn enter_without_selection_plays_nothing() {
    let mut pane = pane_with(&[("a", "1", 1)]);
    pane.select_index(None);
    assert_eq!(
        pane.handle_terminal_event(TermEvent::Key(Key::Enter), 0, 0),
        Action::Nothing
    );
}

#[test]
fn filter_and_sort_compose() {
    let mut pane = pane_with(&[("beet", "1", 3), ("apple", "2", 2), ("bean", "3", 1)]);
    pane.cycle_sort();
    assert_eq!(pane.shown, vec![1, 2, 0]);
    pane.start_filter();
    pane.set_filter_char(b'b');
    pane.set_filter_char(b'e');
    assert_eq!(pane.shown, vec![2, 0]);
}
