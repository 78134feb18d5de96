use tori_core::cursor::{reconcile_after_projection_change, reconcile_after_reload};
use tori_core::gesture::on_pointer_down;
use tori_core::order::compare_songs;
use tori_core::projection::recompute_projection;
use tori_core::song::{Song, SortingMethod};
use std::cmp::Ordering;

fn song(title: &str, path: &str, duration: u64) -> Song {
    Song { title: title.as_bytes().to_vec(), path: path.as_bytes().to_vec(), duration }
}

#[test]
fn sort_cycle_totality() {
    for start in [SortingMethod::Index, SortingMethod::Title, SortingMethod::Duration] {
        let one = start.next();
        let two = one.next();
        let three = two.next();
        assert_ne!(one, start);
        assert_ne!(two, start);
        assert_eq!(three, start);
    }
}

#[test]
fn default_sorting_is_index() {
    assert_eq!(SortingMethod::default(), SortingMethod::Index);
}

#[test]
fn compare_songs_by_each_method() {
    let songs = vec![song("beta", "p0", 30), song("alpha", "p1", 40), song("alpha", "p2", 30)];
    assert_eq!(compare_songs(0, 1, &songs, SortingMethod::Index), Ordering::Less);
    assert_eq!(compare_songs(1, 0, &songs, SortingMethod::Index), Ordering::Greater);
    assert_eq!(compare_songs(0, 1, &songs, SortingMethod::Title), Ordering::Greater);
    assert_eq!(compare_songs(1, 2, &songs, SortingMethod::Title), Ordering::Equal);
    assert_eq!(compare_songs(0, 1, &songs, SortingMethod::Duration), Ordering::Less);
    assert_eq!(compare_songs(0, 2, &songs, SortingMethod::Duration), Ordering::Equal);
}

#[test]
fn projection_complete_without_filter() {
    let songs = vec![song("c", "1", 3), song("a", "2", 2), song("b", "3", 1)];
    let empty: Vec<u8> = Vec::new();
    let shown = recompute_projection(&songs, &empty, SortingMethod::Index);
    assert_eq!(shown, vec![0, 1, 2]);
}

#[test]
fn projection_sorts_by_title_and_duration() {
    let songs = vec![song("c", "1", 3), song("a", "2", 2), song("b", "3", 1)];
    let empty: Vec<u8> = Vec::new();
    let by_title = recompute_projection(&songs, &empty, SortingMethod::Title);
    assert_eq!(by_title, vec![1, 2, 0]);
    let by_duration = recompute_projection(&songs, &empty, SortingMethod::Duration);
    assert_eq!(by_duration, vec![2, 1, 0]);
}

#[test]
fn projection_filter_is_case_insensitive_substring() {
    let songs = vec![
        song("Mango Tree", "a", 1),
        song("zebra", "MANGO.ogg", 2),
        song("alpha", "b", 3),
    ];
    let query = b"mango".to_vec();
    let shown = recompute_projection(&songs, &query, SortingMethod::Index);
    assert_eq!(shown, vec![0, 1]);
}

#[test]
fn projection_is_stable_on_equal_keys() {
    let songs = vec![
        song("same", "1", 9),
        song("same", "2", 9),
        song("same", "3", 9),
    ];
    let empty: Vec<u8> = Vec::new();
    let by_title = recompute_projection(&songs, &empty, SortingMethod::Title);
    assert_eq!(by_title, vec![0, 1, 2]);
    let by_duration = recompute_projection(&songs, &empty, SortingMethod::Duration);
    assert_eq!(by_duration, vec![0, 1, 2]);
}

#[test]
fn reconcile_follows_backing_index() {
    let items: Vec<usize> = vec![4, 2, 7];
    assert_eq!(reconcile_after_projection_change(Some(7), &items), Some(2));
    assert_eq!(reconcile_after_projection_change(Some(9), &items), Some(0));
    assert_eq!(reconcile_after_projection_change(None, &items), Some(0));
    let no_items: Vec<usize> = Vec::new();
    assert_eq!(reconcile_after_projection_change(Some(7), &no_items), None);
}

#[test]
fn reconcile_reload_keeps_position_in_range() {
    assert_eq!(reconcile_after_reload(Some(2), 5), Some(2));
    assert_eq!(reconcile_after_reload(Some(8), 5), Some(0));
    assert_eq!(reconcile_after_reload(None, 5), Some(0));
    assert_eq!(reconcile_after_reload(Some(1), 0), None);
    assert_eq!(reconcile_after_reload(None, 0), None);
}

#[test]
fn double_click_within_window() {
    let mut last = None;
    assert!(!on_pointer_down(&mut last, 3, 1000));
    assert!(on_pointer_down(&mut last, 3, 1100));
}

#[test]
fn double_click_window_exceeded() {
    let mut last = None;
    assert!(!on_pointer_down(&mut last, 3, 1000));
    assert!(!on_pointer_down(&mut last, 3, 1300));
}

#[test]
fn double_click_needs_same_row() {
    let mut last = None;
    assert!(!on_pointer_down(&mut last, 3, 1000));
    assert!(!on_pointer_down(&mut last, 4, 1050));
}

#[test]
fn third_rapid_click_starts_fresh_pair() {
    let mut last = None;
    assert!(!on_pointer_down(&mut last, 3, 1000));
    assert!(on_pointer_down(&mut last, 3, 1100));
    assert!(!on_pointer_down(&mut last, 3, 1150));
    assert!(on_pointer_down(&mut last, 3, 1200));
}
