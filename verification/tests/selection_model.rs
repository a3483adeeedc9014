use space_traders_tui::selection::{next, previous};

#[test]
fn next_on_empty_sequence_is_none() {
    assert_eq!(next(None, 0), None);
    assert_eq!(next(Some(3), 0), None);
    assert_eq!(previous(None, 0), None);
    assert_eq!(previous(Some(3), 0), None);
}

#[test]
fn next_initializes_absent_cursor() {
    assert_eq!(next(None, 5), Some(0));
    assert_eq!(previous(None, 5), Some(0));
}

#[test]
fn next_wraps_at_end() {
    assert_eq!(next(Some(4), 5), Some(0));
    assert_eq!(next(Some(0), 5), Some(1));
    assert_eq!(next(Some(3), 5), Some(4));
}

#[test]
fn previous_wraps_at_start() {
    assert_eq!(previous(Some(0), 5), Some(4));
    assert_eq!(previous(Some(4), 5), Some(3));
}

#[test]
fn repeated_next_cycles_through_all_indices() {
    let length = 4;
    let mut cursor = Some(0);
    let mut seen = vec![false; length];
    for _ in 0..length {
        let ix = cursor.unwrap();
        assert!(!seen[ix]);
        seen[ix] = true;
        cursor = next(cursor, length);
    }
    assert!(seen.iter().all(|&s| s));
    assert_eq!(cursor, Some(0));
}

#[test]
fn next_then_previous_returns_to_start() {
    for i in 0..7 {
        assert_eq!(previous(next(Some(i), 7), 7), Some(i));
        assert_eq!(next(previous(Some(i), 7), 7), Some(i));
    }
}

#[test]
fn single_entry_list_stays_on_it() {
    assert_eq!(next(Some(0), 1), Some(0));
    assert_eq!(previous(Some(0), 1), Some(0));
}
