use arena_list::{Arena, List};

#[test]
fn peek_follows_each_push_and_iter_reverses() {
    let mut arena = Arena::default();
    let mut list = List::default();
    let pushed = [10, 20, 30, 40];

    for v in pushed {
        list.push_front(&mut arena, v);
        assert_eq!(list.peek(&arena), Some(&v));
    }

    let walked: Vec<i32> = list.iter(&arena).into_iter().copied().collect();
    assert_eq!(walked, &[40, 30, 20, 10]);
}

#[test]
fn pop_on_empty_is_absent_and_idempotent() {
    let arena: Arena<u8> = Arena::default();
    let mut list = List::default();

    assert!(list.is_empty());
    assert_eq!(list.pop_front(&arena), None);
    assert!(list.is_empty());
    assert_eq!(list.pop_front(&arena), None);
    assert!(list.is_empty());
}

#[test]
fn push_n_then_pop_n_reverses_and_empties() {
    let mut arena = Arena::default();
    let mut list = List::default();

    for v in 1..=5 {
        list.push_front(&mut arena, v);
    }
    for expected in (1..=5).rev() {
        assert_eq!(list.pop_front(&arena), Some(&expected));
    }
    assert!(list.is_empty());
    assert_eq!(list.pop_front(&arena), None);
}

#[test]
fn copied_handles_advance_independently() {
    let mut arena = Arena::default();
    let mut list = List::default();
    list.push_front(&mut arena, 1);
    list.push_front(&mut arena, 2);
    list.push_front(&mut arena, 3);

    let mut left = list;
    let mut right = list;

    // Advancing one copy leaves the other at the old head.
    assert_eq!(left.pop_front(&arena), Some(&3));
    assert_eq!(right.peek(&arena), Some(&3));

    // Pushing onto one copy leaves the other alone.
    right.push_front(&mut arena, 9);
    assert_eq!(right.peek(&arena), Some(&9));
    assert_eq!(left.peek(&arena), Some(&2));

    // Both still observe the shared, not-yet-diverged suffix.
    assert_eq!(
        left.iter(&arena).into_iter().copied().collect::<Vec<_>>(),
        &[2, 1]
    );
    assert_eq!(
        right.iter(&arena).into_iter().copied().collect::<Vec<_>>(),
        &[9, 3, 2, 1]
    );

    // The original handle is untouched by either copy's advances.
    assert_eq!(
        list.iter(&arena).into_iter().copied().collect::<Vec<_>>(),
        &[3, 2, 1]
    );
}

#[test]
fn handle_is_one_word_and_option_is_free() {
    assert_eq!(std::mem::size_of::<List<i32>>(), 4);
    assert_eq!(std::mem::size_of::<Option<List<i32>>>(), 4);
    assert_eq!(std::mem::size_of::<List<String>>(), 4);
    assert_eq!(std::mem::size_of::<Option<List<String>>>(), 4);
}
