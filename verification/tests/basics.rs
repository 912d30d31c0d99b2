use arena_list::{Arena, List};

#[test]
fn basics() {
    let mut arena = Arena::default();
    let mut list = List::default();

    // Check empty list behaves right
    assert!(list.is_empty());
    assert_eq!(list.peek(&arena), None);
    assert_eq!(list.pop_front(&arena), None);

    // Populate list
    list.push_front(&mut arena, 1);
    assert_eq!(list.peek(&arena), Some(&1));

    list.push_front(&mut arena, 2);
    assert_eq!(list.peek(&arena), Some(&2));

    list.push_front(&mut arena, 3);
    assert_eq!(list.peek(&arena), Some(&3));

    assert_eq!(
        list.iter(&arena).into_iter().copied().collect::<Vec<_>>(),
        &[3, 2, 1]
    );

    // Check normal removal
    assert_eq!(list.pop_front(&arena), Some(&3));
    assert_eq!(list.pop_front(&arena), Some(&2));

    // Push some more just to make sure nothing's corrupted
    list.push_front(&mut arena, 4);
    list.push_front(&mut arena, 5);

    // Check normal removal
    assert_eq!(list.pop_front(&arena), Some(&5));
    assert_eq!(list.pop_front(&arena), Some(&4));

    // Check exhaustion
    assert_eq!(list.pop_front(&arena), Some(&1));
    assert_eq!(list.pop_front(&arena), None);
}
