use stacklist::circular_list::CircularList;
use stacklist::circular_list::EmptyListError;

#[test]
fn empty_list_remove_and_get() {
    let mut list: CircularList<i32> = CircularList::new();
    let removed = list.remove(0);
    assert!(removed.is_err());
    assert_eq!(list.get(0), None);
    assert_eq!(list.get(7), None);
}

#[test]
fn get_wraps_around() {
    let mut list: CircularList<i32> = CircularList::from(vec![10, 20, 30, 40, 50]);
    assert_eq!(list.get(2), Some(30));
    assert_eq!(list.get(2 + 5), Some(30));
    assert_eq!(list.get(2 + 2 * 5), Some(30));
    assert_eq!(list.get(0), Some(10));
    assert_eq!(list.get(5), Some(10));
}

#[test]
fn push_appends_in_order() {
    let mut list: CircularList<i32> = CircularList::new();
    list.push(1);
    list.push(2);
    list.push(3);
    assert_eq!(list.get(0), Some(1));
    assert_eq!(list.get(1), Some(2));
    assert_eq!(list.get(2), Some(3));
}

#[test]
fn remove_wraps_modulo_size() {
    let mut list: CircularList<i32> = CircularList::from(vec![10, 20, 30]);
    let removed = list.remove(4);
    assert!(removed.is_ok());
    assert_eq!(list.get(0), Some(10));
    assert_eq!(list.get(1), Some(30));
    assert_eq!(list.get(2), Some(10));
}

#[test]
fn remove_until_empty_then_fails() {
    let mut list: CircularList<i32> = CircularList::from(vec![1, 2]);
    assert!(list.remove(0).is_ok());
    assert!(list.remove(0).is_ok());
    assert!(list.remove(0).is_err());
    assert_eq!(list.get(0), None);
}

#[test]
fn empty_list_error_message() {
    let error = EmptyListError;
    assert_eq!(error.message(), "Could not remove from an empty list");
}
