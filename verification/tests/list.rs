use snake::game::Point;
use snake::linked_list::LinkedList;

#[test]
fn new_with_head_has_one_element() {
    let l: LinkedList<i32> = LinkedList::new(Some(7));
    assert_eq!(l.len(), 1);
    assert_eq!(l.front(), Some(7));
    assert_eq!(l.back(), Some(7));
}

#[test]
fn new_empty() {
    let l: LinkedList<i32> = LinkedList::new(None);
    assert_eq!(l.len(), 0);
    assert_eq!(l.front(), None);
    assert_eq!(l.back(), None);
}

#[test]
fn push_front_shifts_everything_back() {
    let mut l: LinkedList<i32> = LinkedList::new(Some(1));
    l.push_front(2);
    l.push_front(3);
    assert_eq!(l.to_vec(), vec![3, 2, 1]);
    assert_eq!(l.front(), Some(3));
    assert_eq!(l.back(), Some(1));
}

#[test]
fn push_back_appends() {
    let mut l: LinkedList<i32> = LinkedList::new(Some(1));
    l.push_back(2);
    l.push_back(3);
    assert_eq!(l.to_vec(), vec![1, 2, 3]);
    assert_eq!(l.back(), Some(3));
}

#[test]
fn pop_back_removes_the_tail() {
    let mut l: LinkedList<i32> = LinkedList::new(Some(1));
    l.push_back(2);
    l.push_back(3);
    assert_eq!(l.pop_back(), Some(3));
    assert_eq!(l.to_vec(), vec![1, 2]);
}

#[test]
fn pop_back_never_takes_the_only_element() {
    let mut l: LinkedList<i32> = LinkedList::new(Some(1));
    assert_eq!(l.pop_back(), None);
    assert_eq!(l.len(), 1);
    assert_eq!(l.front(), Some(1));
}

#[test]
fn get_indexes_from_the_front() {
    let mut l: LinkedList<i32> = LinkedList::new(Some(10));
    l.push_back(20);
    l.push_back(30);
    assert_eq!(l.get(0), 10);
    assert_eq!(l.get(1), 20);
    assert_eq!(l.get(2), 30);
}

#[test]
fn clone_is_independent() {
    let mut original: LinkedList<Point> = LinkedList::new(Some(Point { x: 0, y: 0 }));
    original.push_back(Point { x: 1, y: 0 });
    let copy = original.clone();
    original.push_front(Point { x: 5, y: 5 });
    original.pop_back();
    assert_eq!(copy.len(), 2);
    assert_eq!(copy.get(0), Point { x: 0, y: 0 });
    assert_eq!(copy.get(1), Point { x: 1, y: 0 });
    assert_eq!(original.len(), 2);
    assert_eq!(original.get(0), Point { x: 5, y: 5 });
}
