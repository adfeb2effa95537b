use linked_lists::linked_lists::{Iter, LinkedList};

#[test]
fn base_case() {
    let mut llist: LinkedList<i32> = LinkedList::new();

    llist.push(1);
    llist.push(2);
    llist.push(3);

    assert_eq!(llist.pop(), Some(3));
    assert_eq!(llist.pop(), Some(2));
}

#[test]
fn peek_and_mutable() {
    let mut llist: LinkedList<i32> = LinkedList::new();

    assert_eq!(llist.peek(), None);
    assert_eq!(llist.mut_peek(), None);

    llist.push(1);
    assert_eq!(llist.peek(), Some(&1));
    assert_eq!(llist.mut_peek(), Some(&mut 1));

    llist.push(2);
    assert_eq!(llist.peek(), Some(&2));
    assert_eq!(llist.mut_peek(), Some(&mut 2));

    llist.mut_peek().map(|value| *value = 71);

    assert_eq!(llist.peek(), Some(&71));
    assert_eq!(llist.pop(), Some(71));
}

#[test]
fn into_iter() {
    let mut llist: LinkedList<i32> = LinkedList::new();
    llist.push(1);
    llist.push(2);
    llist.push(3);

    let mut iter_list = llist.into_iter();
    assert_eq!(iter_list.next(), Some(3));
    assert_eq!(iter_list.next(), Some(2));
    assert_eq!(iter_list.next(), Some(1));
    assert_eq!(iter_list.next(), None);
}

#[test]
fn iter() {
    let mut llist: LinkedList<i32> = LinkedList::new();
    llist.push(1);
    llist.push(2);
    llist.push(3);

    let mut iter_list = llist.iter();
    assert_eq!(iter_list.next(), Some(&3));
    assert_eq!(iter_list.next(), Some(&2));
    assert_eq!(iter_list.next(), Some(&1));
    assert_eq!(iter_list.next(), None);
}

#[test]
fn mut_iter() {
    let mut llist: LinkedList<i32> = LinkedList::new();
    llist.push(1);
    llist.push(2);
    llist.push(3);

    let mut iter_list = llist.mut_iter();
    assert_eq!(iter_list.next(), Some(&mut 3));
    assert_eq!(iter_list.next(), Some(&mut 2));
    assert_eq!(iter_list.next(), Some(&mut 1));
}

#[test]
fn list_macro() {
    let empty_list: LinkedList<i32> = LinkedList::from_values(vec![]);
    let int_list: LinkedList<i32> = LinkedList::from_values(vec![1, 2, 3]);
    let char_list: LinkedList<char> = LinkedList::from_values(vec!['a', 'b', 'c']);

    assert_eq!(empty_list.peek(), None);
    assert_eq!(int_list.peek(), Some(&3));
    assert_eq!(char_list.peek(), Some(&'c'));
}
