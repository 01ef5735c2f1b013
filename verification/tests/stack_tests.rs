use linkedlist::stack::List;

#[test]
fn good_stack_basics() {
    let mut list = List::new();

    // Check empty list behaves right
    assert_eq!(list.pop(), None);

    // Populate list
    list.push("1".to_string());
    list.push("2".to_string());
    list.push("3".to_string());

    // Check normal removal
    assert_eq!(list.pop(), Some("3".to_string()));
    assert_eq!(list.pop(), Some("2".to_string()));

    // Push some more just to make sure nothing's corrupted
    list.push("4".to_string());
    list.push("5".to_string());

    // Check normal removal
    assert_eq!(list.pop(), Some("5".to_string()));
    assert_eq!(list.pop(), Some("4".to_string()));

    // Check exhaustion
    assert_eq!(list.pop(), Some("1".to_string()));
    assert_eq!(list.pop(), None);
}

#[test]
fn peek() {
    let mut list = List::new();
    assert_eq!(list.peek(), None);
    assert_eq!(list.peek_mut(), None);
    list.push(1);
    list.push(2);
    list.push(3);

    assert_eq!(list.peek(), Some(&3));
    assert_eq!(list.peek_mut(), Some(&mut 3));

    list.peek_mut().map(|value| *value = 42);

    assert_eq!(list.peek(), Some(&42));
    assert_eq!(list.pop(), Some(42));
}

#[test]
fn into_iter() {
    let mut list = List::new();
    list.push(1);
    list.push(2);
    list.push(3);

    let mut iter = list.into_iter();
    assert_eq!(iter.next(), Some(3));
    assert_eq!(iter.next(), Some(2));
    assert_eq!(iter.next(), Some(1));
    assert_eq!(iter.next(), None);
}

#[test]
fn iter_mut() {
    let mut list = List::new();
    list.push(1);
    list.push(2);
    list.push(3);

    let mut iter = list.iter_mut();
    assert_eq!(iter.next(), Some(&mut 3));
    assert_eq!(iter.next(), Some(&mut 2));
    assert_eq!(iter.next(), Some(&mut 1));
}

#[test]
fn good_stack_iter() {
    let mut list = List::new();
    list.push(1);
    list.push(2);
    list.push(3);

    let mut iter = list.iter();
    assert_eq!(iter.next(), Some(&3));
    assert_eq!(iter.next(), Some(&2));
    assert_eq!(iter.next(), Some(&1));
}

#[test]
fn good_stack_long_list() {
    let mut list = List::new();
    let mut s = "".to_string();
    for i in 0..50000 {
        s += i.to_string().as_str();
    }
    // The full concatenation cloned into every node would need far more
    // memory than a test should take; a short prefix stresses the same
    // 100000-node drop.
    s.truncate(64);
    for _i in 0..100000 {
        list.push(s.clone());
    }
    drop(list);
}

#[test]
fn iter_mut_writes_are_observed() {
    let mut list = List::new();
    list.push(1);
    list.push(2);
    list.push(3);

    let mut iter = list.iter_mut();
    while let Some(value) = iter.next() {
        *value += 10;
    }

    assert_eq!(list.pop(), Some(13));
    assert_eq!(list.pop(), Some(12));
    assert_eq!(list.pop(), Some(11));
    assert_eq!(list.pop(), None);
}

#[test]
fn into_iter_exhausts_the_list() {
    let mut list = List::new();
    list.push("a".to_string());
    list.push("b".to_string());

    let mut iter = list.into_iter();
    assert_eq!(iter.next(), Some("b".to_string()));
    assert_eq!(iter.next(), Some("a".to_string()));
    assert_eq!(iter.next(), None);
    assert_eq!(iter.next(), None);
}

#[test]
fn peek_does_not_change_length() {
    let mut list = List::new();
    list.push(7);
    assert_eq!(list.peek(), Some(&7));
    assert_eq!(list.peek(), Some(&7));
    assert_eq!(list.pop(), Some(7));
    assert_eq!(list.pop(), None);
}
