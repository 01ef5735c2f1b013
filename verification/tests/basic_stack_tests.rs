use linkedlist::basic_stack::List;

#[test]
fn bad_stack_basics() {
    let mut list = List::new();

    // Check empty list behaves right
    assert_eq!(list.pop(), None);

    // Populate list
    list.push("1".to_string());
    list.push("2".to_string());
    list.push("3".to_string());

    // Check normal removal
    assert_eq!(list.pop(), Some("3".to_string()));
    assert_eq!(list.pop(), Some("2".to_string()));

    // Push some more just to make sure nothing's corrupted
    list.push("4".to_string());
    list.push("5".to_string());

    // Check normal removal
    assert_eq!(list.pop(), Some("5".to_string()));
    assert_eq!(list.pop(), Some("4".to_string()));

    // Check exhaustion
    assert_eq!(list.pop(), Some("1".to_string()));
    assert_eq!(list.pop(), None);
}

#[test]
fn bad_stack_long_list() {
    let mut list = List::new();
    let mut s = "".to_string();
    for i in 0..50000 {
        s += i.to_string().as_str();
    }
    // The full concatenation cloned into every node would need far more
    // memory than a test should take; a short prefix stresses the same
    // 100000-node drop.
    s.truncate(64);
    for _i in 0..100000 {
        list.push(s.clone());
    }
    drop(list);
}
