use linked_lists::fifth_unsafe::Queue;

#[test]
fn fifth_unsafe_basics() {
    let mut queue = Queue::new();

    assert_eq!(queue.pop(), None);

    queue.push(1);
    assert_eq!(queue.pop(), Some(1));
    assert_eq!(queue.pop(), None);

    queue.push(2);
    queue.push(3);
    queue.push(4);
    assert_eq!(queue.pop(), Some(2));
    assert_eq!(queue.pop(), Some(3));
    assert_eq!(queue.pop(), Some(4));
    assert_eq!(queue.pop(), None);
}

#[test]
fn fifth_unsafe_into_iter() {
    let mut queue = Queue::new();
    queue.push(1);
    queue.push(2);
    queue.push(3);

    let mut iter = queue.into_iter();
    assert_eq!(iter.next(), Some(1));
    assert_eq!(iter.next(), Some(2));
    assert_eq!(iter.next(), Some(3));
    assert_eq!(iter.next(), None);
}

#[test]
fn fifth_unsafe_iter() {
    let mut queue = Queue::new();
    queue.push(1);
    queue.push(2);
    queue.push(3);

    let mut iter = queue.iter();
    assert_eq!(iter.next(), Some(&1));
    assert_eq!(iter.next(), Some(&2));
    assert_eq!(iter.next(), Some(&3));
    assert_eq!(iter.next(), None);

    queue.push(4);
    let mut iter = queue.iter();
    assert_eq!(iter.next(), Some(&1));
    assert_eq!(iter.next(), Some(&2));
    assert_eq!(iter.next(), Some(&3));
    assert_eq!(iter.next(), Some(&4));
    assert_eq!(iter.next(), None);
}

#[test]
fn fifth_unsafe_iter_after_pop_and_push() {
    let mut queue = Queue::new();
    queue.push(1);
    queue.push(2);
    assert_eq!(queue.pop(), Some(1));
    queue.push(3);
    queue.push(4);
    let mut iter = queue.iter();
    assert_eq!(iter.next(), Some(&2));
    assert_eq!(iter.next(), Some(&3));
    assert_eq!(iter.next(), Some(&4));
    assert_eq!(iter.next(), None);
    assert_eq!(queue.pop(), Some(2));
    assert_eq!(queue.pop(), Some(3));
    assert_eq!(queue.pop(), Some(4));
    assert_eq!(queue.pop(), None);
}

#[test]
fn fifth_unsafe_long_queue() {
    let mut queue = Queue::new();
    for i in 0..1000000u32 {
        queue.push(i);
    }
    assert_eq!(queue.pop(), Some(0));
    queue.push(7);
    assert_eq!(queue.pop(), Some(1));
}

#[test]
fn fifth_unsafe_strings() {
    let mut queue = Queue::new();
    queue.push("x".to_string());
    queue.push("y".to_string());
    let mut iter = queue.iter();
    assert_eq!(iter.next(), Some(&"x".to_string()));
    let mut owned = queue.into_iter();
    assert_eq!(owned.next(), Some("x".to_string()));
    assert_eq!(owned.next(), Some("y".to_string()));
    assert_eq!(owned.next(), None);
}
