use linked_lists::fifth::Queue;

#[test]
fn fifth_basics() {
    let mut queue = Queue::new();

    assert_eq!(queue.pop(), None);

    queue.push(1);
}

#[test]
fn fifth_fifo_order() {
    let mut queue = Queue::new();
    queue.push(1);
    assert_eq!(queue.pop(), Some(1));
    assert_eq!(queue.pop(), None);
    queue.push(2);
    queue.push(3);
    queue.push(4);
    assert_eq!(queue.pop(), Some(2));
    queue.push(5);
    assert_eq!(queue.pop(), Some(3));
    assert_eq!(queue.pop(), Some(4));
    assert_eq!(queue.pop(), Some(5));
    assert_eq!(queue.pop(), None);
}

#[test]
fn fifth_many_elements() {
    let mut queue = Queue::new();
    for i in 0..2000u32 {
        queue.push(i);
    }
    for i in 0..1000u32 {
        assert_eq!(queue.pop(), Some(i));
    }
}
