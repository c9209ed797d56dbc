use linked_lists::second::List;

#[test]
fn second_basic() {
    let mut list = List::new();

    assert_eq!(list.pop(), None);

    list.push(0);
    list.push(1);
    list.push(2);

    assert_eq!(list.pop(), Some(2));
    assert_eq!(list.pop(), Some(1));

    list.push(3);
    list.push(4);

    assert_eq!(list.pop(), Some(4));
    assert_eq!(list.pop(), Some(3));
    assert_eq!(list.pop(), Some(0));

    assert_eq!(list.pop(), None);

    let mut str_list = List::new();
    assert_eq!(list.pop(), None);
    str_list.push("a".to_string());
    str_list.push("b".to_string());
    str_list.push("c".to_string());
    assert_eq!(str_list.pop(), Some("c".to_string()));
    assert_eq!(str_list.pop(), Some("b".to_string()));
    assert_eq!(str_list.pop(), Some("a".to_string()));
    assert_eq!(str_list.pop(), None);
}

#[test]
fn peek() {
    let mut list = List::new();

    assert_eq!(list.peek(), None);

    list.push(0);
    list.push(1);
    list.push(2);

    assert_eq!(list.peek(), Some(&2));
    assert_eq!(list.pop(), Some(2));
    assert_eq!(list.peek(), Some(&1));
    assert_eq!(list.pop(), Some(1));

    assert_eq!(list.peek_mut(), Some(&mut 0));

    list.peek_mut().map(|x| *x = 42);
    assert_eq!(list.peek_mut(), Some(&mut 42));
}

#[test]
fn second_into_iter() {
    let mut list = List::new();
    list.push(0);
    list.push(1);
    list.push(2);

    let mut iter = list.into_iter();
    assert_eq!(iter.next(), Some(2));
    assert_eq!(iter.next(), Some(1));
    assert_eq!(iter.next(), Some(0));
    assert_eq!(iter.next(), None);
}

#[test]
fn second_iter() {
    let mut list = List::new();
    list.push(1);
    list.push(2);
    list.push(3);

    let mut iter = list.iter();
    assert_eq!(iter.next(), Some(&3));
    assert_eq!(iter.next(), Some(&2));
    assert_eq!(iter.next(), Some(&1));
    assert_eq!(iter.next(), None);
}

#[test]
fn iter_mut() {
    let mut list = List::new();
    list.push(1);
    list.push(2);
    list.push(3);

    let mut iter_mut = list.iter_mut();
    assert_eq!(iter_mut.next(), Some(&mut 3));
    assert_eq!(iter_mut.next(), Some(&mut 2));
    assert_eq!(iter_mut.next(), Some(&mut 1));
    assert_eq!(iter_mut.next(), None);
}

#[test]
fn second_iter_mut_writes_through() {
    let mut list = List::new();
    list.push(1);
    list.push(2);
    {
        let mut iter_mut = list.iter_mut();
        while let Some(x) = iter_mut.next() {
            *x *= 10;
        }
    }
    assert_eq!(list.pop(), Some(20));
    assert_eq!(list.pop(), Some(10));
    assert_eq!(list.pop(), None);
}

#[test]
fn second_peek_mut_on_empty() {
    let mut list: List<i32> = List::new();
    assert_eq!(list.peek_mut(), None);
    assert_eq!(list.pop(), None);
}

#[test]
fn second_long_list_drops() {
    let mut list = List::new();
    for i in 0..1000000u32 {
        list.push(i);
    }
    assert_eq!(list.peek(), Some(&999999));
}

#[test]
fn second_iter_mut_partial_write() {
    let mut list = List::new();
    list.push(1);
    list.push(2);
    list.push(3);
    {
        let mut iter_mut = list.iter_mut();
        if let Some(x) = iter_mut.next() {
            *x = 30;
        }
    }
    assert_eq!(list.pop(), Some(30));
    assert_eq!(list.pop(), Some(2));
    assert_eq!(list.pop(), Some(1));
    assert_eq!(list.pop(), None);
}
