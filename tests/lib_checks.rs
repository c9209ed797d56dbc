use linked_lists::first::List;

#[test]
fn it_works() {
    assert_eq!(2 + 2, 4);
    let list = List::new();
    drop(list);
}
