use adsbee::sparse_list::SparseList;

#[test]
fn inserted_values_are_read_back() {
    let mut list = SparseList::new();
    let a = list.insert("a");
    let b = list.insert("b");
    assert_eq!((a, b), (0, 1));
    assert_eq!(list.get(a), Some(&"a"));
    assert_eq!(list.get(b), Some(&"b"));
    assert_eq!(list.get(2), None);
    assert_eq!(*list.index(b), "b");
}

#[test]
fn removed_indices_are_used_again() {
    let mut list = SparseList::new();
    let a = list.insert(1);
    let b = list.insert(2);
    assert_eq!(list.remove(a), Some(1));
    assert_eq!(list.get(a), None);
    assert_eq!(list.remove(a), None);
    let c = list.insert(3);
    assert_eq!(c, a);
    assert_eq!(list.get(b), Some(&2));
    assert_eq!(list.iter(), vec![&3, &2]);
}

#[test]
fn reserved_indices_are_filled_later() {
    let mut list = SparseList::new();
    let r = list.reserve();
    assert_eq!(r, 0);
    list.insert_reserved(r, 'x');
    assert_eq!(list.get(r), Some(&'x'));
    let s = list.insert('y');
    assert_eq!(s, 1);
    list.remove(r);
    let t = list.reserve();
    assert_eq!(t, r);
    list.insert_reserved(t, 'z');
    assert_eq!(list.iter(), vec![&'z', &'y']);
}

#[test]
fn values_can_be_changed_in_place() {
    let mut list = SparseList::default();
    let (index, value) = list.insert_and_get_mut(10);
    *value += 1;
    assert_eq!(list.get(index), Some(&11));
    if let Some(value) = list.get_mut(index) {
        *value += 1;
    }
    *list.index_mut(index) += 1;
    assert_eq!(list.get(index), Some(&13));
    assert!(list.get_mut(5).is_none());
}

#[test]
fn a_free_slot_can_be_filled_without_reserving_it() {
    let mut list = SparseList::new();
    let a = list.insert('a');
    list.insert('b');
    list.remove(a);
    list.insert_reserved(a, 'c');
    assert_eq!(list.get(a), Some(&'c'));
    assert_eq!(list.iter(), vec![&'c', &'b']);
}
