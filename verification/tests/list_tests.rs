use chai::extended_linked_list::ExtendedLinkedList;

#[test]
fn from_array_keeps_order() {
    let l: ExtendedLinkedList<u64> = ExtendedLinkedList::from([10, 20, 30]);
    assert_eq!(l.len(), 3);
    assert_eq!(l.get(0), Some(&10));
    assert_eq!(l.get(1), Some(&20));
    assert_eq!(l.get(2), Some(&30));
    assert_eq!(l.get(3), None);
}

#[test]
fn from_vec_keeps_order() {
    let l: ExtendedLinkedList<u64> = ExtendedLinkedList::from_vec(vec![1, 2]);
    assert_eq!(l.len(), 2);
    assert_eq!(l.get(0), Some(&1));
    assert_eq!(l.get(1), Some(&2));
}

#[test]
fn push_at_inserts_in_the_middle() {
    let mut l: ExtendedLinkedList<u64> = ExtendedLinkedList::from([1, 3]);
    l.push_at(1, 2);
    assert_eq!(l.len(), 3);
    assert_eq!(l.get(0), Some(&1));
    assert_eq!(l.get(1), Some(&2));
    assert_eq!(l.get(2), Some(&3));
}

#[test]
fn push_at_appends_at_the_end() {
    let mut l: ExtendedLinkedList<u64> = ExtendedLinkedList::from([1]);
    l.push_at(1, 2);
    assert_eq!(l.len(), 2);
    assert_eq!(l.get(1), Some(&2));
}

#[test]
fn remove_at_returns_the_element() {
    let mut l: ExtendedLinkedList<u64> = ExtendedLinkedList::from([1, 2, 3]);
    assert_eq!(l.remove_at(1), Some(2));
    assert_eq!(l.len(), 2);
    assert_eq!(l.get(0), Some(&1));
    assert_eq!(l.get(1), Some(&3));
}

#[test]
fn remove_at_len_is_a_noop() {
    let mut l: ExtendedLinkedList<u64> = ExtendedLinkedList::from([1, 2]);
    assert_eq!(l.remove_at(2), None);
    assert_eq!(l.len(), 2);
}

#[test]
fn get_mut_writes_through() {
    let mut l: ExtendedLinkedList<u64> = ExtendedLinkedList::from([5, 6]);
    *l.get_mut(1) = 66;
    assert_eq!(l.get(1), Some(&66));
    assert_eq!(l.get(0), Some(&5));
}
