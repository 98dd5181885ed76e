use vime_engine::util::InlineVec;

#[test]
fn extend_from_slice_copies() {
    let mut v = InlineVec::<u8, 4>::default();
    v.extend_from_slice(&[1, 2, 3]);
    v.extend_from_slice(&[]);
    assert_eq!(&v.to_vec()[..], &[1, 2, 3]);
}

#[test]
fn push_pop_round_trip() {
    let mut v = InlineVec::<u8, 3>::new();
    assert!(v.is_empty());
    assert_eq!(InlineVec::<u8, 3>::capacity(), 3);
    v.push(1);
    v.push(2);
    v.push(3);
    assert_eq!(v.len(), 3);
    assert_eq!(v.get(2), 3);
    assert_eq!(v.pop(), Some(3));
    assert_eq!(v.pop(), Some(2));
    assert_eq!(v.pop(), Some(1));
    assert_eq!(v.pop(), None);
    assert!(v.is_empty());
}

#[test]
fn insert_shifts_the_tail_right() {
    let mut v = InlineVec::<char, 4>::new();
    v.extend_from_slice(&['g', 'n']);
    v.insert(1, 'i');
    assert_eq!(v.to_vec(), vec!['g', 'i', 'n']);
    v.insert(3, 'h');
    assert_eq!(v.to_vec(), vec!['g', 'i', 'n', 'h']);
    assert_eq!(v.len(), InlineVec::<char, 4>::capacity());
}

#[test]
fn insert_at_front_of_full_minus_one() {
    let mut v = InlineVec::<u8, 3>::new();
    v.push(2);
    v.push(3);
    v.insert(0, 1);
    assert_eq!(v.to_vec(), vec![1, 2, 3]);
}

#[test]
fn remove_shifts_the_tail_left() {
    let mut v = InlineVec::<u8, 5>::new();
    v.extend_from_slice(&[10, 20, 30, 40]);
    assert_eq!(v.remove(1), 20);
    assert_eq!(v.to_vec(), vec![10, 30, 40]);
    assert_eq!(v.remove(2), 40);
    assert_eq!(v.to_vec(), vec![10, 30]);
    assert_eq!(v.remove(0), 10);
    assert_eq!(v.to_vec(), vec![30]);
}

#[test]
fn clear_and_copy_semantics() {
    let mut v = InlineVec::<u8, 2>::new();
    v.push(5);
    let copy = v;
    v.clear();
    assert!(v.is_empty());
    assert_eq!(copy.to_vec(), vec![5]);
    let cloned = copy.clone();
    assert_eq!(cloned.to_vec(), vec![5]);
}

#[test]
fn equality_compares_live_elements_only() {
    let mut a: InlineVec<u8, 4> = InlineVec::new();
    a.push(1);
    a.push(2);
    a.push(9);
    a.pop();
    let mut b: InlineVec<u8, 4> = InlineVec::new();
    b.push(1);
    b.push(2);
    assert!(a == b);
    b.push(3);
    assert!(a != b);
    a.push(4);
    assert!(a != b);
    a.pop();
    a.push(3);
    assert!(a == b);
}

#[test]
fn indexing_reads_live_elements() {
    let mut v: InlineVec<u8, 3> = InlineVec::new();
    v.push(7);
    v.push(8);
    assert_eq!(v[0], 7);
    assert_eq!(v[1], 8);
    v.insert(0, 6);
    assert_eq!(v[0], 6);
    assert_eq!(v[2], 8);
}
