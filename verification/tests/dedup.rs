use block_indexer::dedup::{same_bytes, AddressSet};

#[test]
fn same_bytes_compares_all_thirty_two() {
    let a = [7u8; 32];
    let mut b = [7u8; 32];
    assert!(same_bytes(&a, &b));
    b[31] = 8;
    assert!(!same_bytes(&a, &b));
    b[31] = 7;
    b[0] = 0;
    assert!(!same_bytes(&a, &b));
}

#[test]
fn a_new_set_is_empty() {
    let set = AddressSet::new();
    assert_eq!(set.len(), 0);
    assert!(!set.contains(&[0u8; 32]));
}

#[test]
fn inserting_twice_keeps_one() {
    let mut set = AddressSet::new();
    assert!(set.insert([1u8; 32]));
    assert!(!set.insert([1u8; 32]));
    assert!(!set.insert([1u8; 32]));
    assert_eq!(set.len(), 1);
    assert!(set.contains(&[1u8; 32]));
    assert_eq!(set.get(0), [1u8; 32]);
}

#[test]
fn the_set_keeps_the_order_of_first_insertion() {
    let mut set = AddressSet::new();
    set.insert([3u8; 32]);
    set.insert([1u8; 32]);
    set.insert([3u8; 32]);
    set.insert([2u8; 32]);
    set.insert([1u8; 32]);
    assert_eq!(set.len(), 3);
    assert_eq!(set.get(0), [3u8; 32]);
    assert_eq!(set.get(1), [1u8; 32]);
    assert_eq!(set.get(2), [2u8; 32]);
    assert!(!set.contains(&[4u8; 32]));
}
