use bundler_core::vec_map::VecMap;

#[test]
fn dense_map_insert_and_get_in_any_order() {
    let mut m: VecMap<u32> = VecMap::default();
    // ids 0..5 inserted out of order
    m.insert(3, 30);
    m.insert(0, 100);
    m.insert(4, 40);
    m.insert(1, 10);
    m.insert(2, 20);
    m.insert(0, 0); // last write to id 0 wins
    assert_eq!(*m.get(0), 0);
    assert_eq!(*m.get(1), 10);
    assert_eq!(*m.get(2), 20);
    assert_eq!(*m.get(3), 30);
    assert_eq!(*m.get(4), 40);
    assert_eq!(m.try_get(0), Some(&0));
    assert_eq!(m.try_get(4), Some(&40));
}

#[test]
fn dense_map_padding_leaves_holes_absent() {
    let mut m: VecMap<String> = VecMap::default();
    m.insert(5, String::from("five"));
    // ids 0..5 were padded as empty slots
    for i in 0..5 {
        assert!(m.try_get(i).is_none());
    }
    assert_eq!(m.try_get(5), Some(&String::from("five")));
    // out of range is absence, not a fault
    assert!(m.try_get(6).is_none());
    assert!(m.try_get(1000).is_none());
}

#[test]
fn dense_map_never_inserted_yields_absence() {
    let m: VecMap<u8> = VecMap::default();
    assert!(m.try_get(0).is_none());
    assert!(m.try_get(7).is_none());
}

#[test]
fn dense_map_get_mut_updates_in_place() {
    let mut m: VecMap<Vec<u32>> = VecMap::default();
    m.insert(2, vec![1, 2, 3]);
    m.get_mut(2).push(4);
    assert_eq!(*m.get(2), vec![1, 2, 3, 4]);
    // other ids are untouched
    assert!(m.try_get(0).is_none());
    assert!(m.try_get(1).is_none());
}

#[test]
fn dense_map_overwrite_is_last_write_wins() {
    let mut m: VecMap<&'static str> = VecMap::default();
    m.insert(1, "first");
    m.insert(1, "second");
    m.insert(1, "third");
    assert_eq!(*m.get(1), "third");
}
