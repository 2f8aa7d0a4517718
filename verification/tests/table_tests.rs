use fkactor::{AidKey, AidTable};

fn key(n: u128) -> AidKey {
    AidKey { uuid: n, system_uuid: 0 }
}

#[test]
fn insert_replace_remove() {
    let mut t: AidTable<u32> = AidTable::new();
    assert_eq!(t.insert(key(1), 10), None);
    assert_eq!(t.insert(key(2), 20), None);
    assert_eq!(t.insert(key(1), 11), Some(10));
    assert_eq!(t.get(&key(1)), Some(&11));
    assert_eq!(t.entries().iter().map(|(k, v)| (k.uuid, *v)).collect::<Vec<_>>(), vec![(1, 11), (2, 20)]);
    assert_eq!(t.remove(&key(1)), Some(11));
    assert_eq!(t.remove(&key(1)), None);
    assert!(!t.contains(&key(1)));
}

#[test]
fn insert_absent_keeps_existing() {
    let mut t: AidTable<&'static str> = AidTable::new();
    assert!(t.insert_absent(key(3), "a"));
    assert!(!t.insert_absent(key(3), "b"));
    assert_eq!(t.get(&key(3)), Some(&"a"));
}

#[test]
fn drain_empties_in_order() {
    let mut t: AidTable<u8> = AidTable::new();
    t.insert(key(5), 1);
    t.insert(key(4), 2);
    let d = t.drain();
    assert_eq!(d.iter().map(|(k, v)| (k.uuid, *v)).collect::<Vec<_>>(), vec![(5, 1), (4, 2)]);
    assert!(t.entries().is_empty());
}
