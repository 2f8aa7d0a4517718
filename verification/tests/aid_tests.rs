use fkactor::{Aid, AidError, AidKey};
use std::cmp::Ordering;
use std::hash::Hash;

const U: u128 = 0xa1a2a3a4b1b2c1c2d1d2d3d4d5d6d7d8;

#[test]
fn new_aid_has_random_v4_uuid() {
    let a = Aid::new(Some("worker".to_string()), 7);
    assert_eq!(a.system_uuid(), 7);
    assert_eq!(a.name().as_deref(), Some("worker"));
    assert_eq!((a.uuid() >> 76) & 0xf, 4);
    assert_eq!((a.uuid() >> 62) & 0x3, 2);
    let b = Aid::new(None, 7);
    assert!(!a.same(&b));
}

#[test]
fn equality_ignores_name() {
    let a = Aid::from_parts(Some("a".to_string()), 1, 2);
    let b = Aid::from_parts(Some("b".to_string()), 1, 2);
    let c = Aid::from_parts(Some("a".to_string()), 1, 3);
    assert!(a == b);
    assert!(a.same(&b));
    assert!(a != c);
    assert_eq!(a.key(), AidKey { uuid: 2, system_uuid: 1 });
}

#[test]
fn order_unnamed_first_then_names_then_uuids() {
    let none = Aid::from_parts(None, 9, 9);
    let alpha = Aid::from_parts(Some("alpha".to_string()), 0, 0);
    let beta = Aid::from_parts(Some("beta".to_string()), 0, 0);
    let alpha_sys = Aid::from_parts(Some("alpha".to_string()), 1, 0);
    let alpha_sys_uuid = Aid::from_parts(Some("alpha".to_string()), 1, 5);
    assert_eq!(none.compare(&alpha), Ordering::Less);
    assert_eq!(alpha.compare(&none), Ordering::Greater);
    assert_eq!(alpha.compare(&beta), Ordering::Less);
    assert_eq!(beta.compare(&alpha), Ordering::Greater);
    assert_eq!(alpha.compare(&alpha_sys), Ordering::Less);
    assert_eq!(alpha_sys.compare(&alpha_sys_uuid), Ordering::Less);
    assert_eq!(alpha_sys_uuid.compare(&alpha_sys_uuid.clone()), Ordering::Equal);
    // A name that is a prefix of another comes first.
    let al = Aid::from_parts(Some("al".to_string()), 5, 5);
    assert_eq!(al.compare(&alpha), Ordering::Less);
}

#[test]
fn order_matches_derived_ord() {
    let ids = vec![
        Aid::from_parts(None, 3, 1),
        Aid::from_parts(None, 2, 8),
        Aid::from_parts(Some("b".to_string()), 0, 0),
        Aid::from_parts(Some("a".to_string()), 4, 4),
        Aid::from_parts(Some("a".to_string()), 4, 2),
    ];
    for x in &ids {
        for y in &ids {
            assert_eq!(x.compare(y), x.cmp(y));
            assert_eq!(x.compare(y), y.compare(x).reverse());
        }
    }
}

#[test]
fn uuid_text_is_hyphenated_lowercase() {
    let a = Aid::from_parts(None, 0, U);
    assert_eq!(a.to_string(), "a1a2a3a4-b1b2-c1c2-d1d2-d3d4d5d6d7d8");
    let named = Aid::from_parts(Some("printer".to_string()), 0, U);
    assert_eq!(named.to_string(), "printer:a1a2a3a4-b1b2-c1c2-d1d2-d3d4d5d6d7d8");
    let zero = Aid::from_parts(None, 0, 0);
    assert_eq!(zero.to_string(), "00000000-0000-0000-0000-000000000000");
}

#[test]
fn debug_text_of_aid() {
    let a = Aid::from_parts(Some("n".to_string()), 0, U);
    assert_eq!(
        a.debug_text(),
        "Aid{id: a1a2a3a4-b1b2-c1c2-d1d2-d3d4d5d6d7d8, system_uuid: 00000000-0000-0000-0000-000000000000, name: Some(\"n\")}"
    );
    let b = Aid::from_parts(None, U, 0);
    assert_eq!(
        b.debug_text(),
        "Aid{id: 00000000-0000-0000-0000-000000000000, system_uuid: a1a2a3a4-b1b2-c1c2-d1d2-d3d4d5d6d7d8, name: None}"
    );
}

#[test]
fn aid_error_text() {
    assert_eq!(AidError::ActorAlreadyStopped.to_string(), "Actor already stopped");
    let a = Aid::from_parts(Some("x".to_string()), 0, U);
    assert_eq!(
        AidError::SendTimedOut(a).to_string(),
        "Send timeout for x:a1a2a3a4-b1b2-c1c2-d1d2-d3d4d5d6d7d8"
    );
    assert_eq!(AidError::ActorAlreadyStopped, AidError::ActorAlreadyStopped);
}

#[test]
fn debug_uses_debug_text() {
    let a = Aid::from_parts(Some("n".to_string()), 0, U);
    assert_eq!(format!("{:?}", a), a.debug_text());
}

#[test]
fn partial_cmp_agrees_with_compare() {
    let x = Aid::from_parts(Some("a".to_string()), 1, 2);
    let y = Aid::from_parts(Some("b".to_string()), 1, 2);
    let z = Aid::from_parts(None, 1, 2);
    for p in [&x, &y, &z] {
        for q in [&x, &y, &z] {
            assert_eq!(p.partial_cmp(q), Some(p.compare(q)));
            assert_eq!(p.partial_cmp(q), q.partial_cmp(p).map(Ordering::reverse));
        }
    }
    // Equal ids with different names are ordered by name.
    assert!(x == y);
    assert_eq!(x.partial_cmp(&y), Some(Ordering::Less));
}

fn hash_of<T: Hash>(t: &T) -> u64 {
    let mut h = std::collections::hash_map::DefaultHasher::new();
    t.hash(&mut h);
    std::hash::Hasher::finish(&h)
}

#[test]
fn hash_follows_equality() {
    let a = Aid::from_parts(Some("a".to_string()), 1, 2);
    let b = Aid::from_parts(Some("b".to_string()), 1, 2);
    assert_eq!(hash_of(&a), hash_of(&b));
    // The id hashes its UUID, then its system UUID.
    assert_eq!(hash_of(&a), hash_of(&(2u128, 1u128)));
    let mut set = std::collections::HashSet::new();
    set.insert(a.clone());
    assert!(set.contains(&b));
    assert!(!set.contains(&Aid::from_parts(None, 2, 1)));
}
