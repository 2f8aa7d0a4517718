use fkactor::manager::{actor_started, actor_stopped, notifies};
use fkactor::{ActorManager, Aid, AidKey, AidTable};

fn key(n: u128) -> AidKey {
    AidKey { uuid: n, system_uuid: 9 }
}

#[test]
fn monitors_are_told_in_registration_order() {
    let mut m: ActorManager<&'static str> = ActorManager::new();
    assert!(m.watchers(&key(1)).is_none());
    m.register_monitor(key(1), "watched", "first");
    m.register_monitor(key(2), "other", "x");
    m.register_monitor(key(1), "watched-again", "second");
    m.register_monitor(key(1), "watched", "first");
    assert_eq!(m.watchers(&key(1)).unwrap(), &vec!["first", "second", "first"]);
    assert_eq!(m.watchers(&key(2)).unwrap(), &vec!["x"]);
    // Watchers stay registered after being told.
    assert_eq!(m.watchers(&key(1)).unwrap().len(), 3);
    let drained = m.drain();
    assert_eq!(drained.len(), 2);
    let first = drained.iter().find(|(k, _)| *k == key(1)).unwrap();
    assert_eq!((first.1).0, "watched");
    assert!(m.watchers(&key(1)).is_none());
}

#[test]
fn running_actors_registry() {
    let mut actors: AidTable<&'static str> = AidTable::new();
    actor_started(&mut actors, key(1), "a");
    actor_started(&mut actors, key(2), "b");
    assert!(actors.contains(&key(1)));
    actor_stopped(&mut actors, &key(1));
    assert!(!actors.contains(&key(1)));
    assert_eq!(actors.get(&key(2)), Some(&"b"));
}

#[test]
fn registry_is_not_told_about_itself() {
    let registry = Aid::from_parts(Some("System".to_string()), 9, 1);
    let same = Aid::from_parts(None, 9, 1);
    let actor = Aid::from_parts(None, 9, 2);
    assert!(!notifies(&same, &registry));
    assert!(notifies(&actor, &registry));
}
