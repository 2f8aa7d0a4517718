use fkactor::{Aid, AidError, AidKey, Change, Changed, FanoutHandler, FanoutMessage};

fn key(n: u128) -> AidKey {
    AidKey { uuid: n, system_uuid: 1 }
}

fn keys(f: &FanoutHandler<&'static str>) -> Vec<(u128, &'static str)> {
    f.subscribers().iter().map(|(k, h)| (k.uuid, *h)).collect()
}

#[test]
fn subscriptions_add_update_remove() {
    let mut f: FanoutHandler<&'static str> = FanoutHandler::new();
    assert!(f.subscription(key(1), "one", &Changed::Added(())));
    assert!(f.subscription(key(2), "two", &Changed::Updated(())));
    // A second subscription keeps the first handle.
    assert!(f.subscription(key(1), "uno", &Changed::Added(())));
    assert_eq!(keys(&f), vec![(1, "one"), (2, "two")]);
    assert!(!f.subscription(key(1), "one", &Changed::Removed));
    assert_eq!(keys(&f), vec![(2, "two")]);
    f.stopped(&key(2));
    assert!(keys(&f).is_empty());
}

#[test]
fn broadcast_keeps_subscribers_that_accepted() {
    let mut f: FanoutHandler<&'static str> = FanoutHandler::default();
    f.subscription(key(1), "a", &Changed::Added(()));
    f.subscription(key(2), "b", &Changed::Added(()));
    f.subscription(key(3), "c", &Changed::Added(()));
    let items = f.begin_broadcast();
    assert_eq!(items.len(), 3);
    assert!(keys(&f).is_empty());
    for (k, h) in items {
        let outcome = if k.uuid == 2 { Err(AidError::ActorAlreadyStopped) } else { Ok(()) };
        assert!(f.delivered(k, h, &outcome));
    }
    f.end_broadcast();
    assert_eq!(keys(&f), vec![(1, "a"), (3, "c")]);
    // A second broadcast starts from an empty accepted set.
    let items = f.begin_broadcast();
    for (k, h) in items {
        assert!(f.delivered(k, h, &Ok(())));
    }
    f.end_broadcast();
    assert_eq!(keys(&f), vec![(1, "a"), (3, "c")]);
}

#[test]
fn other_failure_ends_broadcast() {
    let mut f: FanoutHandler<&'static str> = FanoutHandler::new();
    f.subscription(key(1), "a", &Changed::Added(()));
    let items = f.begin_broadcast();
    let (k, h) = items.into_iter().next().unwrap();
    let err = Err(AidError::SendTimedOut(Aid::from_parts(None, 1, 1)));
    assert!(!f.delivered(k, h, &err));
    assert!(keys(&f).is_empty());
}

#[test]
fn fanout_message_from_value() {
    let m: FanoutMessage<u32, &'static str> = FanoutMessage::from(4u32);
    assert!(matches!(m, FanoutMessage::Message(4)));
    let s: FanoutMessage<u32, &'static str> = FanoutMessage::Subscription(Change::added("h", ()));
    match s {
        FanoutMessage::Subscription(c) => assert_eq!(c.id, "h"),
        _ => panic!("expected a subscription"),
    }
}
