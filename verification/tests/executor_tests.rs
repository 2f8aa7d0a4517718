use fkactor::ExecutorState;

#[test]
fn queued_actors_start_in_order() {
    let mut e: ExecutorState<u32, String> = ExecutorState::new();
    assert_eq!(e.spawn(1), None);
    assert_eq!(e.spawn(2), None);
    let queued = e.begin_start().unwrap();
    assert_eq!(queued, vec![1, 2]);
    assert!(matches!(e, ExecutorState::Invalid));
    e.started(queued.iter().map(|q| q.to_string()).collect());
    assert!(matches!(&e, ExecutorState::Started(j) if j == &vec!["1".to_string(), "2".to_string()]));
    assert_eq!(e.spawn(3), Some(3));
    e.add_join("3".to_string());
    assert!(matches!(&e, ExecutorState::Started(j) if j.len() == 3));
}

#[test]
fn second_start_invalidates() {
    let mut e: ExecutorState<u32, u32> = ExecutorState::default();
    e.begin_start();
    e.started(vec![]);
    assert!(e.begin_start().is_none());
    assert!(matches!(e, ExecutorState::Invalid));
}
