use fkactor::process::{status_on_stopped, ProcessStep};
use fkactor::{Aid, Change, ProcessCounts, Status};

#[test]
fn reference_counted_processes() {
    let mut p: ProcessCounts<String, u32> = ProcessCounts::new();
    assert_eq!(p.add("a".to_string()), Some("a".to_string()));
    p.started("a".to_string(), 77);
    assert_eq!(p.count(&"a".to_string()), 1);
    assert_eq!(p.add("a".to_string()), None);
    assert_eq!(p.count(&"a".to_string()), 2);
    assert_eq!(p.remove("a".to_string()), None);
    assert_eq!(p.count(&"a".to_string()), 1);
    assert_eq!(p.remove("a".to_string()), Some(77));
    assert_eq!(p.count(&"a".to_string()), 0);
    assert_eq!(p.remove("a".to_string()), None);
}

#[test]
fn change_messages_drive_processes() {
    let mut p: ProcessCounts<u64, &'static str> = ProcessCounts::new();
    match p.handle(Change::added(5u64, ())) {
        ProcessStep::Start(id) => {
            assert_eq!(id, 5);
            p.started(id, "stop-5");
        },
        _ => panic!("expected a start"),
    }
    assert!(matches!(p.handle(Change::added(5u64, ())), ProcessStep::Nothing));
    assert!(matches!(p.handle(Change::updated(5u64, ())), ProcessStep::Nothing));
    assert_eq!(p.count(&5), 2);
    assert!(matches!(p.handle(Change::removed(5u64)), ProcessStep::Nothing));
    assert!(matches!(p.handle(Change::removed(5u64)), ProcessStep::Stop("stop-5")));
    assert_eq!(p.count(&5), 0);
}

#[test]
fn shutdown_hands_out_every_process() {
    let mut p: ProcessCounts<u64, u64> = ProcessCounts::new();
    p.started(1, 10);
    p.started(2, 20);
    p.add(2);
    let all = p.take_all();
    let mut stoppers: Vec<u64> = all.into_values().filter_map(|c| c.stopper).collect();
    stoppers.sort();
    assert_eq!(stoppers, vec![10, 20]);
    assert_eq!(p.count(&1), 0);
}

#[test]
fn stops_with_its_recipient() {
    let recipient = Aid::from_parts(Some("r".to_string()), 1, 2);
    let same = Aid::from_parts(None, 1, 2);
    let other = Aid::from_parts(None, 1, 3);
    assert_eq!(status_on_stopped(&recipient, &same), Status::Stop);
    assert_eq!(status_on_stopped(&recipient, &other), Status::Done);
}
