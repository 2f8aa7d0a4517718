use fkactor::receiver::{Emit, Outcome, PollPlan, Polled};
use fkactor::{Message, ReceiverState, SingleReceiverState, SystemMsg};

type Msg = Message<u32, u8>;

fn ready_actual(o: &Outcome<u32, u8>) -> Option<u32> {
    match o {
        Outcome::Emit(Emit::Ready(Message::Actual(m))) => Some(*m),
        _ => None,
    }
}

#[test]
fn fresh_mailbox_polls_both_channels() {
    let mut r: ReceiverState<u32, u8> = ReceiverState::new();
    assert!(r.stream_open() && r.system_open() && !r.is_terminated());
    assert!(matches!(r.plan(), PollPlan::Poll { stream: true, system: true }));
}

#[test]
fn both_pending_is_pending() {
    let mut r: ReceiverState<u32, u8> = ReceiverState::new();
    r.plan();
    let x = r.react(Some(Polled::Pending), Some(Polled::Pending));
    assert!(matches!(x.outcome, Outcome::Emit(Emit::Pending)));
    assert!(!x.close_stream && !x.close_system);
    assert!(r.stream_open() && r.system_open());
}

#[test]
fn simultaneous_items_keep_order() {
    let mut r: ReceiverState<u32, u8> = ReceiverState::new();
    r.plan();
    let x = r.react(Some(Polled::Item(5)), Some(Polled::Item(SystemMsg::Start)));
    assert_eq!(ready_actual(&x.outcome), Some(5));
    match r.plan() {
        PollPlan::Deliver(m) => assert_eq!(m, Msg::System(SystemMsg::Start)),
        _ => panic!("buffered system message not delivered first"),
    }
    assert!(matches!(r.plan(), PollPlan::Poll { stream: true, system: true }));
}

#[test]
fn system_item_alone_is_delivered() {
    let mut r: ReceiverState<u32, u8> = ReceiverState::new();
    r.plan();
    let x = r.react(Some(Polled::Pending), Some(Polled::Item(SystemMsg::Start)));
    match x.outcome {
        Outcome::Emit(Emit::Ready(m)) => assert_eq!(m, Msg::System(SystemMsg::Start)),
        _ => panic!("expected the system message"),
    }
}

#[test]
fn stream_end_closes_system_and_polls_again() {
    let mut r: ReceiverState<u32, u8> = ReceiverState::new();
    r.plan();
    let x = r.react(Some(Polled::Ended), Some(Polled::Pending));
    assert!(matches!(x.outcome, Outcome::Again));
    assert!(x.close_system && !x.close_stream);
    assert!(!r.stream_open() && r.system_open());
    assert!(matches!(r.plan(), PollPlan::Poll { stream: false, system: true }));
    let y = r.react(None, Some(Polled::Pending));
    assert!(matches!(y.outcome, Outcome::Emit(Emit::Pending)));
}

#[test]
fn system_end_with_item_closes_stream() {
    let mut r: ReceiverState<u32, u8> = ReceiverState::new();
    r.plan();
    let x = r.react(Some(Polled::Item(9)), Some(Polled::Ended));
    assert_eq!(ready_actual(&x.outcome), Some(9));
    assert!(x.close_stream && !x.close_system);
    assert!(r.stream_open() && !r.system_open());
}

#[test]
fn both_ended_synthesizes_stop_then_finishes() {
    let mut r: ReceiverState<u32, u8> = ReceiverState::new();
    r.plan();
    let x = r.react(Some(Polled::Ended), Some(Polled::Ended));
    match x.outcome {
        Outcome::Emit(Emit::Ready(m)) => assert_eq!(m, Msg::System(SystemMsg::Stop)),
        _ => panic!("expected a synthesized stop"),
    }
    assert!(!r.is_terminated());
    assert!(matches!(r.plan(), PollPlan::Finished));
    assert!(r.is_terminated());
    assert!(matches!(r.plan(), PollPlan::Finished));
    assert!(r.is_terminated());
}

#[test]
fn last_channel_ending_synthesizes_stop() {
    let mut r: ReceiverState<u32, u8> = ReceiverState::new();
    r.plan();
    r.react(Some(Polled::Pending), Some(Polled::Ended));
    assert!(matches!(r.plan(), PollPlan::Poll { stream: true, system: false }));
    let y = r.react(Some(Polled::Item(1)), None);
    assert_eq!(ready_actual(&y.outcome), Some(1));
    r.plan();
    let z = r.react(Some(Polled::Ended), None);
    match z.outcome {
        Outcome::Emit(Emit::Ready(m)) => assert_eq!(m, Msg::System(SystemMsg::Stop)),
        _ => panic!("expected a synthesized stop"),
    }
    assert!(matches!(r.plan(), PollPlan::Finished));
}

#[test]
fn single_mailbox_closes_after_stop() {
    let mut s = SingleReceiverState::new();
    assert!(s.is_open());
    let e = s.react::<u32, u8>(Some(Polled::Item(Message::Actual(3))));
    assert!(matches!(e, Emit::Ready(Message::Actual(3))));
    let e = s.react::<u32, u8>(Some(Polled::Pending));
    assert!(matches!(e, Emit::Pending));
    let e = s.react::<u32, u8>(Some(Polled::Ended));
    assert!(matches!(e, Emit::Finished));
    assert!(s.is_open());
    let e = s.react::<u32, u8>(Some(Polled::Item(Message::System(SystemMsg::Stop))));
    assert!(matches!(e, Emit::Ready(Message::System(SystemMsg::Stop))));
    assert!(!s.is_open());
    assert!(matches!(s.react::<u32, u8>(None), Emit::Finished));
}
